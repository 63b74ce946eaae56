//! Cards and the classification of raw text lines into a card.
//!
//! A card holds an optional title, its content lines in order, and a 1-based
//! position in its source. When a card is built from raw lines, the first
//! line that contains a `'#'` becomes the title; every other line, later
//! `'#'` lines included, becomes content in arrival order.

use vstd::prelude::*;
use vstd::string::StrSliceExecFns;

verus! {

/// One displayable unit: an optional title and ordered text lines, with its
/// 1-based position in the source it was loaded from.
#[derive(Debug)]
pub struct Card {
    pub title: Option<String>,
    pub content: Vec<String>,
    pub number: usize,
}

impl Card {
    /// Well-formed for layout on this machine: the summed content length,
    /// plus the fixed title and border padding, fits in `usize`.
    pub open spec fn fits(self) -> bool {
        sum_lens(self.content@) + 6 <= usize::MAX
    }
}

/// Whether a line contains the character `'#'`.
pub open spec fn line_has_hash(l: Seq<char>) -> bool {
    exists|j: int| 0 <= j < l.len() && l[j] == '#'
}

/// Sum of the lengths of the first `k` lines.
pub open spec fn sum_prefix(lines: Seq<String>, k: int) -> int
    decreases k,
{
    if k <= 0 {
        0
    } else {
        sum_prefix(lines, k - 1) + lines[k - 1]@.len()
    }
}

/// Sum of the lengths of all lines.
pub open spec fn sum_lens(lines: Seq<String>) -> int {
    sum_prefix(lines, lines.len() as int)
}

/// A sum of line lengths is never negative.
pub proof fn lemma_sum_prefix_nonneg(lines: Seq<String>, k: int)
    ensures
        0 <= sum_prefix(lines, k),
    decreases k,
{
    if k > 0 {
        lemma_sum_prefix_nonneg(lines, k - 1);
    }
}

/// The partial sums of line lengths never decrease.
pub proof fn lemma_sum_prefix_mono(lines: Seq<String>, j: int, k: int)
    requires
        0 <= j <= k,
    ensures
        sum_prefix(lines, j) <= sum_prefix(lines, k),
    decreases k - j,
{
    if j < k {
        lemma_sum_prefix_mono(lines, j, k - 1);
    }
}

/// Title after classifying the first `k` lines: the first of them that
/// contains `'#'`, if any.
pub open spec fn title_of(lines: Seq<String>, k: int) -> Option<String>
    decreases k,
{
    if k <= 0 {
        None
    } else {
        let t = title_of(lines, k - 1);
        if t is None && line_has_hash(lines[k - 1]@) {
            Some(lines[k - 1])
        } else {
            t
        }
    }
}

/// Content after classifying the first `k` lines: all of them, in order,
/// except the one taken as the title.
pub open spec fn content_of(lines: Seq<String>, k: int) -> Seq<String>
    decreases k,
{
    if k <= 0 {
        Seq::empty()
    } else {
        let c = content_of(lines, k - 1);
        if title_of(lines, k - 1) is None && line_has_hash(lines[k - 1]@) {
            c
        } else {
            c.push(lines[k - 1])
        }
    }
}

/// Whether `line` contains the character `'#'`.
pub fn has_hash(line: &String) -> (b: bool)
    ensures
        b == line_has_hash(line@),
{
    let n: usize = line.as_str().unicode_len();
    let mut i: usize = 0;
    while i < n
        invariant
            n == line@.len(),
            0 <= i <= n,
            forall|j: int| 0 <= j < i ==> line@[j] != '#',
        decreases n - i,
    {
        if line.as_str().get_char(i) == '#' {
            return true;
        }
        i = i + 1;
    }
    false
}

/// Builds the card at 1-based position `number` from raw lines: the first
/// line containing `'#'` becomes the title, every other line content.
pub fn card_from_lines(lines: &Vec<String>, number: usize) -> (c: Card)
    requires
        1 <= number,
    ensures
        c.title == title_of(lines@, lines@.len() as int),
        c.content@ == content_of(lines@, lines@.len() as int),
        c.number == number,
{
    let mut title: Option<String> = None;
    let mut content: Vec<String> = Vec::new();
    let mut i: usize = 0;
    while i < lines.len()
        invariant
            0 <= i <= lines@.len(),
            title == title_of(lines@, i as int),
            content@ == content_of(lines@, i as int),
        decreases lines@.len() - i,
    {
        let line = lines[i].clone();
        if title.is_none() && has_hash(&line) {
            title = Some(line);
        } else {
            content.push(line);
        }
        i = i + 1;
    }
    Card { title, content, number }
}

/// Builds a deck, one card per section of raw lines, numbered 1 upward in
/// order: the numbers are positive and strictly increasing across the deck.
pub fn build_deck(sections: &Vec<Vec<String>>) -> (deck: Vec<Card>)
    requires
        sections@.len() < usize::MAX,
    ensures
        deck@.len() == sections@.len(),
        forall|k: int|
            0 <= k < deck@.len() ==> {
                &&& (#[trigger] deck@[k]).number == k + 1
                &&& deck@[k].title == title_of(sections@[k]@, sections@[k]@.len() as int)
                &&& deck@[k].content@ == content_of(sections@[k]@, sections@[k]@.len() as int)
            },
{
    let mut deck: Vec<Card> = Vec::new();
    let mut i: usize = 0;
    while i < sections.len()
        invariant
            sections@.len() < usize::MAX,
            0 <= i <= sections@.len(),
            deck@.len() == i,
            forall|k: int|
                0 <= k < i ==> {
                    &&& (#[trigger] deck@[k]).number == k + 1
                    &&& deck@[k].title == title_of(sections@[k]@, sections@[k]@.len() as int)
                    &&& deck@[k].content@ == content_of(sections@[k]@, sections@[k]@.len() as int)
                },
        decreases sections@.len() - i,
    {
        let card = card_from_lines(&sections[i], i + 1);
        deck.push(card);
        i = i + 1;
    }
    deck
}

/// Whether every card of `deck` is well-formed for layout on this machine.
pub open spec fn deck_fits(deck: Seq<Card>) -> bool {
    forall|k: int| 0 <= k < deck.len() ==> (#[trigger] deck[k]).fits()
}

/// Checks that the summed content length of `card`, plus the fixed padding,
/// fits in `usize`.
pub fn card_fits(card: &Card) -> (b: bool)
    ensures
        b == card.fits(),
{
    let mut total: usize = 0;
    let mut i: usize = 0;
    while i < card.content.len()
        invariant
            0 <= i <= card.content@.len(),
            total == sum_prefix(card.content@, i as int),
            total + 6 <= usize::MAX,
        decreases card.content@.len() - i,
    {
        let l: usize = card.content[i].as_str().unicode_len();
        if usize::MAX - 6 - total < l {
            proof {
                lemma_sum_prefix_mono(card.content@, i + 1, card.content@.len() as int);
            }
            return false;
        }
        total = total + l;
        i = i + 1;
    }
    true
}

/// Checks that every card of `deck` is well-formed for layout.
pub fn check_deck_fits(deck: &Vec<Card>) -> (b: bool)
    ensures
        b == deck_fits(deck@),
{
    let mut i: usize = 0;
    while i < deck.len()
        invariant
            0 <= i <= deck@.len(),
            forall|k: int| 0 <= k < i ==> (#[trigger] deck@[k]).fits(),
        decreases deck@.len() - i,
    {
        if !card_fits(&deck[i]) {
            return false;
        }
        i = i + 1;
    }
    true
}

} // verus!
