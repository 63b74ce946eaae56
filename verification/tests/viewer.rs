use cardview::card::{build_deck, card_from_lines, card_fits, check_deck_fits, has_hash, Card};
use cardview::layout::{compute_layout, wrap_width, FrameState};
use cardview::nav::{next_index, prev_index};
use cardview::render::{build_plan, RenderOp};
use cardview::session::{Action, classify_key, Directive, Event, Key, Viewer, ViewerError};

fn line(s: &str) -> String {
    String::from(s)
}

fn plain_card(lines: &[&str], number: usize) -> Card {
    Card { title: None, content: lines.iter().map(|s| String::from(*s)).collect(), number }
}

fn titled_card(title: &str, lines: &[&str], number: usize) -> Card {
    Card {
        title: Some(String::from(title)),
        content: lines.iter().map(|s| String::from(*s)).collect(),
        number,
    }
}

fn three_card_viewer() -> Viewer {
    let deck = vec![
        plain_card(&["first"], 1),
        plain_card(&["second"], 2),
        plain_card(&["third"], 3),
    ];
    Viewer::new(deck, 80, 24).unwrap()
}

#[test]
fn prev_index_saturates_at_zero() {
    assert_eq!(prev_index(0), 0);
    assert_eq!(prev_index(1), 0);
    assert_eq!(prev_index(5), 4);
}

#[test]
fn next_index_saturates_at_last() {
    assert_eq!(next_index(0, 3), 1);
    assert_eq!(next_index(2, 3), 2);
    assert_eq!(next_index(0, 1), 0);
}

#[test]
fn cursor_stays_in_bounds_under_mixed_inputs() {
    let mut v = three_card_viewer();
    let evs = vec![
        Event::Key(Key::Left),
        Event::Key(Key::Left),
        Event::Key(Key::Right),
        Event::Key(Key::Right),
        Event::Key(Key::Right),
        Event::Key(Key::Right),
        Event::Key(Key::Left),
        Event::Key(Key::Right),
    ];
    let d = v.apply_events(&evs);
    assert_eq!(d, Directive::Continue);
    assert!(v.cursor < 3);
    assert_eq!(v.cursor, 2);
}

#[test]
fn previous_saturates_at_first_card() {
    let mut v = three_card_viewer();
    let evs = vec![Event::Key(Key::Left); 7];
    let d = v.apply_events(&evs);
    assert_eq!(d, Directive::Continue);
    assert_eq!(v.cursor, 0);
}

#[test]
fn next_saturates_at_last_card() {
    let mut v = three_card_viewer();
    let to_last = vec![Event::Key(Key::Right); 2];
    v.apply_events(&to_last);
    assert_eq!(v.cursor, 2);
    let more = vec![Event::Key(Key::Tab); 9];
    let d = v.apply_events(&more);
    assert_eq!(d, Directive::Continue);
    assert_eq!(v.cursor, 2);
}

#[test]
fn four_nexts_on_three_cards_end_at_last() {
    let mut v = three_card_viewer();
    let evs = vec![Event::Key(Key::Right); 4];
    let d = v.apply_events(&evs);
    assert_eq!(d, Directive::Continue);
    assert_eq!(v.cursor, 2);
}

#[test]
fn resize_sets_frame_exactly_and_changes_nothing_else() {
    let mut v = three_card_viewer();
    let before_cursor = v.cursor;
    let d = v.handle_event(&Event::Resize(100, 41));
    assert_eq!(d, Directive::Continue);
    assert_eq!(v.frame, FrameState { width: 100, height: 41 });
    assert_eq!(v.cursor, before_cursor);
    assert!(v.raw_mode);
}

#[test]
fn resize_affects_only_later_plans() {
    let mut v = three_card_viewer();
    let before = v.render_plan();
    v.handle_event(&Event::Resize(60, 20));
    let after = v.render_plan();
    assert_ne!(before, after);
    assert_eq!(before, build_plan(&FrameState::new(80, 24), v.current_card()));
    assert_eq!(after, build_plan(&FrameState::new(60, 20), v.current_card()));
}

#[test]
fn quit_exits_and_releases_raw_mode() {
    let mut v = three_card_viewer();
    assert!(v.raw_mode, "creation must take the raw-mode obligation");
    let d = v.handle_event(&Event::Key(Key::Char('q')));
    assert_eq!(d, Directive::Exit);
    assert!(!v.raw_mode, "quit must release the raw-mode obligation");
}

#[test]
fn quit_inside_batch_stops_the_batch() {
    let mut v = three_card_viewer();
    let evs = vec![
        Event::Key(Key::Right),
        Event::Key(Key::Char('q')),
        Event::Key(Key::Right),
    ];
    let d = v.apply_events(&evs);
    assert_eq!(d, Directive::Exit);
    assert_eq!(v.cursor, 1, "events after the quit are not applied");
    assert!(!v.raw_mode);
}

#[test]
fn other_keys_and_events_are_ignored() {
    let mut v = three_card_viewer();
    v.apply_events(&vec![Event::Key(Key::Right)]);
    let evs = vec![
        Event::Key(Key::Char('x')),
        Event::Key(Key::Other),
        Event::Other,
    ];
    let d = v.apply_events(&evs);
    assert_eq!(d, Directive::Continue);
    assert_eq!(v.cursor, 1);
}

#[test]
fn empty_deck_is_rejected() {
    let r = Viewer::new(Vec::new(), 80, 24);
    match r {
        Err(e) => assert_eq!(e, ViewerError::EmptyDeck),
        Ok(_) => panic!("an empty deck must be rejected"),
    }
}

#[test]
fn key_classification_matches_the_keyboard_surface() {
    assert_eq!(classify_key(&Key::Left), Action::Previous);
    assert_eq!(classify_key(&Key::Backspace), Action::Previous);
    assert_eq!(classify_key(&Key::BackTab), Action::Previous);
    assert_eq!(classify_key(&Key::Right), Action::Next);
    assert_eq!(classify_key(&Key::Enter), Action::Next);
    assert_eq!(classify_key(&Key::Tab), Action::Next);
    assert_eq!(classify_key(&Key::Char('q')), Action::Quit);
    assert_eq!(classify_key(&Key::Char('a')), Action::Ignore);
    assert_eq!(classify_key(&Key::Other), Action::Ignore);
}

#[test]
fn layout_example_is_exact() {
    let frame = FrameState::new(80, 24);
    let card = plain_card(&["aaaaaaaaaa", "bbbbbbbbbbbbbbbbbbbb"], 1);
    assert_eq!(wrap_width(80), 36);
    let l = compute_layout(&frame, &card);
    assert_eq!(l.estimated_height, 4);
    assert_eq!(l.anchor_y, 8);
    assert_eq!(l.anchor_x, 10);
}

#[test]
fn layout_is_deterministic_on_identical_inputs() {
    let frame = FrameState::new(133, 57);
    let card = titled_card("# t", &["some text", "more text"], 1);
    let l1 = compute_layout(&frame, &card);
    let l2 = compute_layout(&frame, &card);
    assert_eq!(l1, l2);
}

#[test]
fn degenerate_width_clamps_wrap_width_and_keeps_anchor_valid() {
    assert_eq!(wrap_width(4), 1);
    assert_eq!(wrap_width(8), 1);
    assert_eq!(wrap_width(9), 1);
    assert_eq!(wrap_width(10), 1);
    assert_eq!(wrap_width(11), 1);
    assert_eq!(wrap_width(12), 2);
    let frame = FrameState::new(4, 10);
    let card = plain_card(&["aaaaaaaaaaaaaaaaaaaaaaaaaaaaaa"], 1);
    let l = compute_layout(&frame, &card);
    assert_eq!(l.estimated_height, 34);
    assert_eq!(l.anchor_y, 0, "anchor clamps to the top of the frame");
    assert!(l.anchor_x < 4);
}

#[test]
fn title_adds_two_rows_to_the_estimate() {
    let frame = FrameState::new(80, 24);
    let without = compute_layout(&frame, &plain_card(&["abc"], 1));
    let with = compute_layout(&frame, &titled_card("# t", &["abc"], 1));
    assert_eq!(without.estimated_height, 4);
    assert_eq!(with.estimated_height, 6);
}

#[test]
fn plan_without_title_draws_rule_then_lines_at_anchor() {
    let frame = FrameState::new(80, 24);
    let card = plain_card(&["hello", "world"], 1);
    let ops = build_plan(&frame, &card);
    assert_eq!(
        ops,
        vec![
            RenderOp::ClearAll,
            RenderOp::MoveTo(10, 8),
            RenderOp::Rule(60),
            RenderOp::MoveTo(10, 8),
            RenderOp::Text(line("hello")),
            RenderOp::MoveTo(10, 9),
            RenderOp::Text(line("world")),
        ]
    );
}

#[test]
fn plan_with_title_draws_title_block_then_lines_two_rows_below() {
    let frame = FrameState::new(80, 24);
    let card = titled_card("# Title", &["x"], 1);
    let ops = build_plan(&frame, &card);
    assert_eq!(
        ops,
        vec![
            RenderOp::ClearAll,
            RenderOp::MoveTo(10, 6),
            RenderOp::Text(line("# Title")),
            RenderOp::MoveTo(10, 7),
            RenderOp::Rule(60),
            RenderOp::MoveTo(10, 8),
            RenderOp::Text(line("x")),
        ]
    );
}

#[test]
fn has_hash_finds_the_marker_anywhere_in_the_line() {
    assert!(has_hash(&line("# title")));
    assert!(has_hash(&line("trailing #")));
    assert!(!has_hash(&line("no marker")));
    assert!(!has_hash(&line("")));
}

#[test]
fn card_from_lines_takes_first_hash_line_as_title() {
    let lines = vec![line("intro"), line("# Title"), line("# not title"), line("body")];
    let c = card_from_lines(&lines, 3);
    assert_eq!(c.title, Some(line("# Title")));
    assert_eq!(c.content, vec![line("intro"), line("# not title"), line("body")]);
    assert_eq!(c.number, 3);
}

#[test]
fn card_from_no_lines_is_empty() {
    let c = card_from_lines(&Vec::new(), 1);
    assert_eq!(c.title, None);
    assert!(c.content.is_empty());
}

#[test]
fn build_deck_numbers_cards_from_one_upward() {
    let sections = vec![
        vec![line("# a"), line("one")],
        vec![line("two")],
        vec![],
    ];
    let deck = build_deck(&sections);
    assert_eq!(deck.len(), 3);
    assert_eq!(deck[0].number, 1);
    assert_eq!(deck[1].number, 2);
    assert_eq!(deck[2].number, 3);
    assert_eq!(deck[0].title, Some(line("# a")));
    assert_eq!(deck[1].title, None);
    assert_eq!(deck[2].content.len(), 0);
}

#[test]
fn deck_fits_on_ordinary_cards() {
    let deck = build_deck(&vec![vec![line("# a"), line("one")], vec![line("two")]]);
    assert!(card_fits(&deck[0]));
    assert!(check_deck_fits(&deck));
}
