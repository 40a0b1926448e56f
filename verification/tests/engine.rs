use interactive_list::events::Action;
use interactive_list::events::Mode;
use interactive_list::interact::Session;
use interactive_list::interact::StepResult;
use interactive_list::print_list::print_list;
use interactive_list::styles::TextStyle;
use interactive_list::utils::get_list_items_from_matches;
use interactive_list::utils::ListItem;

fn plain_style(text: &str) -> TextStyle {
    TextStyle {
        text: String::from(text),
        color: None,
        background: None,
        highlighted_background: None,
        highlighted_color: None,
    }
}

fn plain_styles() -> (TextStyle, TextStyle, TextStyle, TextStyle) {
    (
        plain_style(""),
        plain_style(""),
        plain_style(": "),
        plain_style(""),
    )
}

/// `n` short single-line items "q0: a0", "q1: a1", ...
fn single_line_items(n: usize) -> Vec<ListItem> {
    let mut pairs: Vec<(String, String)> = Vec::new();
    for i in 0..n {
        pairs.push((format!("q{}", i), format!("a{}", i)));
    }
    get_list_items_from_matches(&pairs, &plain_styles())
}

/// An item whose cached outputs are exactly `text`, for row accounting.
fn raw_item(text: &str) -> ListItem {
    ListItem::new(
        text,
        text,
        "q",
        "a",
        plain_style(""),
        plain_style(""),
        plain_style(": "),
        plain_style(""),
    )
}

#[test]
fn print_list_paints_items_top_down() {
    let items = single_line_items(3);
    let painted = print_list(9, 80, &items, 0, 0);
    assert_eq!(painted.rows.len(), 3);
    assert_eq!(painted.rows[0].0, 0);
    assert_eq!(painted.rows[0].1, String::from("q0: a0"));
    assert_eq!(painted.rows[1].0, 1);
    assert_eq!(painted.rows[2].0, 2);
    assert_eq!(painted.highlighted_position, 0);
}

#[test]
fn print_list_respects_the_scroll_offset() {
    let items = single_line_items(20);
    let painted = print_list(9, 80, &items, 5, 2);
    // the first visible item is item 5, the highlighted one is item 7 on row 2
    assert_eq!(painted.rows[0].1, String::from("q5: a5"));
    assert_eq!(painted.rows[2].1, String::from("q7: a7"));
    assert_eq!(painted.highlighted_position, 2);
}

#[test]
fn print_list_counts_wrapped_rows() {
    // 25 characters at width 10 wrap twice: the item ends on row 2 and the
    // next item starts on row 3
    let items = vec![raw_item("aaaaaaaaaaaaaaaaaaaaaaaaa"), raw_item("bb")];
    let painted = print_list(9, 10, &items, 0, 0);
    assert_eq!(painted.rows.len(), 2);
    assert_eq!(painted.rows[0].0, 0);
    assert_eq!(painted.rows[1].0, 3);
    assert_eq!(painted.highlighted_position, 2);
}

#[test]
fn print_list_counts_embedded_line_breaks() {
    let items = vec![raw_item("ab\ncd"), raw_item("ee")];
    let painted = print_list(9, 80, &items, 0, 1);
    assert_eq!(painted.rows[0].0, 0);
    // the two-line item pushes the next one down one extra row
    assert_eq!(painted.rows[1].0, 2);
    // the highlighted item is the second one, drawn on row 2
    assert_eq!(painted.highlighted_position, 2);
}

#[test]
fn print_list_stops_at_max_cursor() {
    let items = single_line_items(20);
    let painted = print_list(4, 80, &items, 0, 0);
    assert_eq!(painted.rows.len(), 4);
}

#[test]
fn print_list_skips_rows_past_the_end_of_the_list() {
    let items = single_line_items(2);
    let painted = print_list(9, 80, &items, 0, 0);
    assert_eq!(painted.rows.len(), 2);
}

#[test]
fn rendering_twice_is_deterministic() {
    let items = vec![raw_item("ab\ncd"), raw_item("a very long item indeed")];
    let a = print_list(9, 10, &items, 0, 1);
    let b = print_list(9, 10, &items, 0, 1);
    assert_eq!(a.rows, b.rows);
    assert_eq!(a.highlighted_position, b.highlighted_position);
}

#[test]
fn render_frame_twice_is_identical() {
    let items = single_line_items(12);
    let session = Session::new(80, 10);
    let f1 = session.render_frame(&items);
    let f2 = session.render_frame(&items);
    assert_eq!(f1.list.rows, f2.list.rows);
    assert_eq!(f1.list.highlighted_position, f2.list.highlighted_position);
    assert_eq!(f1.status, f2.status);
    assert_eq!(f1.status_row, f2.status_row);
}

#[test]
fn sticky_bottom_edge_scrolls_the_offset() {
    // viewport height 10 gives max_cursor 9; 20 single-line items; moving
    // down from the top: the 8th move reaches the sticky bottom edge, and
    // the 9th increments the offset exactly once with the cursor pinned
    let mut items = single_line_items(20);
    let mut session = Session::new(80, 10);
    assert_eq!(session.cursor_position, 0);
    for _ in 0..7 {
        let r = session.apply_action(&mut items, Action::Move(1));
        assert!(matches!(r, StepResult::Painted(_)));
    }
    assert_eq!(session.cursor_position, 7);
    assert_eq!(session.cursor_offset, 0);
    // 8th move: the highlighted row lands on the bottom edge and the cursor
    // gets pinned
    session.apply_action(&mut items, Action::Move(1));
    assert_eq!(session.cursor_position, 7);
    assert_eq!(session.cursor_offset, 1);
    // 9th move: the offset grows by exactly one, the cursor stays pinned
    session.apply_action(&mut items, Action::Move(1));
    assert_eq!(session.cursor_position, 7);
    assert_eq!(session.cursor_offset, 2);
}

#[test]
fn moves_never_leave_the_viewport_bounds() {
    let mut items = single_line_items(20);
    let mut session = Session::new(80, 10);
    // moving up at the top is rejected outright
    let r = session.apply_action(&mut items, Action::Move(-1));
    assert!(matches!(r, StepResult::Idle));
    assert_eq!(session.cursor_position, 0);
    assert_eq!(session.cursor_offset, 0);
    // a long walk down and back up stays inside [0, max_cursor)
    for _ in 0..40 {
        session.apply_action(&mut items, Action::Move(1));
        assert!(session.cursor_position >= 0);
        assert!(session.cursor_position < 9);
    }
    for _ in 0..40 {
        session.apply_action(&mut items, Action::Move(-1));
        assert!(session.cursor_position >= 0);
        assert!(session.cursor_position < 9);
    }
    assert!(session.cursor_offset <= items.len());
}

#[test]
fn short_lists_never_scroll() {
    let mut items = single_line_items(3);
    let mut session = Session::new(80, 10);
    for _ in 0..10 {
        session.apply_action(&mut items, Action::Move(1));
    }
    // the cursor stops on the last item and the offset never moved
    assert_eq!(session.cursor_position, 2);
    assert_eq!(session.cursor_offset, 0);
}

#[test]
fn mode_toggling_is_strict() {
    let mut items = single_line_items(3);
    let mut session = Session::new(80, 10);
    assert_eq!(session.mode, Mode::Navigate);
    let r = session.apply_action(&mut items, Action::EnterEdit);
    assert!(matches!(r, StepResult::Painted(_)));
    assert_eq!(session.mode, Mode::Edit);
    let r = session.apply_action(&mut items, Action::ExitEdit);
    assert!(matches!(r, StepResult::Painted(_)));
    assert_eq!(session.mode, Mode::Navigate);
}

#[test]
fn editing_through_the_session_edits_the_highlighted_item() {
    let mut items = single_line_items(3);
    let mut session = Session::new(80, 10);
    session.apply_action(&mut items, Action::Move(1));
    session.apply_action(&mut items, Action::EnterEdit);
    session.apply_action(&mut items, Action::InsertChar('!'));
    assert_eq!(items[1].answer, String::from("a1!"));
    assert_eq!(items[1].regular_output, String::from("q1: a1!"));
    session.apply_action(&mut items, Action::Backspace);
    assert_eq!(items[1].answer, String::from("a1"));
    // the neighbours were never touched
    assert_eq!(items[0].answer, String::from("a0"));
    assert_eq!(items[2].answer, String::from("a2"));
}

#[test]
fn quit_terminates_from_both_modes() {
    let mut items = single_line_items(3);
    let mut session = Session::new(80, 10);
    let r = session.apply_action(&mut items, Action::Quit);
    assert!(matches!(r, StepResult::Quit));
    let mut session2 = Session::new(80, 10);
    session2.apply_action(&mut items, Action::EnterEdit);
    let r2 = session2.apply_action(&mut items, Action::Quit);
    assert!(matches!(r2, StepResult::Quit));
    // quitting changed neither the session nor the items
    assert_eq!(session2.mode, Mode::Edit);
    assert_eq!(items[0].answer, String::from("a0"));
}

#[test]
fn entering_and_leaving_edit_mode_changes_nothing() {
    let mut items = single_line_items(3);
    let before_answer = items[1].answer.clone();
    let before_regular = items[1].regular_output.clone();
    let before_highlighted = items[1].highlighted_output.clone();
    let mut session = Session::new(80, 10);
    session.apply_action(&mut items, Action::Move(1));
    let cursor_before = session.cursor_position;
    session.apply_action(&mut items, Action::EnterEdit);
    session.apply_action(&mut items, Action::ExitEdit);
    assert_eq!(session.mode, Mode::Navigate);
    assert_eq!(session.cursor_position, cursor_before);
    assert_eq!(items[1].answer, before_answer);
    assert_eq!(items[1].regular_output, before_regular);
    assert_eq!(items[1].highlighted_output, before_highlighted);
}

#[test]
fn status_line_follows_the_mode() {
    let mut items = single_line_items(3);
    let mut session = Session::new(80, 10);
    let r = session.apply_action(&mut items, Action::EnterEdit);
    if let StepResult::Painted(frame) = r {
        assert_eq!(frame.status, String::from("CTRL-g to quit. CTRL-w to stop editing"));
        assert_eq!(frame.status_row, 8);
    } else {
        panic!("entering edit mode must repaint");
    }
    let r = session.apply_action(&mut items, Action::ExitEdit);
    if let StepResult::Painted(frame) = r {
        assert_eq!(frame.status, String::from("CTRL-g to quit. CTRL-w to edit"));
    } else {
        panic!("leaving edit mode must repaint");
    }
}

#[test]
fn noop_changes_nothing_and_paints_nothing() {
    let mut items = single_line_items(3);
    let mut session = Session::new(80, 10);
    let before = session;
    let r = session.apply_action(&mut items, Action::NoOp);
    assert!(matches!(r, StepResult::Idle));
    assert_eq!(session, before);
}
