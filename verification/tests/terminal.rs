//! The mouse, pasted text and keys that arrive together.
use recursive_tui::app::App;
use recursive_tui::keys::{KeyCode, KeyEvent, KeyModifiers, MouseEvent, MouseEventKind};
use recursive_tui::style::{Line, Span};
use recursive_tui::terminal::{handle_mouse, keys_to_handle, panic_log_entry};

fn mouse_event(kind: MouseEventKind, row: u16) -> MouseEvent {
    MouseEvent { kind, column: 0, row }
}

fn rows() -> Vec<Line> {
    vec![
        Line::two(Span::raw("•  ".into()), Span::raw("alpha".into())),
        Line::one(Span::raw("  beta".into())),
        Line::blank(),
    ]
}

fn key(code: KeyCode) -> KeyEvent {
    KeyEvent::new(code, KeyModifiers::none())
}

#[test]
fn append_panic_log_writes_under_recursive_home() {
    let log = panic_log_entry(7, "worker", "src/x.rs:42:13", "byte index 79 is not a char boundary");
    assert!(log.contains("thread 'worker'"), "missing thread: {log}");
    assert!(log.contains("src/x.rs:42:13"), "missing location: {log}");
    assert!(
        log.contains("byte index 79 is not a char boundary"),
        "missing message: {log}"
    );
    assert_eq!(
        log,
        "[unix_ts=7] thread 'worker' panicked at src/x.rs:42:13:\nbyte index 79 is not a char boundary\n\n"
    );
}

#[test]
fn handle_mouse_scroll_up_increases_offset() {
    let mut app = App::new();
    app.scroll_offset = 0;
    handle_mouse(&mut app, mouse_event(MouseEventKind::ScrollUp, 0), &rows());
    assert_eq!(app.scroll_offset, 3);
}

#[test]
fn handle_mouse_scroll_down_decreases_offset() {
    let mut app = App::new();
    app.scroll_offset = 5;
    handle_mouse(&mut app, mouse_event(MouseEventKind::ScrollDown, 0), &rows());
    assert_eq!(app.scroll_offset, 2);
}

#[test]
fn mouse_down_drag_selects_row_range() {
    let mut app = App::new();
    handle_mouse(&mut app, mouse_event(MouseEventKind::LeftDown, 0), &rows());
    handle_mouse(&mut app, mouse_event(MouseEventKind::LeftDrag, 2), &rows());
    assert_eq!(app.selection, Some((0, 2)));
}

#[test]
fn mouse_up_copies_selection_and_clears() {
    let mut app = App::new();
    handle_mouse(&mut app, mouse_event(MouseEventKind::LeftDown, 0), &rows());
    handle_mouse(&mut app, mouse_event(MouseEventKind::LeftDrag, 1), &rows());
    handle_mouse(&mut app, mouse_event(MouseEventKind::LeftUp, 1), &rows());
    assert_eq!(
        app.last_copied.as_deref(),
        Some("•  alpha\n  beta"),
        "release must copy the selected visible rows (rendered text)"
    );
    assert!(
        app.selection.is_none(),
        "selection must clear after a copy on release"
    );
}

#[test]
fn mouse_drag_without_prior_down_is_ignored() {
    let mut app = App::new();
    handle_mouse(&mut app, mouse_event(MouseEventKind::LeftDrag, 2), &rows());
    assert_eq!(
        app.selection, None,
        "Drag without a prior Down must not create a selection"
    );
}

#[test]
fn mouse_wheel_scroll_clears_selection() {
    let mut app = App::new();
    handle_mouse(&mut app, mouse_event(MouseEventKind::LeftDown, 0), &rows());
    assert!(app.selection.is_some());
    handle_mouse(&mut app, mouse_event(MouseEventKind::ScrollUp, 0), &rows());
    assert!(app.selection.is_none(), "scroll must clear selection");
    assert_eq!(app.scroll_offset, 3, "scroll wheel behaviour itself is unchanged");
}

#[test]
fn dragging_upwards_keeps_the_selection_in_order() {
    let mut app = App::new();
    handle_mouse(&mut app, mouse_event(MouseEventKind::LeftDown, 5), &rows());
    handle_mouse(&mut app, mouse_event(MouseEventKind::LeftDrag, 1), &rows());
    assert_eq!(app.selection, Some((1, 5)));
    handle_mouse(&mut app, mouse_event(MouseEventKind::LeftUp, 1), &rows());
    assert_eq!(app.last_copied.as_deref(), Some("  beta\n"));
    handle_mouse(&mut app, mouse_event(MouseEventKind::LeftDown, 9), &rows());
    handle_mouse(&mut app, mouse_event(MouseEventKind::LeftUp, 9), &rows());
    assert_eq!(app.last_copied.as_deref(), Some(""));
    handle_mouse(&mut app, mouse_event(MouseEventKind::Other, 9), &rows());
    assert_eq!(app.selection, None);
}

#[test]
fn escape_sequence_in_pieces_is_dropped() {
    let esc = key(KeyCode::Esc);
    let bracket = key(KeyCode::Char('['));
    assert!(keys_to_handle(esc, Some((bracket, true))).is_empty());
    assert_eq!(keys_to_handle(esc, Some((bracket, false))), vec![esc]);
    assert_eq!(keys_to_handle(esc, None), vec![esc]);
    let other = key(KeyCode::Char('x'));
    assert_eq!(keys_to_handle(esc, Some((other, true))), vec![esc, other]);
}

#[test]
fn pasted_text_goes_in_at_the_cursor() {
    let mut app = App::new();
    app.set_input("ab");
    app.handle_key(key(KeyCode::Left));
    app.handle_paste("/né\n");
    assert_eq!(app.input(), "a/né\nb");
    assert_eq!(app.prompt.cursor, 6);
}
