//! Handing keys to the chat front end.
use recursive_tui::chat::App;
use recursive_tui::events::UserAction;
use recursive_tui::keymap::dispatch;
use recursive_tui::keys::KeyCode;
use recursive_tui::model::AppScreen;

#[test]
fn dispatch_routes_chat_enter_to_send_message() {
    let mut app = App::new();
    app.screen = AppScreen::Chat;
    app.input = "ping".into();
    let action = dispatch(&mut app, KeyCode::Enter);
    assert!(matches!(action, Some(UserAction::SendMessage(s)) if s == "ping"));
}

#[test]
fn dispatch_routes_chat_typing_to_no_action() {
    let mut app = App::new();
    app.screen = AppScreen::Chat;
    let action = dispatch(&mut app, KeyCode::Char('a'));
    assert!(action.is_none());
    assert_eq!(app.input, "a");
}
