//! Skills in the command menu.
use recursive_tui::app::App;
use recursive_tui::command_menu::{command_menu_entries, MAX_VISIBLE};
use recursive_tui::commands::CommandRegistry;
use recursive_tui::input_state::InputMode;
use recursive_tui::keys::{KeyCode, KeyEvent, KeyModifiers};
use recursive_tui::model::AppScreen;
use recursive_tui::skill_commands::SkillCommand;

fn k(code: KeyCode) -> KeyEvent {
    KeyEvent::new(code, KeyModifiers::none())
}

fn app_with_skill() -> App {
    let mut app = App::new();
    app.screen = AppScreen::Chat;
    let mut registry = CommandRegistry::default_set();
    let skill = SkillCommand {
        name: "refactor".to_string(),
        description: "Refactor code".to_string(),
        aliases: vec![],
        argument_hint: "<file>".to_string(),
        allowed_tools: None,
        prompt_template: "Refactor $ARGUMENTS".to_string(),
        source_path: "/fake/refactor.md".to_string(),
    };
    registry = registry.with_skill_commands(vec![skill]);
    app.commands = registry;
    app.prompt.mode = InputMode::Command;
    app
}

#[test]
fn down_moves_highlight_onto_skill_row() {
    let mut app = app_with_skill();
    app.prompt.buffer = String::new();
    let max_visible = MAX_VISIBLE;
    for _ in 0..max_visible {
        let _ = app.handle_command_menu_key(k(KeyCode::Down));
    }
    assert!(app.command_menu_selected.is_some());
    let sel = app.command_menu_selected.unwrap();
    assert!(
        sel < max_visible,
        "selected index {sel} should be within MAX_VISIBLE {max_visible}"
    );
}

#[test]
fn enter_on_skill_row_sets_buffer_to_skill_name() {
    let mut app = app_with_skill();
    app.prompt.buffer = "ref".to_string();
    let entries =
        command_menu_entries(&app.commands, &app.prompt.buffer);
    let skill_idx = entries
        .iter()
        .position(|e| e.name() == "refactor")
        .expect("refactor should be in menu entries");
    app.command_menu_selected = Some(skill_idx);
    let _ = app.handle_command_menu_key(k(KeyCode::Enter));
    assert_eq!(app.prompt.buffer, "refactor");
}

#[test]
fn tab_completes_skill_name_from_prefix() {
    let mut app = app_with_skill();
    app.prompt.buffer = "ref".to_string();
    let _ = app.handle_command_menu_key(k(KeyCode::Tab));
    assert_eq!(app.prompt.buffer, "refactor");
}
