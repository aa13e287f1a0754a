//! The skill installer.
use recursive_tui::app::{App, PendingSkillInstall, SkillReply};
use recursive_tui::events::{SkillSearchResult, SkillZipFile};
use recursive_tui::keys::{KeyCode, KeyEvent, KeyModifiers};
use recursive_tui::modal::{Modal, SkillInstallPage, SkillInstallState};

fn k(code: KeyCode) -> KeyEvent {
    KeyEvent::new(code, KeyModifiers::none())
}

fn result(slug: &str) -> SkillSearchResult {
    SkillSearchResult {
        slug: slug.into(),
        name: slug.into(),
        description: String::new(),
        downloads: 0,
        stars: 0,
        version: String::new(),
    }
}

fn file(path: &str) -> SkillZipFile {
    SkillZipFile {
        path: path.into(),
        content: String::new(),
        size: 0,
    }
}

fn app_at(page: SkillInstallPage, results: usize, files: usize) -> App {
    let mut app = App::new();
    let state = SkillInstallState {
        query: String::new(),
        results: (0..results).map(|i| result(&format!("s{i}"))).collect(),
        slug: None,
        files: (0..files).map(|i| file(&format!("f{i}"))).collect(),
        page,
    };
    app.modals.push(Modal::SkillInstall(state));
    app
}

fn page_of(app: &App) -> SkillInstallPage {
    match app.modals.last() {
        Some(Modal::SkillInstall(s)) => s.page.clone(),
        _ => panic!("no SkillInstall modal"),
    }
}

#[test]
fn results_up_decrements_selected() {
    let mut app = app_at(SkillInstallPage::Results { selected: 2 }, 3, 0);
    app.handle_skill_install_key(k(KeyCode::Up));
    assert_eq!(page_of(&app), SkillInstallPage::Results { selected: 1 });
}

#[test]
fn results_up_at_zero_stays() {
    let mut app = app_at(SkillInstallPage::Results { selected: 0 }, 3, 0);
    app.handle_skill_install_key(k(KeyCode::Up));
    assert_eq!(page_of(&app), SkillInstallPage::Results { selected: 0 });
}

#[test]
fn results_down_increments_selected() {
    let mut app = app_at(SkillInstallPage::Results { selected: 0 }, 3, 0);
    app.handle_skill_install_key(k(KeyCode::Down));
    assert_eq!(page_of(&app), SkillInstallPage::Results { selected: 1 });
}

#[test]
fn results_down_at_last_stays() {
    let mut app = app_at(SkillInstallPage::Results { selected: 2 }, 3, 0);
    app.handle_skill_install_key(k(KeyCode::Down));
    assert_eq!(page_of(&app), SkillInstallPage::Results { selected: 2 });
}

#[test]
fn results_enter_sends_slug() {
    let mut app = app_at(SkillInstallPage::Results { selected: 1 }, 3, 0);
    app.pending_skill_install = Some(PendingSkillInstall::Search);
    app.handle_skill_install_key(k(KeyCode::Enter));
    assert!(matches!(app.skill_reply, Some(SkillReply::Chosen(Some(ref s))) if s == "s1"));
}

#[test]
fn results_esc_sends_none_and_pops() {
    let mut app = app_at(SkillInstallPage::Results { selected: 0 }, 3, 0);
    app.pending_skill_install = Some(PendingSkillInstall::Search);
    app.handle_skill_install_key(k(KeyCode::Esc));
    assert!(matches!(app.skill_reply, Some(SkillReply::Chosen(None))));
    assert!(app.modals.is_empty());
}

#[test]
fn files_up_decrements_selected() {
    let mut app = app_at(SkillInstallPage::Files { selected: 2 }, 0, 3);
    app.handle_skill_install_key(k(KeyCode::Up));
    assert_eq!(page_of(&app), SkillInstallPage::Files { selected: 1 });
}

#[test]
fn files_up_at_zero_stays() {
    let mut app = app_at(SkillInstallPage::Files { selected: 0 }, 0, 3);
    app.handle_skill_install_key(k(KeyCode::Up));
    assert_eq!(page_of(&app), SkillInstallPage::Files { selected: 0 });
}

#[test]
fn files_down_increments_selected() {
    let mut app = app_at(SkillInstallPage::Files { selected: 0 }, 0, 3);
    app.handle_skill_install_key(k(KeyCode::Down));
    assert_eq!(page_of(&app), SkillInstallPage::Files { selected: 1 });
}

#[test]
fn files_down_at_last_stays() {
    let mut app = app_at(SkillInstallPage::Files { selected: 2 }, 0, 3);
    app.handle_skill_install_key(k(KeyCode::Down));
    assert_eq!(page_of(&app), SkillInstallPage::Files { selected: 2 });
}

#[test]
fn files_v_opens_preview() {
    let mut app = app_at(SkillInstallPage::Files { selected: 1 }, 0, 3);
    app.handle_skill_install_key(k(KeyCode::Char('v')));
    assert_eq!(
        page_of(&app),
        SkillInstallPage::Preview {
            file_idx: 1,
            scroll: 0
        }
    );
}

#[test]
fn files_y_sends_true_and_pops() {
    let mut app = app_at(SkillInstallPage::Files { selected: 0 }, 0, 3);
    app.pending_skill_install = Some(PendingSkillInstall::Files);
    app.handle_skill_install_key(k(KeyCode::Char('y')));
    assert!(matches!(app.skill_reply, Some(SkillReply::Confirmed(true))));
    assert!(app.modals.is_empty());
}

#[test]
fn files_esc_sends_false_and_pops() {
    let mut app = app_at(SkillInstallPage::Files { selected: 0 }, 0, 3);
    app.pending_skill_install = Some(PendingSkillInstall::Files);
    app.handle_skill_install_key(k(KeyCode::Esc));
    assert!(matches!(app.skill_reply, Some(SkillReply::Confirmed(false))));
    assert!(app.modals.is_empty());
}

#[test]
fn preview_up_decrements_scroll() {
    let mut app = app_at(
        SkillInstallPage::Preview {
            file_idx: 0,
            scroll: 5,
        },
        0,
        3,
    );
    app.handle_skill_install_key(k(KeyCode::Up));
    assert_eq!(
        page_of(&app),
        SkillInstallPage::Preview {
            file_idx: 0,
            scroll: 4
        }
    );
}

#[test]
fn preview_down_increments_scroll() {
    let mut app = app_at(
        SkillInstallPage::Preview {
            file_idx: 0,
            scroll: 5,
        },
        0,
        3,
    );
    app.handle_skill_install_key(k(KeyCode::Down));
    assert_eq!(
        page_of(&app),
        SkillInstallPage::Preview {
            file_idx: 0,
            scroll: 6
        }
    );
}

#[test]
fn preview_pageup_decrements_scroll_by_10() {
    let mut app = app_at(
        SkillInstallPage::Preview {
            file_idx: 0,
            scroll: 15,
        },
        0,
        3,
    );
    app.handle_skill_install_key(k(KeyCode::PageUp));
    assert_eq!(
        page_of(&app),
        SkillInstallPage::Preview {
            file_idx: 0,
            scroll: 5
        }
    );
}

#[test]
fn preview_pagedown_increments_scroll_by_10() {
    let mut app = app_at(
        SkillInstallPage::Preview {
            file_idx: 0,
            scroll: 5,
        },
        0,
        3,
    );
    app.handle_skill_install_key(k(KeyCode::PageDown));
    assert_eq!(
        page_of(&app),
        SkillInstallPage::Preview {
            file_idx: 0,
            scroll: 15
        }
    );
}

#[test]
fn preview_esc_returns_to_files() {
    let mut app = app_at(
        SkillInstallPage::Preview {
            file_idx: 2,
            scroll: 3,
        },
        0,
        3,
    );
    app.handle_skill_install_key(k(KeyCode::Esc));
    assert_eq!(page_of(&app), SkillInstallPage::Files { selected: 2 });
}
