//! Settings tab → GitHub-backup section editing flow. Each edit is handed
//! to the host to persist; the host's copy then carries the new values.

use liteconfig_tui::app::{App, PresetCatalog};
use liteconfig_tui::display::{gh_row_state, gh_row_value, gh_status};
use liteconfig_tui::events::{handle_key, Action, Key, KeyCode, Modifiers};
use liteconfig_tui::model::{AgentInfo, Skill, SyncMethod};
use liteconfig_tui::tab::Tab;
use liteconfig_tui::views::{GithubBackup, Settings, SettingsRow};

fn agents() -> Vec<AgentInfo> {
    let names = [("codex", "Codex", true), ("gemini", "Gemini CLI", true), ("qwen", "Qwen Code", true), ("cursor", "Cursor", false), ("opencode", "OpenCode", false)];
    names
        .iter()
        .map(|(id, name, profiles)| AgentInfo { id: id.to_string(), display_name: name.to_string(), supports_profiles: *profiles })
        .collect()
}

fn default_settings() -> Settings {
    Settings {
        theme: "dark".to_string(),
        github_backup: GithubBackup { enabled: false, repo_url: String::new(), branch: "main".to_string(), auto_sync: false },
        current_profiles: vec![None, None, None, None, None],
    }
}

fn new_app() -> App {
    App::new(agents(), default_settings(), PresetCatalog { skill_repos: Vec::new(), mcp: Vec::new(), plugins: Vec::new() }, Vec::new(), 1_000)
}

fn skill(name: &str) -> Skill {
    Skill {
        id: format!("id-{name}"),
        name: name.to_string(),
        description: None,
        sync_method: SyncMethod::Inherit,
        enabled: vec![false; 5],
        from_github: false,
        content_hash: Some("abc".to_string()),
    }
}

/// What the host writes to settings.json when asked to save.
fn save(app: &App) -> GithubBackup {
    let g = &app.settings.github_backup;
    GithubBackup { enabled: g.enabled, repo_url: g.repo_url.clone(), branch: g.branch.clone(), auto_sync: g.auto_sync }
}

#[test]
fn space_toggles_enabled_and_persists() {
    let mut app = new_app();
    assert!(!app.settings.github_backup.enabled);
    assert_eq!(app.settings_view.focused_row, Some(SettingsRow::GhEnabled));

    let change = app.settings_toggle_focused().expect("a flag row changes");
    assert!(app.settings.github_backup.enabled);
    let on_disk = save(&app);
    assert!(on_disk.enabled, "Space should persist to settings.json");
    app.settings_saved(&change, Ok(()));
    assert_eq!(app.toasts.last().unwrap().message, "GitHub backup: on");

    app.settings_toggle_focused().expect("a flag row changes");
    let on_disk = save(&app);
    assert!(!on_disk.enabled);
}

#[test]
fn enter_on_repo_url_opens_input_and_commit_persists() {
    let mut app = new_app();
    app.move_settings_focus(1);
    assert_eq!(app.settings_view.focused_row, Some(SettingsRow::GhRepoUrl));

    app.settings_begin_edit();
    assert!(app.settings_view.input_buf.is_some());
    for c in "git@github.com:me/dotfiles.git".chars() {
        app.settings_input_push(c);
    }
    let change = app.settings_input_commit().expect("a text row changes");
    assert_eq!(app.settings.github_backup.repo_url, "git@github.com:me/dotfiles.git");
    let on_disk = save(&app);
    assert_eq!(on_disk.repo_url, "git@github.com:me/dotfiles.git");
    assert!(app.settings_view.input_buf.is_none(), "Commit should close the input");
    assert_eq!(change.ok_message, "Repo URL: git@github.com:me/dotfiles.git");
}

#[test]
fn esc_cancels_edit_without_changing_settings() {
    let mut app = new_app();
    app.move_settings_focus(1);
    app.settings_begin_edit();
    app.settings_input_push('x');
    app.settings_input_cancel();
    assert!(app.settings.github_backup.repo_url.is_empty());
    assert!(app.settings_view.input_buf.is_none());
}

#[test]
fn blank_branch_falls_back_to_main() {
    let mut app = new_app();
    app.settings.github_backup.branch = "feature".into();

    app.move_settings_focus(1);
    app.move_settings_focus(1);
    assert_eq!(app.settings_view.focused_row, Some(SettingsRow::GhBranch));

    app.settings_begin_edit();
    for _ in 0..20 {
        app.settings_input_pop();
    }
    app.settings_input_commit();
    assert_eq!(app.settings.github_backup.branch, "main", "blank branch commit should fall back to 'main'");
}

#[test]
fn text_row_ignores_toggle_and_bool_row_ignores_edit() {
    let mut app = new_app();
    app.move_settings_focus(1);
    let before = app.settings.github_backup.repo_url.clone();
    assert!(app.settings_toggle_focused().is_none());
    assert_eq!(app.settings.github_backup.repo_url, before);

    app.move_settings_focus(-1);
    assert_eq!(app.settings_view.focused_row, Some(SettingsRow::GhEnabled));
    app.settings_begin_edit();
    assert!(app.settings_view.input_buf.is_none(), "Enter on a bool row shouldn't open the text input");
}

#[test]
fn focus_wraps_and_whitespace_branch_is_blank() {
    let mut app = new_app();
    app.move_settings_focus(-1);
    assert_eq!(app.settings_view.focused_row, Some(SettingsRow::GhAutoSync));
    let change = app.settings_toggle_focused().unwrap();
    assert_eq!(change.ok_message, "Auto-sync: on");
    app.move_settings_focus(4);
    assert_eq!(app.settings_view.focused_row, Some(SettingsRow::GhAutoSync));
    app.move_settings_focus(-1);
    assert_eq!(app.settings_view.focused_row, Some(SettingsRow::GhBranch));
    app.settings_begin_edit();
    assert_eq!(app.settings_view.input_buf.as_deref(), Some("main"));
    for _ in 0..4 {
        app.settings_input_pop();
    }
    app.settings_input_push(' ');
    app.settings_input_push(' ');
    let change = app.settings_input_commit().unwrap();
    assert_eq!(app.settings.github_backup.branch, "main");
    assert_eq!(change.ok_message, "Branch: main");
    app.settings_saved(&change, Err("read-only".to_string()));
    assert_eq!(app.toasts.last().unwrap().message, "Save failed: read-only");
}

#[test]
fn settings_keys_drive_the_editor() {
    let mut app = new_app();
    app.active_tab = Tab::Settings;
    let key = |c: KeyCode| Key::new(c, Modifiers::Plain);
    handle_key(&mut app, key(KeyCode::Down));
    handle_key(&mut app, key(KeyCode::Enter));
    assert_eq!(app.settings_view.input_buf.as_deref(), Some(""));
    for c in "u@h:r".chars() {
        handle_key(&mut app, key(KeyCode::Char(c)));
    }
    // `q` is typed into the editor, not taken as quit.
    handle_key(&mut app, key(KeyCode::Char('q')));
    assert!(!app.should_quit);
    handle_key(&mut app, key(KeyCode::Backspace));
    let out = handle_key(&mut app, key(KeyCode::Enter));
    match out.action {
        Action::SaveSettings(c) => assert_eq!(c.ok_message, "Repo URL: u@h:r"),
        other => panic!("expected a save, got {other:?}"),
    }
    assert_eq!(app.settings.github_backup.repo_url, "u@h:r");
    handle_key(&mut app, key(KeyCode::Up));
    let out = handle_key(&mut app, key(KeyCode::Char(' ')));
    assert!(matches!(out.action, Action::SaveSettings(_)));
    assert!(app.settings.github_backup.enabled);
}

#[test]
fn settings_rows_as_shown() {
    let mut app = new_app();
    let gh = &app.settings.github_backup;
    assert_eq!(gh_row_value(gh, SettingsRow::GhEnabled), "no");
    assert_eq!(gh_row_value(gh, SettingsRow::GhRepoUrl), "(not set — press Enter to edit)");
    assert_eq!(gh_row_value(gh, SettingsRow::GhBranch), "main");
    assert_eq!(gh_row_value(gh, SettingsRow::GhAutoSync), "no");
    assert_eq!(gh_status(&app.settings), "GH: off");
    assert_eq!(gh_row_state(&app.settings_view, SettingsRow::GhEnabled), (true, false));
    app.move_settings_focus(1);
    app.settings_begin_edit();
    assert_eq!(gh_row_state(&app.settings_view, SettingsRow::GhRepoUrl), (true, true));
    assert_eq!(gh_row_state(&app.settings_view, SettingsRow::GhBranch), (false, false));
    app.settings.github_backup.enabled = true;
    assert_eq!(gh_status(&app.settings), "GH: ●main");
    assert_eq!(SettingsRow::GhAutoSync.label(), "Auto-sync");
    assert!(SettingsRow::GhBranch.is_text());
    assert!(!SettingsRow::GhEnabled.is_text());
}
