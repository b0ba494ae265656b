//! Skills tab flows: agent enablement, sync requests, and the sync-method
//! cycle.

use liteconfig_tui::app::{App, PresetCatalog};
use liteconfig_tui::app_actions::RunMode;
use liteconfig_tui::display::{agent_pill, checkbox, skill_source_label, skill_status_label};
use liteconfig_tui::events::{handle_key, Action, Key, KeyCode, Modifiers};
use liteconfig_tui::model::{AgentInfo, Skill, SyncMethod};
use liteconfig_tui::tab::Tab;
use liteconfig_tui::views::{AgentPopupTarget, GithubBackup, Settings};

fn agents() -> Vec<AgentInfo> {
    let names = [("codex", "Codex", true), ("gemini", "Gemini CLI", true), ("qwen", "Qwen Code", true), ("cursor", "Cursor", false), ("opencode", "OpenCode", false)];
    names
        .iter()
        .map(|(id, name, profiles)| AgentInfo { id: id.to_string(), display_name: name.to_string(), supports_profiles: *profiles })
        .collect()
}

fn default_settings() -> Settings {
    Settings {
        theme: "dark".to_string(),
        github_backup: GithubBackup { enabled: false, repo_url: String::new(), branch: "main".to_string(), auto_sync: false },
        current_profiles: vec![None, None, None, None, None],
    }
}

fn new_app() -> App {
    App::new(agents(), default_settings(), PresetCatalog { skill_repos: Vec::new(), mcp: Vec::new(), plugins: Vec::new() }, Vec::new(), 1_000)
}

fn skill(name: &str) -> Skill {
    Skill {
        id: format!("id-{name}"),
        name: name.to_string(),
        description: None,
        sync_method: SyncMethod::Inherit,
        enabled: vec![false; 5],
        from_github: false,
        content_hash: Some("abc".to_string()),
    }
}

#[test]
fn agent_popup_commit_syncs_skill_to_new_agent() {
    let mut app = new_app();
    app.reload_skills(vec![skill("popup-demo")]);
    assert_eq!(app.skills_view.skills.len(), 1);

    app.open_agent_popup_for_focused();
    assert!(app.agent_popup.is_some());
    // Cursor starts at 0, the first agent.
    app.agent_popup_toggle();
    let commit = app.agent_popup_commit().unwrap();
    assert!(app.agent_popup.is_none());
    assert_eq!(commit.target, AgentPopupTarget::Skill);
    assert!(commit.enabled[0], "the first agent should be enabled after popup commit");
    assert!(app.agent_flags_written(&commit, Ok(())));
    let reloads = app.agent_commit_resynced(&commit, Ok(()));
    assert!(reloads.skills);
}

#[test]
fn sync_all_materializes_enabled_skills() {
    let mut app = new_app();
    let mut a = skill("alpha");
    a.enabled[2] = true;
    app.reload_skills(vec![a, skill("bravo")]);
    assert_eq!(app.sync_all_skills(false), Some(RunMode::Inline));
    app.all_skills_synced(Ok(()));
    assert_eq!(app.toasts.last().unwrap().message, "Synced all 2 skills");
    app.all_skills_synced(Err("boom".to_string()));
    assert_eq!(app.toasts.last().unwrap().message, "Sync failed: boom");
}

#[test]
fn cycle_method_rotates_through_values() {
    let mut app = new_app();
    app.reload_skills(vec![skill("rot")]);
    assert_eq!(app.focused_sync_method_label(), "inherit");

    for expected in ["auto", "symlink"] {
        let change = app.cycle_focused_skill_method().expect("a skill is focused");
        let reloads = app.cycled_method_stored(&change, Ok(()));
        assert!(reloads.skills);
        let mut stored = skill("rot");
        stored.sync_method = change.method;
        app.reload_skills(vec![stored]);
        assert_eq!(app.focused_sync_method_label(), expected);
    }
    assert_eq!(app.skills_view.skills[0].sync_method.as_str(), "symlink");
}

#[test]
fn selection_and_sync_requests() {
    let mut app = new_app();
    app.reload_skills(vec![skill("a"), skill("b"), skill("c")]);
    app.active_tab = Tab::Skills;
    let k = |c: KeyCode, m: Modifiers| Key::new(c, m);
    assert!(matches!(handle_key(&mut app, k(KeyCode::Char('s'), Modifiers::Plain)).action, Action::Nothing));
    assert_eq!(app.toasts.last().unwrap().message, "No skills selected");
    handle_key(&mut app, k(KeyCode::Char(' '), Modifiers::Plain));
    handle_key(&mut app, k(KeyCode::Down, Modifiers::Plain));
    handle_key(&mut app, k(KeyCode::Down, Modifiers::Plain));
    handle_key(&mut app, k(KeyCode::Char(' '), Modifiers::Plain));
    match handle_key(&mut app, k(KeyCode::Char('s'), Modifiers::Plain)).action {
        Action::SyncSkills(ids) => assert_eq!(ids, vec!["id-a".to_string(), "id-c".to_string()]),
        other => panic!("expected a batch sync, got {other:?}"),
    }
    match handle_key(&mut app, k(KeyCode::Enter, Modifiers::Plain)).action {
        Action::SyncSkill(id, name) => {
            assert_eq!(id, "id-c");
            app.skill_synced(&name, Ok(()));
            assert_eq!(app.toasts.last().unwrap().message, "Synced c");
        },
        other => panic!("expected a row sync, got {other:?}"),
    }
    handle_key(&mut app, k(KeyCode::Char('A'), Modifiers::Shift));
    assert!(app.skills_view.selected_ids.is_empty());
    handle_key(&mut app, k(KeyCode::Char('a'), Modifiers::Control));
    assert_eq!(app.skills_view.selected_ids.len(), 3);
    assert!(matches!(handle_key(&mut app, k(KeyCode::Char('S'), Modifiers::Shift)).action, Action::SyncAllSkills));
    match handle_key(&mut app, k(KeyCode::Char('m'), Modifiers::Plain)).action {
        Action::StoreMethod(c) => assert_eq!(c.method, SyncMethod::Auto),
        other => panic!("expected a method change, got {other:?}"),
    }
    handle_key(&mut app, k(KeyCode::Char('M'), Modifiers::Shift));
    assert_eq!(app.method_popup.as_ref().unwrap().cursor, 3);
}

#[test]
fn row_columns() {
    assert_eq!(agent_pill(&vec![true, false, true], 5), "2/5 ●○●○○");
    assert_eq!(agent_pill(&Vec::new(), 0), "0/0 ");
    assert_eq!(skill_source_label(true), "github");
    assert_eq!(skill_source_label(false), "local");
    assert_eq!(skill_status_label(&Some("abc".to_string())), "in sync");
    assert_eq!(skill_status_label(&Some(String::new())), "unknown");
    assert_eq!(skill_status_label(&None), "unknown");
    assert_eq!(checkbox(true), "☑ ");
    assert_eq!(checkbox(false), "☐ ");
}
