//! Sync-method picker: the cursor starts on the skill's method, wraps, and
//! a commit hands the chosen method to the host.

use liteconfig_tui::app::{App, PresetCatalog};
use liteconfig_tui::display::method_blurb;
use liteconfig_tui::model::{method_popup_choices, AgentInfo, Skill, SyncMethod};
use liteconfig_tui::views::{GithubBackup, Settings};

fn agents() -> Vec<AgentInfo> {
    let names = [("codex", "Codex", true), ("gemini", "Gemini CLI", true), ("qwen", "Qwen Code", true), ("cursor", "Cursor", false), ("opencode", "OpenCode", false)];
    names
        .iter()
        .map(|(id, name, profiles)| AgentInfo { id: id.to_string(), display_name: name.to_string(), supports_profiles: *profiles })
        .collect()
}

fn default_settings() -> Settings {
    Settings {
        theme: "dark".to_string(),
        github_backup: GithubBackup { enabled: false, repo_url: String::new(), branch: "main".to_string(), auto_sync: false },
        current_profiles: vec![None, None, None, None, None],
    }
}

fn new_app() -> App {
    App::new(agents(), default_settings(), PresetCatalog { skill_repos: Vec::new(), mcp: Vec::new(), plugins: Vec::new() }, Vec::new(), 1_000)
}

fn skill(name: &str) -> Skill {
    Skill {
        id: format!("id-{name}"),
        name: name.to_string(),
        description: None,
        sync_method: SyncMethod::Inherit,
        enabled: vec![false; 5],
        from_github: false,
        content_hash: Some("abc".to_string()),
    }
}

fn fresh_app_with_one_skill() -> (App, String) {
    let mut app = new_app();
    let s = skill("pick-me");
    let id = s.id.clone();
    app.reload_skills(vec![s]);
    (app, id)
}

#[test]
fn commit_writes_chosen_method_to_db() {
    let (mut app, id) = fresh_app_with_one_skill();
    app.open_method_popup_for_focused();
    let popup = app.method_popup.as_ref().expect("popup open");
    let choices = method_popup_choices();
    let inherit_idx = choices.iter().position(|m| m.as_str() == "inherit").unwrap();
    assert_eq!(popup.cursor, inherit_idx);

    let copy_idx = choices.iter().position(|m| m.as_str() == "copy").unwrap();
    let delta = copy_idx as i32 - inherit_idx as i32;
    app.method_popup_move(delta);
    let change = app.method_popup_commit().expect("a method was picked");
    assert!(app.method_popup.is_none(), "popup closed after commit");
    assert_eq!(change.skill_id, id);
    assert_eq!(change.method.as_str(), "copy");

    // The host stores it and resyncs.
    assert!(app.method_set_done(&change, Ok(())));
    app.method_resynced(&change, Ok(()));
    let mut stored = skill("pick-me");
    stored.sync_method = change.method;
    app.reload_skills(vec![stored]);
    assert_eq!(app.skills_view.skills[0].sync_method.as_str(), "copy");
}

#[test]
fn cancel_discards_changes() {
    let (mut app, _id) = fresh_app_with_one_skill();
    app.open_method_popup_for_focused();
    app.method_popup_move(1);
    app.method_popup_cancel();
    assert!(app.method_popup.is_none());
    assert_eq!(app.skills_view.skills[0].sync_method.as_str(), "inherit", "cancel should leave the method untouched");
}

#[test]
fn move_wraps_around() {
    let (mut app, _) = fresh_app_with_one_skill();
    app.open_method_popup_for_focused();
    let start = app.method_popup.as_ref().unwrap().cursor;
    app.method_popup_move(-1);
    let wrapped = app.method_popup.as_ref().unwrap().cursor;
    let n = method_popup_choices().len();
    assert_eq!(wrapped, (start + n - 1) % n);
}

#[test]
fn picker_order_and_blurbs() {
    let labels: Vec<String> = method_popup_choices().iter().map(|m| m.as_str()).collect();
    assert_eq!(labels, vec!["auto", "symlink", "copy", "inherit"]);
    assert_eq!(method_blurb(SyncMethod::Copy), "independent copies per agent");
    assert_eq!(method_blurb(SyncMethod::Auto), "OS-picked (symlink on Unix, copy on Windows)");
}
