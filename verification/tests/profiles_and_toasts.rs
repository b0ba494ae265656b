//! Profiles tab and toasts: the highlighted profile follows the live one,
//! switching is handed to the host, and at most three toasts stay on
//! screen for five seconds.

use liteconfig_tui::app::{App, PresetCatalog};
use liteconfig_tui::app_profiles::profiles_title;
use liteconfig_tui::events::{handle_key, Action, Key, KeyCode, Modifiers};
use liteconfig_tui::model::{AgentInfo, Profile, Skill, SyncMethod};
use liteconfig_tui::tasks::ToastLevel;
use liteconfig_tui::views::{GithubBackup, Settings};

fn agents() -> Vec<AgentInfo> {
    let names = [("codex", "Codex", true), ("gemini", "Gemini CLI", true), ("qwen", "Qwen Code", true), ("cursor", "Cursor", false), ("opencode", "OpenCode", false)];
    names
        .iter()
        .map(|(id, name, profiles)| AgentInfo { id: id.to_string(), display_name: name.to_string(), supports_profiles: *profiles })
        .collect()
}

fn default_settings() -> Settings {
    Settings {
        theme: "dark".to_string(),
        github_backup: GithubBackup { enabled: false, repo_url: String::new(), branch: "main".to_string(), auto_sync: false },
        current_profiles: vec![None, None, None, None, None],
    }
}

fn new_app() -> App {
    App::new(agents(), default_settings(), PresetCatalog { skill_repos: Vec::new(), mcp: Vec::new(), plugins: Vec::new() }, Vec::new(), 1_000)
}

fn skill(name: &str) -> Skill {
    Skill {
        id: format!("id-{name}"),
        name: name.to_string(),
        description: None,
        sync_method: SyncMethod::Inherit,
        enabled: vec![false; 5],
        from_github: false,
        content_hash: Some("abc".to_string()),
    }
}

fn profile(id: &str, name: &str) -> Profile {
    Profile { id: id.to_string(), name: name.to_string(), notes: None }
}

#[test]
fn highlighted_profile_follows_the_live_one() {
    let mut app = new_app();
    app.settings.current_profiles[0] = Some("p2".to_string());
    app.reload_profiles(vec![vec![profile("p1", "work"), profile("p2", "home")], vec![profile("c1", "default")], Vec::new()]);
    assert_eq!(app.profile_views[0].selected, 1);
    assert_eq!(app.profile_views[1].selected, 0);
    assert_eq!(app.current_profile_name(0), Some("home".to_string()));
    assert_eq!(app.current_profile_name(1), None);
    assert_eq!(app.profile_agents(), vec![0, 1, 2]);
}

#[test]
fn switching_is_requested_then_recorded() {
    let mut app = new_app();
    app.reload_profiles(vec![vec![profile("p1", "work"), profile("p2", "home")], Vec::new(), Vec::new()]);
    let k = |c: KeyCode| Key::new(c, Modifiers::Plain);
    handle_key(&mut app, k(KeyCode::Char('j')));
    let sw = match handle_key(&mut app, k(KeyCode::Enter)).action {
        Action::SwitchProfile(sw) => sw,
        other => panic!("expected a switch, got {other:?}"),
    };
    assert_eq!((sw.agent, sw.profile_id.as_str(), sw.profile_name.as_str()), (0, "p2", "home"));
    let r = app.profile_switched(&sw, Ok(()));
    assert!(r.profiles);
    assert_eq!(app.settings.current_profiles[0], Some("p2".to_string()));
    assert_eq!(app.toasts.last().unwrap().message, "Switched Codex to home");

    // An agent without profiles gets a warning instead.
    handle_key(&mut app, k(KeyCode::Right));
    assert_eq!(app.focused_agent(), 1);
    assert!(matches!(handle_key(&mut app, k(KeyCode::Char('s'))).action, Action::Nothing));
    assert_eq!(app.toasts.last().unwrap().message, "No profile to switch to for Gemini CLI");
    handle_key(&mut app, k(KeyCode::Right));
    handle_key(&mut app, k(KeyCode::Right));
    assert_eq!(app.focused_agent(), 0, "focus wraps over the agents that have profiles");
}

#[test]
fn at_most_three_toasts_newest_last() {
    let mut app = new_app();
    for i in 0..5 {
        app.push_toast(format!("t{i}"), ToastLevel::Info);
    }
    let msgs: Vec<&str> = app.toasts.iter().map(|t| t.message.as_str()).collect();
    assert_eq!(msgs, vec!["t2", "t3", "t4"]);
}

#[test]
fn toasts_expire_after_five_seconds() {
    let mut app = new_app();
    app.set_clock(10_000);
    app.push_toast("old".to_string(), ToastLevel::Info);
    app.set_clock(12_000);
    app.push_toast("new".to_string(), ToastLevel::Info);
    app.set_clock(15_000);
    app.tick();
    let msgs: Vec<&str> = app.toasts.iter().map(|t| t.message.as_str()).collect();
    assert_eq!(msgs, vec!["new"], "a toast five seconds old is dropped");
    assert_eq!(app.tick_idx, 1);
    for _ in 0..255 {
        app.tick();
    }
    assert_eq!(app.tick_idx, 0, "the animation counter wraps");
}

#[test]
fn auto_import_runs_only_on_an_empty_store() {
    let mut app = new_app();
    assert!(app.needs_auto_import());
    app.auto_imported(1, 2, 0, 3);
    assert_eq!(
        app.toasts.last().unwrap().message,
        "Imported 1 profile(s), 2 skill(s), 0 rule(s), 3 MCP server(s)"
    );
    let before = app.toasts.len();
    app.auto_imported(0, 0, 0, 0);
    assert_eq!(app.toasts.len(), before, "nothing imported: no toast");
    app.reload_skills(vec![skill("x")]);
    assert!(!app.needs_auto_import());
}

#[test]
fn status_bar_points_at_the_live_config() {
    let app = new_app();
    assert_eq!(app.live_config_hint(&Some("/home/u/.codex/config.toml".to_string())), "Codex: /home/u/.codex/config.toml");
    assert_eq!(app.live_config_hint(&None), "Codex: ?");
}

#[test]
fn profile_rows_mark_the_live_one_with_notes() {
    let mut app = new_app();
    app.settings.current_profiles[0] = Some("p2".to_string());
    let mut work = profile("p1", "work");
    work.notes = Some("office laptop".to_string());
    app.reload_profiles(vec![vec![work, profile("p2", "home")], Vec::new(), Vec::new()]);
    let rows = app.profile_rows(0);
    assert_eq!(rows.len(), 2);
    assert!(!rows[0].live && rows[1].live);
    assert_eq!((rows[0].name.as_str(), rows[0].notes.as_str()), ("work", "office laptop"));
    assert_eq!((rows[1].name.as_str(), rows[1].notes.as_str()), ("home", ""));
    assert!(app.profile_rows(1).is_empty());
    assert!(app.profile_rows(9).is_empty());
    assert_eq!(profiles_title(2, &app.current_profile_name(0)), " · 2 profiles · live: home ");
    assert_eq!(profiles_title(1, &None), " · 1 profiles · live: (none) ");
}
