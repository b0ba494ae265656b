//! Rules tab flows: per-agent enablement and delete.

use liteconfig_tui::app::{App, PresetCatalog};
use liteconfig_tui::model::{AgentInfo, Rule, Skill, SyncMethod};
use liteconfig_tui::views::{AgentPopupTarget, GithubBackup, Settings};

fn agents() -> Vec<AgentInfo> {
    let names = [("codex", "Codex", true), ("gemini", "Gemini CLI", true), ("qwen", "Qwen Code", true), ("cursor", "Cursor", false), ("opencode", "OpenCode", false)];
    names
        .iter()
        .map(|(id, name, profiles)| AgentInfo { id: id.to_string(), display_name: name.to_string(), supports_profiles: *profiles })
        .collect()
}

fn default_settings() -> Settings {
    Settings {
        theme: "dark".to_string(),
        github_backup: GithubBackup { enabled: false, repo_url: String::new(), branch: "main".to_string(), auto_sync: false },
        current_profiles: vec![None, None, None, None, None],
    }
}

fn new_app() -> App {
    App::new(agents(), default_settings(), PresetCatalog { skill_repos: Vec::new(), mcp: Vec::new(), plugins: Vec::new() }, Vec::new(), 1_000)
}

fn skill(name: &str) -> Skill {
    Skill {
        id: format!("id-{name}"),
        name: name.to_string(),
        description: None,
        sync_method: SyncMethod::Inherit,
        enabled: vec![false; 5],
        from_github: false,
        content_hash: Some("abc".to_string()),
    }
}

fn fixture_rule(name: &str, body: &str) -> Rule {
    Rule { id: format!("id-{name}"), name: name.to_string(), body: body.to_string(), enabled: Vec::new() }
}

#[test]
fn popup_commit_enables_rule_and_writes_file() {
    let mut app = new_app();
    app.reload_rules(vec![fixture_rule("style-guide", "use rustfmt")]);
    assert_eq!(app.rules_view.rules.len(), 1);

    app.open_agent_popup_for_focused_rule();
    assert!(app.agent_popup.is_some());
    app.agent_popup_toggle();
    let commit = app.agent_popup_commit().unwrap();
    assert!(app.agent_popup.is_none());
    assert_eq!(commit.target, AgentPopupTarget::Rule);
    assert!(commit.enabled[0]);

    assert!(app.agent_flags_written(&commit, Ok(())));
    let reloads = app.agent_commit_resynced(&commit, Ok(()));
    assert!(reloads.rules);
    let mut stored = fixture_rule("style-guide", "use rustfmt");
    stored.enabled = commit.enabled.clone();
    app.reload_rules(vec![stored]);
    assert!(app.rules_view.rules[0].enabled[0]);
}

#[test]
fn delete_removes_focused_rule() {
    let mut app = new_app();
    app.reload_rules(vec![fixture_rule("a", "A"), fixture_rule("b", "B")]);
    assert_eq!(app.rules_view.rules.len(), 2);

    let (id, name) = app.delete_focused_rule().expect("a rule is focused");
    assert_eq!(id, "id-a");
    let (reloads, _) = app.rule_deleted(&name, Ok(()));
    assert!(reloads.rules);
    app.reload_rules(vec![fixture_rule("b", "B")]);
    assert_eq!(app.rules_view.rules.len(), 1);
}

#[test]
fn resync_failure_is_reported_before_success() {
    let mut app = new_app();
    app.reload_rules(vec![fixture_rule("r", "x")]);
    app.open_agent_popup_for_focused_rule();
    let commit = app.agent_popup_commit().unwrap();
    app.agent_commit_resynced(&commit, Err("disk".to_string()));
    let msgs: Vec<&str> = app.toasts.iter().map(|t| t.message.as_str()).collect();
    assert_eq!(msgs, vec!["Resync failed: disk", "Updated agents for r"]);
}
