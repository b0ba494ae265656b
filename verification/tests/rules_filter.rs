//! Rules tab `/` filter: case-insensitive substring match on the rule name
//! and its body; rows are kept ordered by name.

use liteconfig_tui::app::{App, PresetCatalog};
use liteconfig_tui::model::{AgentInfo, Rule, Skill, SyncMethod};
use liteconfig_tui::views::{GithubBackup, Settings};

fn agents() -> Vec<AgentInfo> {
    let names = [("codex", "Codex", true), ("gemini", "Gemini CLI", true), ("qwen", "Qwen Code", true), ("cursor", "Cursor", false), ("opencode", "OpenCode", false)];
    names
        .iter()
        .map(|(id, name, profiles)| AgentInfo { id: id.to_string(), display_name: name.to_string(), supports_profiles: *profiles })
        .collect()
}

fn default_settings() -> Settings {
    Settings {
        theme: "dark".to_string(),
        github_backup: GithubBackup { enabled: false, repo_url: String::new(), branch: "main".to_string(), auto_sync: false },
        current_profiles: vec![None, None, None, None, None],
    }
}

fn new_app() -> App {
    App::new(agents(), default_settings(), PresetCatalog { skill_repos: Vec::new(), mcp: Vec::new(), plugins: Vec::new() }, Vec::new(), 1_000)
}

fn skill(name: &str) -> Skill {
    Skill {
        id: format!("id-{name}"),
        name: name.to_string(),
        description: None,
        sync_method: SyncMethod::Inherit,
        enabled: vec![false; 5],
        from_github: false,
        content_hash: Some("abc".to_string()),
    }
}

fn rule(name: &str, body: &str) -> Rule {
    Rule { id: format!("id-{name}"), name: name.to_string(), body: body.to_string(), enabled: Vec::new() }
}

fn app_with(rows: &[(&str, &str)]) -> App {
    let mut app = new_app();
    app.reload_rules(rows.iter().map(|(n, b)| rule(n, b)).collect());
    app
}

#[test]
fn filter_matches_name_and_body() {
    let mut app = app_with(&[
        ("commit-style", "Write concise commit messages."),
        ("safety", "Never use --force without review."),
        ("testing", "Always run tests before committing."),
    ]);
    assert_eq!(app.rules_view.rules.len(), 3);

    app.rules_filter_open();
    for c in "commit".chars() {
        app.rules_filter_push(c);
    }
    assert_eq!(app.filtered_rules_indices().len(), 2, "commit should hit name + body");

    app.rules_filter_clear();
    assert_eq!(app.filtered_rules_indices().len(), 3);
}

#[test]
fn rules_filter_filter_is_case_insensitive_and_focus_resets() {
    let mut app = app_with(&[("Alpha", "body one"), ("beta", "body two"), ("ALPHA-BIS", "body three")]);
    app.move_rules_focus(2);
    assert_eq!(app.rules_view.focused_idx, 2);

    app.rules_filter_open();
    for c in "ALPHA".chars() {
        app.rules_filter_push(c);
    }
    assert_eq!(app.filtered_rules_indices().len(), 2);
    assert_eq!(app.rules_view.focused_idx, 0, "typing into filter should reset focus");
}

#[test]
fn rules_filter_enter_keeps_filter_esc_clears() {
    let mut app = app_with(&[("foo", "alpha"), ("bar", "beta")]);
    app.rules_filter_open();
    app.rules_filter_push('f');
    app.rules_filter_close_keep();
    assert!(!app.rules_view.filter_editing);
    assert_eq!(app.rules_view.filter, "f");
    assert_eq!(app.filtered_rules_indices().len(), 1);

    app.rules_filter_clear();
    assert!(app.rules_view.filter.is_empty());
    assert_eq!(app.filtered_rules_indices().len(), 2);
}

#[test]
fn rules_are_ordered_by_name_ignoring_case() {
    let app = app_with(&[("zeta", ""), ("Beta", ""), ("alpha", ""), ("beta-2", "")]);
    let names: Vec<&str> = app.rules_view.rules.iter().map(|r| r.name.as_str()).collect();
    assert_eq!(names, vec!["alpha", "Beta", "beta-2", "zeta"]);
}
