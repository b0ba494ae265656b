//! MCP tab `/` filter: case-insensitive substring match on the server name
//! and its command.

use liteconfig_tui::app::{App, PresetCatalog};
use liteconfig_tui::model::{AgentInfo, McpServer, Skill, SyncMethod};
use liteconfig_tui::views::{GithubBackup, Settings};

fn agents() -> Vec<AgentInfo> {
    let names = [("codex", "Codex", true), ("gemini", "Gemini CLI", true), ("qwen", "Qwen Code", true), ("cursor", "Cursor", false), ("opencode", "OpenCode", false)];
    names
        .iter()
        .map(|(id, name, profiles)| AgentInfo { id: id.to_string(), display_name: name.to_string(), supports_profiles: *profiles })
        .collect()
}

fn default_settings() -> Settings {
    Settings {
        theme: "dark".to_string(),
        github_backup: GithubBackup { enabled: false, repo_url: String::new(), branch: "main".to_string(), auto_sync: false },
        current_profiles: vec![None, None, None, None, None],
    }
}

fn new_app() -> App {
    App::new(agents(), default_settings(), PresetCatalog { skill_repos: Vec::new(), mcp: Vec::new(), plugins: Vec::new() }, Vec::new(), 1_000)
}

fn skill(name: &str) -> Skill {
    Skill {
        id: format!("id-{name}"),
        name: name.to_string(),
        description: None,
        sync_method: SyncMethod::Inherit,
        enabled: vec![false; 5],
        from_github: false,
        content_hash: Some("abc".to_string()),
    }
}

fn server(name: &str, command: &str) -> McpServer {
    McpServer { id: format!("id-{name}"), name: name.to_string(), command: command.to_string(), enabled: Vec::new() }
}

fn app_with(rows: &[(&str, &str)]) -> App {
    let mut app = new_app();
    app.reload_mcp(rows.iter().map(|(n, c)| server(n, c)).collect());
    app
}

#[test]
fn filter_matches_name_and_command() {
    let mut app = app_with(&[("github-mcp", "node"), ("filesystem", "python"), ("pytest-runner", "pytest")]);
    assert_eq!(app.mcp_view.servers.len(), 3);

    app.mcp_filter_open();
    for c in "py".chars() {
        app.mcp_filter_push(c);
    }
    assert_eq!(app.filtered_mcp_indices().len(), 2, "py should hit both name and command");

    app.mcp_filter_clear();
    assert_eq!(app.filtered_mcp_indices().len(), 3);
}

#[test]
fn mcp_filter_filter_is_case_insensitive_and_focus_resets() {
    let mut app = app_with(&[("Alpha", "node"), ("beta", "python"), ("ALPHA-BIS", "node")]);
    app.move_mcp_focus(2);
    assert_eq!(app.mcp_view.focused_idx, 2);

    app.mcp_filter_open();
    for c in "ALPHA".chars() {
        app.mcp_filter_push(c);
    }
    assert_eq!(app.filtered_mcp_indices().len(), 2);
    assert_eq!(app.mcp_view.focused_idx, 0, "typing into filter should reset focus");
}

#[test]
fn mcp_filter_enter_keeps_filter_esc_clears() {
    let mut app = app_with(&[("foo", "node"), ("bar", "node")]);
    app.mcp_filter_open();
    app.mcp_filter_push('f');
    app.mcp_filter_close_keep();
    assert!(!app.mcp_view.filter_editing);
    assert_eq!(app.mcp_view.filter, "f");
    assert_eq!(app.filtered_mcp_indices().len(), 1);

    app.mcp_filter_clear();
    assert!(app.mcp_view.filter.is_empty());
    assert_eq!(app.filtered_mcp_indices().len(), 2);
}

#[test]
fn selection_toggles_by_id() {
    let mut app = app_with(&[("a", "node"), ("b", "node")]);
    app.toggle_focused_mcp_selection();
    assert_eq!(app.mcp_view.selected_ids, vec!["id-a".to_string()]);
    app.move_mcp_focus(1);
    app.toggle_focused_mcp_selection();
    assert_eq!(app.mcp_view.selected_ids.len(), 2);
    app.move_mcp_focus(-1);
    app.toggle_focused_mcp_selection();
    assert_eq!(app.mcp_view.selected_ids, vec!["id-b".to_string()], "a second toggle deselects");
}
