//! MCP tab flows: the agent popup commits per-agent flags for the host to
//! write and resync; `d` hands the focused row to the host to delete.

use liteconfig_tui::app::{App, PresetCatalog};
use liteconfig_tui::app_popups::{AgentCommit, FlagWrites};
use liteconfig_tui::model::{AgentInfo, McpServer, Skill, SyncMethod};
use liteconfig_tui::views::{AgentPopupTarget, GithubBackup, Settings};

fn agents() -> Vec<AgentInfo> {
    let names = [("codex", "Codex", true), ("gemini", "Gemini CLI", true), ("qwen", "Qwen Code", true), ("cursor", "Cursor", false), ("opencode", "OpenCode", false)];
    names
        .iter()
        .map(|(id, name, profiles)| AgentInfo { id: id.to_string(), display_name: name.to_string(), supports_profiles: *profiles })
        .collect()
}

fn default_settings() -> Settings {
    Settings {
        theme: "dark".to_string(),
        github_backup: GithubBackup { enabled: false, repo_url: String::new(), branch: "main".to_string(), auto_sync: false },
        current_profiles: vec![None, None, None, None, None],
    }
}

fn new_app() -> App {
    App::new(agents(), default_settings(), PresetCatalog { skill_repos: Vec::new(), mcp: Vec::new(), plugins: Vec::new() }, Vec::new(), 1_000)
}

fn skill(name: &str) -> Skill {
    Skill {
        id: format!("id-{name}"),
        name: name.to_string(),
        description: None,
        sync_method: SyncMethod::Inherit,
        enabled: vec![false; 5],
        from_github: false,
        content_hash: Some("abc".to_string()),
    }
}

fn fixture_server(name: &str) -> McpServer {
    McpServer { id: format!("id-{name}"), name: name.to_string(), command: "uvx".to_string(), enabled: Vec::new() }
}

#[test]
fn popup_commit_flips_agent_and_resyncs() {
    let mut app = new_app();
    app.reload_mcp(vec![fixture_server("memory")]);
    assert_eq!(app.mcp_view.servers.len(), 1);

    app.open_agent_popup_for_focused_mcp();
    assert!(app.agent_popup.is_some());
    // Cursor 0 is the first agent. Toggle on.
    app.agent_popup_toggle();
    let commit = app.agent_popup_commit().expect("popup was open");
    assert!(app.agent_popup.is_none());
    assert_eq!(commit.target, AgentPopupTarget::Mcp);
    assert_eq!(commit.row_id, "id-memory");
    assert!(commit.enabled[0], "the first agent is enabled in the committed flags");
    assert!(commit.enabled[1..].iter().all(|b| !b));

    // The host writes the flags and resyncs, then reports back.
    assert!(app.agent_flags_written(&commit, Ok(())));
    let reloads = app.agent_commit_resynced(&commit, Ok(()));
    assert!(reloads.mcp);
    let mut stored = fixture_server("memory");
    stored.enabled = commit.enabled.clone();
    app.reload_mcp(vec![stored]);
    assert!(app.mcp_view.servers[0].enabled[0]);
    assert_eq!(app.toasts.last().unwrap().message, "Updated agents for memory");
}

#[test]
fn delete_removes_focused_row() {
    let mut app = new_app();
    app.reload_mcp(vec![fixture_server("a"), fixture_server("b")]);
    assert_eq!(app.mcp_view.servers.len(), 2);

    let (id, name) = app.delete_focused_mcp().expect("a row is focused");
    assert_eq!(id, "id-a");
    let reloads = app.mcp_deleted(&name, Ok(()));
    assert!(reloads.mcp);
    app.reload_mcp(vec![fixture_server("b")]);
    assert_eq!(app.mcp_view.servers.len(), 1);
}

#[test]
fn failed_write_stops_the_commit() {
    let mut app = new_app();
    app.reload_mcp(vec![fixture_server("m")]);
    app.open_agent_popup_for_focused_mcp();
    app.agent_popup_set_all(true);
    let commit = app.agent_popup_commit().unwrap();
    assert!(commit.enabled.iter().all(|b| *b));
    assert_eq!(commit.enabled.len(), 5);
    assert!(!app.agent_flags_written(&commit, Err("locked".to_string())));
    assert_eq!(app.toasts.last().unwrap().message, "Update failed: locked");
}

#[test]
fn agent_popup_cursor_wraps() {
    let mut app = new_app();
    app.reload_mcp(vec![fixture_server("m")]);
    app.open_agent_popup_for_focused_mcp();
    app.agent_popup_move(-1);
    assert_eq!(app.agent_popup.as_ref().unwrap().cursor, 4);
    app.agent_popup_toggle();
    app.agent_popup_toggle();
    app.agent_popup_move(1);
    assert_eq!(app.agent_popup.as_ref().unwrap().cursor, 0);
    app.agent_popup_toggle();
    let commit = app.agent_popup_commit().unwrap();
    assert!(commit.enabled[0]);
    assert!(!commit.enabled[4], "toggling twice restores the flag");
}

#[test]
fn flag_writes_go_in_order_and_stop_at_the_first_failure() {
    let commit = AgentCommit {
        target: AgentPopupTarget::Mcp,
        row_id: "m1".to_string(),
        row_name: "fs".to_string(),
        enabled: vec![true, false, true, true],
    };
    let mut st = FlagWrites::new();
    assert_eq!(commit.next_write(&st, 5), Some((0, true)));
    st.record(Ok(()));
    assert_eq!(commit.next_write(&st, 5), Some((1, false)));
    st.record(Err("locked".to_string()));
    assert_eq!(commit.next_write(&st, 5), None, "agents after the failing one stay untouched");
    assert_eq!(st.done, 1, "the flag before the failure stays written");
    assert_eq!(st.outcome(), Err("locked".to_string()));

    let mut all = FlagWrites::new();
    let mut seen = Vec::new();
    while let Some((i, on)) = commit.next_write(&all, 3) {
        seen.push((i, on));
        all.record(Ok(()));
    }
    assert_eq!(seen, vec![(0, true), (1, false), (2, true)], "only the agents the store knows");
    assert_eq!(all.outcome(), Ok(()));
}
