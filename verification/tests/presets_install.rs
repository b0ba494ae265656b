//! Installing a curated MCP preset yields a disabled row with the preset's
//! command and args; the chooser commits on Enter and cancels on Esc.

use liteconfig_tui::app::{App, PresetCatalog};
use liteconfig_tui::app_install::McpSource;
use liteconfig_tui::events::{handle_key, Action, Key, KeyCode, Modifiers};
use liteconfig_tui::model::{AgentInfo, McpPreset, Skill, SkillRepoPreset, SyncMethod};
use liteconfig_tui::tab::Tab;
use liteconfig_tui::views::{GithubBackup, PresetsKind, PresetsPopup, Settings};

fn agents() -> Vec<AgentInfo> {
    let names = [("codex", "Codex", true), ("gemini", "Gemini CLI", true), ("qwen", "Qwen Code", true), ("cursor", "Cursor", false), ("opencode", "OpenCode", false)];
    names
        .iter()
        .map(|(id, name, profiles)| AgentInfo { id: id.to_string(), display_name: name.to_string(), supports_profiles: *profiles })
        .collect()
}

fn default_settings() -> Settings {
    Settings {
        theme: "dark".to_string(),
        github_backup: GithubBackup { enabled: false, repo_url: String::new(), branch: "main".to_string(), auto_sync: false },
        current_profiles: vec![None, None, None, None, None],
    }
}

fn new_app() -> App {
    App::new(agents(), default_settings(), PresetCatalog { skill_repos: Vec::new(), mcp: Vec::new(), plugins: Vec::new() }, Vec::new(), 1_000)
}

fn skill(name: &str) -> Skill {
    Skill {
        id: format!("id-{name}"),
        name: name.to_string(),
        description: None,
        sync_method: SyncMethod::Inherit,
        enabled: vec![false; 5],
        from_github: false,
        content_hash: Some("abc".to_string()),
    }
}

fn preset(id: &str, name: &str, command: &str, args: &[&str], category: &str) -> McpPreset {
    McpPreset {
        id: id.to_string(),
        name: name.to_string(),
        category: category.to_string(),
        command: command.to_string(),
        args: args.iter().map(|a| a.to_string()).collect(),
        homepage: format!("https://example.org/{id}"),
        description: format!("{id} server"),
    }
}

fn catalog() -> PresetCatalog {
    PresetCatalog {
        skill_repos: vec![SkillRepoPreset {
            add_arg: "acme/skills".to_string(),
            branch: "main".to_string(),
            display_name: "Acme skills".to_string(),
            description: "Official skills".to_string(),
        }],
        plugins: Vec::new(),
        mcp: vec![
            preset("fetch", "mcp-server-fetch", "uvx", &["mcp-server-fetch"], "web"),
            preset("github", "@modelcontextprotocol/server-github", "npx", &["-y", "@modelcontextprotocol/server-github"], "dev"),
        ],
    }
}

fn app_with_catalog() -> App {
    App::new(agents(), default_settings(), catalog(), Vec::new(), 1_000)
}

#[test]
fn install_mcp_preset_upserts_row_with_resolved_command() {
    let mut app = app_with_catalog();
    app.active_tab = Tab::Mcp;

    let fetch_idx = app.catalog.mcp.iter().position(|p| p.id == "fetch").unwrap();
    let row = app.install_mcp_preset(fetch_idx).expect("preset exists");
    assert_eq!(row.name, "mcp-server-fetch");
    match &row.source {
        McpSource::Preset { command, args, .. } => {
            assert_eq!(command, "uvx");
            assert_eq!(args[0], "mcp-server-fetch");
        },
        other => panic!("expected a preset source, got {other:?}"),
    }
    // Installed preset must land disabled for every agent.
    assert_eq!(row.enabled.len(), 5);
    for on in &row.enabled {
        assert!(!on, "preset must install disabled");
    }
    assert_eq!(row.created_at, row.updated_at);
    let reloads = app.mcp_server_added(false, Ok(row.name.clone()));
    assert!(reloads.mcp);
    assert_eq!(
        app.toasts.last().unwrap().message,
        "Added MCP preset \"mcp-server-fetch\" (disabled — enable per agent via a)"
    );
}

#[test]
fn popup_enter_commits_and_closes() {
    let mut app = app_with_catalog();
    app.active_tab = Tab::Mcp;

    app.open_new_mcp_menu();
    assert!(matches!(app.presets_popup, Some(PresetsPopup { kind: PresetsKind::Mcp, .. })));

    let out = handle_key(&mut app, Key::new(KeyCode::Enter, Modifiers::Plain));
    assert!(app.presets_popup.is_none(), "Enter should close popup");
    match out.action {
        Action::AddMcp(row) => assert_eq!(row.name, "mcp-server-fetch", "exactly the first preset row"),
        other => panic!("expected a row to add, got {other:?}"),
    }
}

#[test]
fn escape_cancels_preset_popup() {
    let mut app = app_with_catalog();
    app.active_tab = Tab::Mcp;

    app.open_new_mcp_menu();
    let out = handle_key(&mut app, Key::new(KeyCode::Esc, Modifiers::Plain));
    assert!(app.presets_popup.is_none());
    assert!(matches!(out.action, Action::Nothing), "nothing to store");
}

#[test]
fn ids_are_fresh_uuids() {
    let app = app_with_catalog();
    let a = app.install_mcp_preset(0).unwrap();
    let b = app.install_mcp_preset(0).unwrap();
    assert_eq!(a.id.len(), 36);
    assert_eq!(a.id.chars().nth(14), Some('4'));
    assert!(matches!(a.id.chars().nth(19), Some('8' | '9' | 'a' | 'b')));
    for (i, c) in a.id.chars().enumerate() {
        if [8, 13, 18, 23].contains(&i) {
            assert_eq!(c, '-');
        } else {
            assert!(c.is_ascii_digit() || ('a'..='f').contains(&c));
        }
    }
    assert_ne!(a.id, b.id);
    assert!(a.created_at > 1_600_000_000_000, "creation time is the wall clock in ms");
    assert!(app.install_mcp_preset(9).is_none());
}

#[test]
fn skill_repo_preset_registers_then_clones() {
    let mut app = app_with_catalog();
    app.active_tab = Tab::Skills;
    handle_key(&mut app, Key::new(KeyCode::Char('n'), Modifiers::Plain));
    let add = match handle_key(&mut app, Key::new(KeyCode::Enter, Modifiers::Plain)).action {
        Action::AddRepo(add) => add,
        other => panic!("expected a repo, got {other:?}"),
    };
    assert_eq!(add.arg, "acme/skills");
    assert_eq!(add.label, "Acme skills");
    assert!(!add.from_search);
    let mode = app.repo_added(&add, Ok("repo-1".to_string()), true);
    assert!(mode.is_some());
    assert_eq!(app.tasks.entries[0].name, "Clone Acme skills");
    assert_eq!(app.toasts.last().unwrap().message, "Added Acme skills — cloning in background…");
    let r = app.repo_cloned(&add, Ok(3));
    assert!(r.skills);
    assert_eq!(app.toasts.last().unwrap().message, "Added Acme skills — 3 skill(s)");
    assert!(app.repo_added(&add, Err("exists".to_string()), true).is_none());
    assert_eq!(app.toasts.last().unwrap().message, "Add failed: exists");
}

#[test]
fn chooser_cursor_wraps_and_live_search_switches() {
    let mut app = app_with_catalog();
    app.active_tab = Tab::Mcp;
    app.open_new_mcp_menu();
    handle_key(&mut app, Key::new(KeyCode::Up, Modifiers::Plain));
    assert_eq!(app.presets_popup.as_ref().unwrap().cursor, 1);
    handle_key(&mut app, Key::new(KeyCode::Char('f'), Modifiers::Control));
    assert!(app.presets_popup.is_none());
    assert!(app.mcp_search_popup.is_some());
}
