//! A marketplace entry installs like any curated preset.

use liteconfig_tui::app::{App, PresetCatalog};
use liteconfig_tui::app_install::McpSource;
use liteconfig_tui::model::{AgentInfo, McpPreset, Skill, SkillRepoPreset, SyncMethod};
use liteconfig_tui::tab::Tab;
use liteconfig_tui::views::{GithubBackup, Settings};

fn agents() -> Vec<AgentInfo> {
    let names = [("codex", "Codex", true), ("gemini", "Gemini CLI", true), ("qwen", "Qwen Code", true), ("cursor", "Cursor", false), ("opencode", "OpenCode", false)];
    names
        .iter()
        .map(|(id, name, profiles)| AgentInfo { id: id.to_string(), display_name: name.to_string(), supports_profiles: *profiles })
        .collect()
}

fn default_settings() -> Settings {
    Settings {
        theme: "dark".to_string(),
        github_backup: GithubBackup { enabled: false, repo_url: String::new(), branch: "main".to_string(), auto_sync: false },
        current_profiles: vec![None, None, None, None, None],
    }
}

fn new_app() -> App {
    App::new(agents(), default_settings(), PresetCatalog { skill_repos: Vec::new(), mcp: Vec::new(), plugins: Vec::new() }, Vec::new(), 1_000)
}

fn skill(name: &str) -> Skill {
    Skill {
        id: format!("id-{name}"),
        name: name.to_string(),
        description: None,
        sync_method: SyncMethod::Inherit,
        enabled: vec![false; 5],
        from_github: false,
        content_hash: Some("abc".to_string()),
    }
}

fn preset(id: &str, name: &str, command: &str, args: &[&str], category: &str) -> McpPreset {
    McpPreset {
        id: id.to_string(),
        name: name.to_string(),
        category: category.to_string(),
        command: command.to_string(),
        args: args.iter().map(|a| a.to_string()).collect(),
        homepage: format!("https://example.org/{id}"),
        description: format!("{id} server"),
    }
}

fn catalog() -> PresetCatalog {
    PresetCatalog {
        skill_repos: vec![SkillRepoPreset {
            add_arg: "acme/skills".to_string(),
            branch: "main".to_string(),
            display_name: "Acme skills".to_string(),
            description: "Official skills".to_string(),
        }],
        plugins: Vec::new(),
        mcp: vec![
            preset("fetch", "mcp-server-fetch", "uvx", &["mcp-server-fetch"], "web"),
            preset("github", "@modelcontextprotocol/server-github", "npx", &["-y", "@modelcontextprotocol/server-github"], "dev"),
        ],
    }
}

fn app_with_catalog() -> App {
    App::new(agents(), default_settings(), catalog(), Vec::new(), 1_000)
}

#[test]
fn install_github_preset_lands_row_with_correct_command() {
    let mut app = app_with_catalog();
    app.active_tab = Tab::Mcp;
    let idx = app.catalog.mcp.iter().position(|p| p.id == "github").expect("github preset exists");
    let row = app.install_mcp_preset(idx).expect("row");
    assert_eq!(row.name, "@modelcontextprotocol/server-github");
    let command = match &row.source {
        McpSource::Preset { command, .. } => command.clone(),
        McpSource::Hit { .. } => String::new(),
    };
    assert!(command == "npx" || command == "cmd", "unexpected resolved command: {command}");
}
