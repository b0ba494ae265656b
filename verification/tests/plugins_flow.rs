//! Plugins tab: the view lists installed bundles, `n` offers the curated
//! ones, and `d d` uninstalls the focused bundle.

use liteconfig_tui::app::{App, PresetCatalog};
use liteconfig_tui::display::plugins_summary;
use liteconfig_tui::events::{handle_key, Action, Key, KeyCode, Modifiers};
use liteconfig_tui::model::{AgentInfo, Plugin, Skill, SyncMethod};
use liteconfig_tui::tab::Tab;
use liteconfig_tui::views::{GithubBackup, PluginPreset, PresetsKind, Settings};

fn agents() -> Vec<AgentInfo> {
    let names = [("codex", "Codex", true), ("gemini", "Gemini CLI", true), ("qwen", "Qwen Code", true), ("cursor", "Cursor", false), ("opencode", "OpenCode", false)];
    names
        .iter()
        .map(|(id, name, profiles)| AgentInfo { id: id.to_string(), display_name: name.to_string(), supports_profiles: *profiles })
        .collect()
}

fn default_settings() -> Settings {
    Settings {
        theme: "dark".to_string(),
        github_backup: GithubBackup { enabled: false, repo_url: String::new(), branch: "main".to_string(), auto_sync: false },
        current_profiles: vec![None, None, None, None, None],
    }
}

fn new_app() -> App {
    App::new(agents(), default_settings(), PresetCatalog { skill_repos: Vec::new(), mcp: Vec::new(), plugins: Vec::new() }, Vec::new(), 1_000)
}

fn skill(name: &str) -> Skill {
    Skill {
        id: format!("id-{name}"),
        name: name.to_string(),
        description: None,
        sync_method: SyncMethod::Inherit,
        enabled: vec![false; 5],
        from_github: false,
        content_hash: Some("abc".to_string()),
    }
}

fn demo_bundle() -> Plugin {
    Plugin { id: "p-1".to_string(), name: "demo-bundle".to_string(), skills: 2, mcp_servers: 1, commands: 1, agents: 1 }
}

#[test]
fn plugins_view_populates_after_install() {
    let mut app = new_app();
    app.active_tab = Tab::Plugins;
    app.reload_plugins(vec![demo_bundle()]);
    assert_eq!(app.plugins_view.plugins.len(), 1);
    assert_eq!(app.plugins_view.plugins[0].skills, 2);
}

#[test]
fn two_phase_delete_uninstalls_plugin() {
    let mut app = new_app();
    app.active_tab = Tab::Plugins;
    app.reload_plugins(vec![demo_bundle()]);
    assert_eq!(app.plugins_view.plugins.len(), 1);

    // First press arms.
    assert!(app.delete_focused_plugin().is_none());
    assert_eq!(app.plugins_view.plugins.len(), 1);
    assert!(app.plugins_view.delete_armed_at_ms.is_some());

    // Second press commits.
    let removal = app.delete_focused_plugin().expect("second press deletes");
    assert_eq!(removal.id, "p-1");
    let reloads = app.plugin_uninstalled(&removal, Ok(()));
    assert!(reloads.plugins);
    app.reload_plugins(Vec::new());
    assert_eq!(app.plugins_view.plugins.len(), 0);
}

fn curated() -> Vec<PluginPreset> {
    [("acme", "starter-pack", "Starter bundle"), ("octo", "workflow-templates", "Workflow templates"), ("octo", "power-pack", "Commands + subagents")]
        .iter()
        .map(|(o, n, d)| PluginPreset { owner: o.to_string(), name: n.to_string(), branch: "main".to_string(), description: d.to_string() })
        .collect()
}

#[test]
fn install_from_the_curated_list() {
    let mut app = new_app();
    app.catalog.plugins = curated();
    app.active_tab = Tab::Plugins;
    let k = |c: KeyCode| Key::new(c, Modifiers::Plain);
    handle_key(&mut app, k(KeyCode::Char('n')));
    let popup = app.presets_popup.as_ref().expect("chooser open");
    assert_eq!(popup.kind, PresetsKind::Plugin);
    assert_eq!(popup.len(), 3);
    handle_key(&mut app, k(KeyCode::Down));
    match handle_key(&mut app, k(KeyCode::Enter)).action {
        Action::InstallPlugin(p) => {
            assert_eq!(p.url, "https://github.com/octo/workflow-templates.git");
            assert_eq!(p.branch, "main");
            assert_eq!(p.name_hint, "octo/workflow-templates");
        },
        other => panic!("expected an install, got {other:?}"),
    }
    assert!(app.presets_popup.is_none());
    let r = app.plugin_installed(Ok(demo_bundle()));
    assert!(r.plugins && r.skills);
    assert_eq!(app.toasts.last().unwrap().message, "Installed demo-bundle — 2 skill(s), 1 cmd(s), 1 agent(s)");
    assert!(app.install_plugin_preset(3).is_none());
}

#[test]
fn other_plugin_keys_clear_the_arm() {
    let mut app = new_app();
    app.active_tab = Tab::Plugins;
    app.reload_plugins(vec![demo_bundle(), demo_bundle()]);
    let k = |c: char| Key::new(KeyCode::Char(c), Modifiers::Plain);
    handle_key(&mut app, k('d'));
    assert!(app.plugins_view.delete_armed_at_ms.is_some());
    handle_key(&mut app, k('j'));
    assert!(app.plugins_view.delete_armed_at_ms.is_none());
    assert_eq!(app.plugins_view.focused_idx, 1);
}

#[test]
fn plugins_footer_counts_resources() {
    assert_eq!(plugins_summary(&vec![demo_bundle(), demo_bundle()]), "  2 plugin(s), 10 bundled resource(s)");
    assert_eq!(plugins_summary(&Vec::new()), "  0 plugin(s), 0 bundled resource(s)");
}
