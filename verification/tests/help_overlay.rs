//! Help overlay: `?` opens a per-tab overlay. Any keypress while it's
//! open closes it, and that key does nothing else.

use liteconfig_tui::app::{App, PresetCatalog};
use liteconfig_tui::events::{handle_key, key_command, Command, Key, KeyCode, Modifiers};
use liteconfig_tui::help::{help_text, HelpEntry};
use liteconfig_tui::model::{AgentInfo, Skill, SyncMethod};
use liteconfig_tui::tab::Tab;
use liteconfig_tui::views::{GithubBackup, Settings};

fn agents() -> Vec<AgentInfo> {
    let names = [("codex", "Codex", true), ("gemini", "Gemini CLI", true), ("qwen", "Qwen Code", true), ("cursor", "Cursor", false), ("opencode", "OpenCode", false)];
    names
        .iter()
        .map(|(id, name, profiles)| AgentInfo { id: id.to_string(), display_name: name.to_string(), supports_profiles: *profiles })
        .collect()
}

fn default_settings() -> Settings {
    Settings {
        theme: "dark".to_string(),
        github_backup: GithubBackup { enabled: false, repo_url: String::new(), branch: "main".to_string(), auto_sync: false },
        current_profiles: vec![None, None, None, None, None],
    }
}

fn new_app() -> App {
    App::new(agents(), default_settings(), PresetCatalog { skill_repos: Vec::new(), mcp: Vec::new(), plugins: Vec::new() }, Vec::new(), 1_000)
}

fn skill(name: &str) -> Skill {
    Skill {
        id: format!("id-{name}"),
        name: name.to_string(),
        description: None,
        sync_method: SyncMethod::Inherit,
        enabled: vec![false; 5],
        from_github: false,
        content_hash: Some("abc".to_string()),
    }
}

fn key(code: KeyCode, mods: Modifiers) -> Key {
    Key::new(code, mods)
}

#[test]
fn question_mark_toggles_help_from_any_tab() {
    let mut app = new_app();
    for tab in Tab::all() {
        app.set_active_tab(tab);
        assert!(!app.show_help, "help should start closed on {:?}", tab);
        handle_key(&mut app, key(KeyCode::Char('?'), Modifiers::Plain));
        assert!(app.show_help, "? should open help on {:?}", tab);
        handle_key(&mut app, key(KeyCode::Char('x'), Modifiers::Plain));
        assert!(!app.show_help, "any key should close help on {:?}", tab);
    }
}

#[test]
fn help_swallows_the_closing_key_and_does_not_advance_tab() {
    let mut app = new_app();
    app.set_active_tab(Tab::Skills);
    handle_key(&mut app, key(KeyCode::Char('?'), Modifiers::Plain));
    assert!(app.show_help);
    assert_eq!(app.active_tab, Tab::Skills);

    handle_key(&mut app, key(KeyCode::Tab, Modifiers::Plain));
    assert!(!app.show_help);
    assert_eq!(app.active_tab, Tab::Skills, "closing key must not also switch tabs");
}

#[test]
fn shifted_question_mark_also_opens_help() {
    let mut app = new_app();
    let out = handle_key(&mut app, key(KeyCode::Char('?'), Modifiers::Shift));
    assert!(out.consumed);
    assert_eq!(out.command, Command::OpenHelp);
    assert!(app.show_help);
}

#[test]
fn releases_are_ignored() {
    let mut app = new_app();
    let release = Key { code: KeyCode::Char('q'), mods: Modifiers::Plain, press: false };
    assert_eq!(key_command(&app, release), Command::Unbound);
    let out = handle_key(&mut app, release);
    assert!(!out.consumed);
    assert!(!app.should_quit);
}

#[test]
fn global_keys() {
    let mut app = new_app();
    handle_key(&mut app, key(KeyCode::Tab, Modifiers::Plain));
    assert_eq!(app.active_tab, Tab::Skills);
    handle_key(&mut app, key(KeyCode::BackTab, Modifiers::Shift));
    assert_eq!(app.active_tab, Tab::Profiles);
    handle_key(&mut app, key(KeyCode::Left, Modifiers::Control));
    assert_eq!(app.active_tab, Tab::Settings, "previous tab wraps around");
    handle_key(&mut app, key(KeyCode::Char('6'), Modifiers::Plain));
    assert_eq!(app.active_tab, Tab::Backup);
    let out = handle_key(&mut app, key(KeyCode::Char('9'), Modifiers::Plain));
    assert!(!out.consumed, "there is no ninth tab");
    assert_eq!(app.active_tab, Tab::Backup);
    handle_key(&mut app, key(KeyCode::Char('L'), Modifiers::Shift));
    assert!(app.show_activity);
    handle_key(&mut app, key(KeyCode::Esc, Modifiers::Plain));
    assert!(!app.show_activity);
    handle_key(&mut app, key(KeyCode::Char('c'), Modifiers::Control));
    assert!(app.should_quit);
}

#[test]
fn help_lines_per_tab() {
    for tab in [Tab::Profiles, Tab::Skills, Tab::Mcp, Tab::Rules, Tab::Plugins, Tab::Backup, Tab::Sessions, Tab::Settings] {
        let lines = help_text(tab);
        match lines[0] {
            HelpEntry::Section(s) => {
                let want = if tab == Tab::Mcp { "MCP servers" } else { tab.title() };
                assert_eq!(s, want);
            },
            other => panic!("help of {tab:?} should start with a section, got {other:?}"),
        }
        assert!(lines.iter().any(|l| matches!(l, HelpEntry::Section("Global"))));
    }
    let backup = help_text(Tab::Backup);
    assert!(backup.iter().any(|l| matches!(l, HelpEntry::Key { key: "d d", .. })));
    assert_eq!(help_text(Tab::Skills).len(), 28);
}
