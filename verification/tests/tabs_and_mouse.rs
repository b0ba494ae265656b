//! The tab strip and clicks: label rectangles, hit testing, toolbar
//! buttons.

use liteconfig_tui::app::{App, PresetCatalog};
use liteconfig_tui::events::{button_bar_hits, handle_mouse, toolbar, Action, ButtonAction, ButtonHit, Mouse};
use liteconfig_tui::model::{AgentInfo, Rule, Skill, SyncMethod};
use liteconfig_tui::tab::{tab_bar_hits, Rect, Tab, TabHit};
use liteconfig_tui::text::wrap_step;
use liteconfig_tui::views::{GithubBackup, Settings};

fn agents() -> Vec<AgentInfo> {
    let names = [("codex", "Codex", true), ("gemini", "Gemini CLI", true), ("qwen", "Qwen Code", true), ("cursor", "Cursor", false), ("opencode", "OpenCode", false)];
    names
        .iter()
        .map(|(id, name, profiles)| AgentInfo { id: id.to_string(), display_name: name.to_string(), supports_profiles: *profiles })
        .collect()
}

fn default_settings() -> Settings {
    Settings {
        theme: "dark".to_string(),
        github_backup: GithubBackup { enabled: false, repo_url: String::new(), branch: "main".to_string(), auto_sync: false },
        current_profiles: vec![None, None, None, None, None],
    }
}

fn new_app() -> App {
    App::new(agents(), default_settings(), PresetCatalog { skill_repos: Vec::new(), mcp: Vec::new(), plugins: Vec::new() }, Vec::new(), 1_000)
}

fn skill(name: &str) -> Skill {
    Skill {
        id: format!("id-{name}"),
        name: name.to_string(),
        description: None,
        sync_method: SyncMethod::Inherit,
        enabled: vec![false; 5],
        from_github: false,
        content_hash: Some("abc".to_string()),
    }
}

#[test]
fn tab_titles_and_positions() {
    let all = Tab::all();
    assert_eq!(all.len(), 7);
    for (i, t) in all.iter().enumerate() {
        assert_eq!(t.index(), i);
        assert_eq!(Tab::from_index(i), Some(*t));
    }
    assert_eq!(Tab::from_index(7), None);
    assert_eq!(Tab::Mcp.title(), "MCP");
    assert_eq!(Tab::Sessions.index(), 0);
}

#[test]
fn tab_label_rectangles() {
    let hits = tab_bar_hits(Rect { x: 0, y: 0, width: 200, height: 3 });
    assert_eq!(hits.len(), 7);
    // " 1 Profiles " is 12 cells; labels are 3 cells apart.
    assert_eq!((hits[0].x, hits[0].y, hits[0].w, hits[0].h), (1, 1, 12, 1));
    assert_eq!((hits[1].x, hits[1].w), (16, 10));
    assert_eq!(hits[6].tab, Tab::Settings);

    let narrow = tab_bar_hits(Rect { x: 0, y: 0, width: 20, height: 3 });
    assert_eq!(narrow.len(), 2);
    assert_eq!((narrow[1].x, narrow[1].w), (16, 3), "the last label is clipped at the border");
}

#[test]
fn clicking_a_tab_label_switches() {
    let mut app = new_app();
    let hits = tab_bar_hits(Rect { x: 0, y: 0, width: 200, height: 3 });
    let out = handle_mouse(&mut app, Mouse { left_down: true, column: 17, row: 1 }, &hits, &Vec::new());
    assert!(out.consumed);
    assert_eq!(app.active_tab, Tab::Skills);
    let out = handle_mouse(&mut app, Mouse { left_down: true, column: 14, row: 1 }, &hits, &Vec::new());
    assert!(!out.consumed, "the gap between labels is not a tab");
    let out = handle_mouse(&mut app, Mouse { left_down: false, column: 2, row: 1 }, &hits, &Vec::new());
    assert!(!out.consumed);
    assert_eq!(app.active_tab, Tab::Skills);
}

#[test]
fn toolbar_buttons_and_clicks() {
    let mut app = new_app();
    app.active_tab = Tab::Rules;
    app.reload_rules(vec![Rule { id: "r1".to_string(), name: "r".to_string(), body: String::new(), enabled: Vec::new() }]);
    let buttons = button_bar_hits(Rect { x: 2, y: 5, width: 100, height: 1 }, &toolbar(Tab::Rules));
    assert_eq!(buttons.len(), 3);
    assert_eq!((buttons[0].x, buttons[0].w), (2, 14));
    assert_eq!((buttons[1].x, buttons[1].w), (18, 17));
    assert_eq!(buttons[2].action, ButtonAction::RulesDelete);
    let none: Vec<TabHit> = Vec::new();
    let out = handle_mouse(&mut app, Mouse { left_down: true, column: 20, row: 5 }, &none, &buttons);
    assert!(out.consumed);
    assert!(matches!(out.action, Action::ImportRules));
    let out = handle_mouse(&mut app, Mouse { left_down: true, column: 40, row: 5 }, &none, &buttons);
    match out.action {
        Action::DeleteRule(id, _) => assert_eq!(id, "r1"),
        other => panic!("expected a delete, got {other:?}"),
    }
    assert!(toolbar(Tab::Skills).is_empty());
    let narrow = button_bar_hits(Rect { x: 0, y: 0, width: 12, height: 1 }, &toolbar(Tab::Plugins));
    assert_eq!(narrow.len(), 1);
    assert_eq!(narrow[0].w, 11);
    let h = ButtonHit { action: ButtonAction::PluginsNew, x: 3, y: 1, w: 2, h: 1 };
    assert!(h.contains(4, 1) && !h.contains(5, 1));
    let t = TabHit { tab: Tab::Rules, x: 3, y: 1, w: 2, h: 1 };
    assert!(t.contains(3, 1) && !t.contains(3, 2));
}

#[test]
fn cursor_moves_wrap_and_undo() {
    assert_eq!(wrap_step(2, 5, 4), 3);
    assert_eq!(wrap_step(3, -5, 4), 2);
    assert_eq!(wrap_step(0, -1, 3), 2);
    assert_eq!(wrap_step(2, 1, 3), 0);
}
