//! Skills tab `/` filter: case-insensitive substring match on name and
//! description; focus and summary reflect the filtered set.

use liteconfig_tui::app::{App, PresetCatalog};
use liteconfig_tui::display::{no_matches_text, skills_summary};
use liteconfig_tui::events::{handle_key, Key, KeyCode, Modifiers};
use liteconfig_tui::model::{AgentInfo, Skill, SyncMethod};
use liteconfig_tui::tab::Tab;
use liteconfig_tui::views::{GithubBackup, Settings};

fn agents() -> Vec<AgentInfo> {
    let names = [("codex", "Codex", true), ("gemini", "Gemini CLI", true), ("qwen", "Qwen Code", true), ("cursor", "Cursor", false), ("opencode", "OpenCode", false)];
    names
        .iter()
        .map(|(id, name, profiles)| AgentInfo { id: id.to_string(), display_name: name.to_string(), supports_profiles: *profiles })
        .collect()
}

fn default_settings() -> Settings {
    Settings {
        theme: "dark".to_string(),
        github_backup: GithubBackup { enabled: false, repo_url: String::new(), branch: "main".to_string(), auto_sync: false },
        current_profiles: vec![None, None, None, None, None],
    }
}

fn new_app() -> App {
    App::new(agents(), default_settings(), PresetCatalog { skill_repos: Vec::new(), mcp: Vec::new(), plugins: Vec::new() }, Vec::new(), 1_000)
}

fn skill(name: &str) -> Skill {
    Skill {
        id: format!("id-{name}"),
        name: name.to_string(),
        description: None,
        sync_method: SyncMethod::Inherit,
        enabled: vec![false; 5],
        from_github: false,
        content_hash: Some("abc".to_string()),
    }
}

fn app_with(names: &[&str]) -> App {
    let mut app = new_app();
    app.reload_skills(names.iter().map(|n| skill(n)).collect());
    app
}

#[test]
fn filter_by_name_narrows_list_and_clears_restores() {
    let mut app = app_with(&["seo-audit", "seo-meta", "infra-cleanup"]);
    assert_eq!(app.skills_view.skills.len(), 3);
    assert_eq!(app.filtered_skill_indices().len(), 3);

    app.skills_filter_open();
    for c in "seo".chars() {
        app.skills_filter_push(c);
    }
    assert_eq!(app.filtered_skill_indices().len(), 2, "two seo-prefixed skills");

    app.skills_filter_clear();
    assert!(app.skills_view.filter.is_empty());
    assert_eq!(app.filtered_skill_indices().len(), 3);
}

#[test]
fn filter_is_case_insensitive() {
    let mut app = app_with(&["Alpha", "beta", "ALPHACENTAURI"]);
    app.skills_filter_open();
    for c in "alpha".chars() {
        app.skills_filter_push(c);
    }
    assert_eq!(app.filtered_skill_indices().len(), 2, "alpha matches Alpha + ALPHACENTAURI regardless of case");
}

#[test]
fn backspace_edits_and_focus_resets() {
    let mut app = app_with(&["one", "two", "three"]);
    app.move_skill_focus(2);
    assert_eq!(app.skills_view.focused_idx, 2);

    app.skills_filter_open();
    for c in "twoo".chars() {
        app.skills_filter_push(c);
    }
    assert_eq!(app.filtered_skill_indices().len(), 0);
    assert_eq!(app.skills_view.focused_idx, 0, "typing into the filter should reset focus to 0 so highlight stays valid");

    app.skills_filter_pop();
    assert_eq!(app.filtered_skill_indices().len(), 1, "after backspacing the stray 'o', 'two' matches again");
}

#[test]
fn close_keeps_filter_until_cleared() {
    let mut app = app_with(&["foo", "bar"]);
    app.skills_filter_open();
    app.skills_filter_push('f');
    app.skills_filter_close_keep();
    assert!(!app.skills_view.filter_editing, "Enter stops editing the filter");
    assert_eq!(app.skills_view.filter, "f", "Enter preserves the filter substring");
    assert_eq!(app.filtered_skill_indices().len(), 1);
}

#[test]
fn filter_matches_description_and_keeps_order() {
    let mut app = new_app();
    let mut a = skill("lint");
    a.description = Some("Runs the Linter".to_string());
    let mut b = skill("fmt");
    b.description = Some("formatting".to_string());
    let c = skill("linter-extra");
    app.reload_skills(vec![a, b, c]);
    app.skills_filter_open();
    for ch in "LINTER".chars() {
        app.skills_filter_push(ch);
    }
    assert_eq!(app.filtered_skill_indices(), vec![0, 2]);
    assert_eq!(app.focused_skill().unwrap().name, "lint");
    app.move_skill_focus(1);
    assert_eq!(app.focused_skill().unwrap().name, "linter-extra");
    app.move_skill_focus(1);
    assert_eq!(app.focused_skill().unwrap().name, "lint", "focus wraps over the shown rows");
}

#[test]
fn filter_keys_on_the_skills_tab() {
    let mut app = app_with(&["seo-audit", "infra"]);
    app.active_tab = Tab::Skills;
    let k = |c: KeyCode| Key::new(c, Modifiers::Plain);
    handle_key(&mut app, k(KeyCode::Char('/')));
    assert!(app.skills_view.filter_editing);
    handle_key(&mut app, k(KeyCode::Char('s')));
    handle_key(&mut app, Key::new(KeyCode::Char('E'), Modifiers::Shift));
    assert_eq!(app.skills_view.filter, "sE");
    assert_eq!(app.filtered_skill_indices().len(), 1);
    handle_key(&mut app, k(KeyCode::Enter));
    assert!(!app.skills_view.filter_editing);
    handle_key(&mut app, k(KeyCode::Esc));
    assert!(app.skills_view.filter.is_empty());
    assert_eq!(app.filtered_skill_indices().len(), 2);
}

#[test]
fn skills_footer_and_placeholder() {
    assert_eq!(no_matches_text("zz"), "(no matches for \"zz\" — Esc to clear)");
    assert_eq!(skills_summary(1, 2, 3, "copy"), "  Selected: 1 · Showing 2 of 3    Method (focused): copy");
}

#[test]
fn blank_filter_shows_every_row() {
    let mut app = app_with(&["one", "two", "three"]);
    app.skills_filter_open();
    for c in " \t\u{3000}\u{a0}".chars() {
        app.skills_filter_push(c);
    }
    assert_eq!(app.filtered_skill_indices(), vec![0, 1, 2]);
    app.skills_filter_push('t');
    assert_eq!(app.filtered_skill_indices(), vec![1, 2]);
}

#[test]
fn g_and_shift_g_jump_to_the_ends_of_the_list() {
    let mut app = app_with(&["one", "two", "three"]);
    app.active_tab = Tab::Skills;
    handle_key(&mut app, Key::new(KeyCode::Char('G'), Modifiers::Shift));
    assert_eq!(app.skills_view.focused_idx, 2);
    handle_key(&mut app, Key::new(KeyCode::Char('g'), Modifiers::Plain));
    assert_eq!(app.skills_view.focused_idx, 0);
    app.skills_filter_open();
    app.skills_filter_push('t');
    app.skills_filter_close_keep();
    handle_key(&mut app, Key::new(KeyCode::Char('G'), Modifiers::Plain));
    assert_eq!(app.skills_view.focused_idx, 1, "the last of the two shown rows");
}
