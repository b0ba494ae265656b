//! Screen texts and geometry, key labels, and the theme list.

use liteconfig_tui::app::{App, PresetCatalog};
use liteconfig_tui::display::{
    centered_rect, confirm_pnpm_text, hints, install_popup_title, key_label, list_cursor, mcp_hit_columns, mcp_search_status,
    mod_key_label, query_display, stream_status_line, task_duration_ms, yes_no, KeyAction, RunStatus,
};
use liteconfig_tui::model::{AgentInfo, McpHit, Skill, SyncMethod};
use liteconfig_tui::tab::{Rect, Tab};
use liteconfig_tui::text::truncate;
use liteconfig_tui::themes::{all_builtin_names, build_theme_list, dark_fallback, is_theme_file, palette_for, sort_by_slug, Rgb};
use liteconfig_tui::views::{GithubBackup, InstallLogMode, SearchStatus, Settings};

fn agents() -> Vec<AgentInfo> {
    let names = [("codex", "Codex", true), ("gemini", "Gemini CLI", true), ("qwen", "Qwen Code", true), ("cursor", "Cursor", false), ("opencode", "OpenCode", false)];
    names
        .iter()
        .map(|(id, name, profiles)| AgentInfo { id: id.to_string(), display_name: name.to_string(), supports_profiles: *profiles })
        .collect()
}

fn default_settings() -> Settings {
    Settings {
        theme: "dark".to_string(),
        github_backup: GithubBackup { enabled: false, repo_url: String::new(), branch: "main".to_string(), auto_sync: false },
        current_profiles: vec![None, None, None, None, None],
    }
}

fn new_app() -> App {
    App::new(agents(), default_settings(), PresetCatalog { skill_repos: Vec::new(), mcp: Vec::new(), plugins: Vec::new() }, Vec::new(), 1_000)
}

fn skill(name: &str) -> Skill {
    Skill {
        id: format!("id-{name}"),
        name: name.to_string(),
        description: None,
        sync_method: SyncMethod::Inherit,
        enabled: vec![false; 5],
        from_github: false,
        content_hash: Some("abc".to_string()),
    }
}

#[test]
fn key_labels_by_platform() {
    assert_eq!(mod_key_label(true), "⌘");
    assert_eq!(mod_key_label(false), "Ctrl+");
    assert_eq!(key_label(KeyAction::CommandPalette, false), "Ctrl+K");
    assert_eq!(key_label(KeyAction::SelectAll, true), "⌘A");
    assert_eq!(key_label(KeyAction::Duplicate, false), "Ctrl+D");
    assert_eq!(key_label(KeyAction::Help, true), "F1");
    assert_eq!(key_label(KeyAction::Quit, true), "q");
    assert_eq!(yes_no(true), "yes");
    assert_eq!(yes_no(false), "no");
}

#[test]
fn hint_bar_per_tab() {
    let mut app = new_app();
    let h = hints(&app);
    assert_eq!(h.len(), 7);
    assert_eq!(h[2], ("Enter/s".to_string(), "switch".to_string()));
    assert_eq!(h[6], ("q".to_string(), "quit".to_string()));
    app.active_tab = Tab::Backup;
    let h = hints(&app);
    assert_eq!(h.last().unwrap(), &("d".to_string(), "delete (×2)".to_string()));
    app.active_tab = Tab::Sessions;
    assert_eq!(hints(&app)[0], ("Tab".to_string(), "next tab".to_string()));
    app.reload_skills(vec![skill("s")]);
    app.open_agent_popup_for_focused();
    let h = hints(&app);
    assert_eq!(h.len(), 5);
    assert_eq!(h[2], ("A/N".to_string(), "all/none".to_string()));
}

#[test]
fn popup_geometry() {
    let area = Rect { x: 0, y: 0, width: 100, height: 40 };
    assert_eq!(centered_rect(80, 70, 60, 10, area), Rect { x: 10, y: 6, width: 80, height: 28 });
    let small = Rect { x: 5, y: 2, width: 50, height: 8 };
    assert_eq!(centered_rect(80, 80, 60, 12, small), Rect { x: 10, y: 3, width: 50, height: 8 });
    assert_eq!(list_cursor(7, 3), 2);
    assert_eq!(list_cursor(1, 3), 1);
    assert_eq!(list_cursor(4, 0), 0);
}

#[test]
fn truncation() {
    assert_eq!(truncate("short", 10), "short");
    assert_eq!(truncate("exactly-ten", 11), "exactly-ten");
    assert_eq!(truncate("a-much-longer-name", 6), "a-muc…");
    assert_eq!(truncate("héllo wörld", 5), "héll…");
    assert_eq!(truncate("abc", 0), "…");
}

#[test]
fn installer_and_search_texts() {
    assert_eq!(install_popup_title(&InstallLogMode::ConfirmPnpm { owner_repo: "a/b".to_string() }), " Install pnpm? ");
    assert_eq!(install_popup_title(&InstallLogMode::Streaming { title: "install pnpm".to_string() }), " Installing — install pnpm ");
    assert_eq!(confirm_pnpm_text("a/b"), "To install a/b via the official skills CLI we need pnpm.");
    assert_eq!(stream_status_line(&RunStatus::Running, 1), " ⠙ running…");
    assert_eq!(stream_status_line(&RunStatus::Succeeded, 0), " ✓ installed — press Enter to close");
    assert_eq!(stream_status_line(&RunStatus::Failed("exit 1".to_string()), 0), " ✗ exit 1 — press Enter to close");
    assert_eq!(mcp_search_status(&SearchStatus::Idle, 0, 0), " Press Enter to search registry.smithery.ai");
    assert_eq!(mcp_search_status(&SearchStatus::Loading, 0, 2), " ⠹ searching Smithery…");
    assert_eq!(mcp_search_status(&SearchStatus::Error("timeout".to_string()), 0, 0), " ✗ timeout");
    assert_eq!(mcp_search_status(&SearchStatus::Loaded, 4, 0), " 4 result(s) — Tab to move to list, Enter to install");
    let hit = McpHit { qualified_name: "@x/y".to_string(), display_name: "Y".to_string(), remote: false, use_count: 12 };
    assert_eq!(mcp_hit_columns(&hit), ("[local ]", "· 12 uses".to_string()));
    assert_eq!(query_display(""), ("type a query…".to_string(), true));
    assert_eq!(query_display("git"), ("git".to_string(), false));
    assert_eq!(task_duration_ms(100, Some(350), 999), 250);
    assert_eq!(task_duration_ms(100, None, 160), 60);
    assert_eq!(task_duration_ms(100, None, 50), 0);
}

#[test]
fn theme_list_appends_new_user_themes() {
    let builtin = all_builtin_names();
    assert_eq!(builtin.len(), 17);
    assert_eq!(builtin[0], "dark");
    assert_eq!(builtin[16], "abyss");
    let user = vec!["nord".to_string(), "mine".to_string(), "zzz".to_string(), "mine".to_string()];
    let list = build_theme_list(&user);
    assert_eq!(list.len(), 19);
    assert_eq!(list[3], "nord", "a user theme with a built-in slug keeps its slot");
    assert_eq!(&list[17..], &["mine".to_string(), "zzz".to_string()]);
}

#[test]
fn cycling_themes() {
    let mut app = new_app();
    assert_eq!(app.cycle_theme(), None);
    app.available_themes = build_theme_list(&Vec::new());
    assert_eq!(app.cycle_theme(), Some("light".to_string()));
    assert_eq!(app.settings.theme, "light");
    app.settings.theme = "abyss".to_string();
    assert_eq!(app.cycle_theme(), Some("dark".to_string()), "the list wraps around");
    app.settings.theme = "gone".to_string();
    assert_eq!(app.cycle_theme(), Some("light".to_string()), "an unknown theme counts as the first");
    app.theme_saved(&"light".to_string(), Ok(()));
    assert_eq!(app.toasts.last().unwrap().message, "Theme: light");
}

#[test]
fn fallback_palette() {
    let p = dark_fallback();
    assert_eq!(p.surface, Rgb { r: 18, g: 18, b: 24 });
    assert_eq!(p.primary, Rgb { r: 135, g: 180, b: 255 });
    assert_eq!(p.selection_fg, Rgb { r: 255, g: 255, b: 255 });
}

#[test]
fn theme_lookup_falls_back_to_dark() {
    let mut nord = dark_fallback();
    nord.surface = Rgb { r: 46, g: 52, b: 64 };
    let mut dark = dark_fallback();
    dark.surface = Rgb { r: 1, g: 2, b: 3 };
    let known = vec![("nord".to_string(), nord), ("dark".to_string(), dark)];
    assert_eq!(palette_for(&known, "nord").surface, Rgb { r: 46, g: 52, b: 64 });
    assert_eq!(palette_for(&known, "missing").surface, Rgb { r: 1, g: 2, b: 3 });
    assert_eq!(palette_for(&Vec::new(), "nord"), dark_fallback());
}

#[test]
fn theme_files_are_json_in_any_case_sorted_by_name() {
    assert!(is_theme_file("json"));
    assert!(is_theme_file("JSON"));
    assert!(is_theme_file("Json"));
    assert!(!is_theme_file("jsonc"));
    assert!(!is_theme_file("toml"));
    let p = dark_fallback();
    let sorted = sort_by_slug(vec![("nord".to_string(), p), ("abyss".to_string(), p), ("dracula".to_string(), p)]);
    let names: Vec<&str> = sorted.iter().map(|(s, _)| s.as_str()).collect();
    assert_eq!(names, vec!["abyss", "dracula", "nord"]);
}
