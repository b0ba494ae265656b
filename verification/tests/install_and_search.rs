//! The live search popups and the pnpx installer popup.

use liteconfig_tui::app::{App, PresetCatalog};
use liteconfig_tui::app_actions::RunMode;
use liteconfig_tui::app_install::{clone_task_message, CloseStep, InstallMethod, McpSearchStep, McpSource, SearchStep};
use liteconfig_tui::events::{handle_key, Action, Key, KeyCode, Modifiers};
use liteconfig_tui::model::{AgentInfo, McpHit, Skill, SkillHit, SyncMethod};
use liteconfig_tui::tab::Tab;
use liteconfig_tui::views::{GithubBackup, InstallLogMode, SearchFocus, SearchStatus, Settings};

fn agents() -> Vec<AgentInfo> {
    let names = [("codex", "Codex", true), ("gemini", "Gemini CLI", true), ("qwen", "Qwen Code", true), ("cursor", "Cursor", false), ("opencode", "OpenCode", false)];
    names
        .iter()
        .map(|(id, name, profiles)| AgentInfo { id: id.to_string(), display_name: name.to_string(), supports_profiles: *profiles })
        .collect()
}

fn default_settings() -> Settings {
    Settings {
        theme: "dark".to_string(),
        github_backup: GithubBackup { enabled: false, repo_url: String::new(), branch: "main".to_string(), auto_sync: false },
        current_profiles: vec![None, None, None, None, None],
    }
}

fn new_app() -> App {
    App::new(agents(), default_settings(), PresetCatalog { skill_repos: Vec::new(), mcp: Vec::new(), plugins: Vec::new() }, Vec::new(), 1_000)
}

fn skill(name: &str) -> Skill {
    Skill {
        id: format!("id-{name}"),
        name: name.to_string(),
        description: None,
        sync_method: SyncMethod::Inherit,
        enabled: vec![false; 5],
        from_github: false,
        content_hash: Some("abc".to_string()),
    }
}

fn hit(name: &str) -> SkillHit {
    SkillHit { name: name.to_string(), add_arg: format!("owner/{name}"), repo_branch: "main".to_string() }
}

#[test]
fn blank_query_is_refused() {
    let mut app = new_app();
    app.open_search_skills();
    app.search_popup_push(' ');
    assert!(matches!(app.search_popup_enter(), SearchStep::Nothing));
    let p = app.search_popup.as_ref().unwrap();
    assert!(matches!(p.status, SearchStatus::Error(ref m) if m == "type a query first"));
}

#[test]
fn query_is_trimmed_and_results_are_shown() {
    let mut app = new_app();
    app.open_search_skills();
    for c in "  seo  ".chars() {
        app.search_popup_push(c);
    }
    match app.search_popup_enter() {
        SearchStep::Query(q) => assert_eq!(q, "seo"),
        other => panic!("expected a query, got {other:?}"),
    }
    assert!(matches!(app.search_popup.as_ref().unwrap().status, SearchStatus::Loading));

    app.drain_search_inbox(Some(Ok(vec![hit("seo-audit"), hit("seo-meta")])));
    let p = app.search_popup.as_ref().unwrap();
    assert_eq!(p.results.len(), 2);
    assert_eq!(p.focus, SearchFocus::Results);
    app.search_popup_move(-1);
    assert_eq!(app.search_popup.as_ref().unwrap().cursor, 1);
    match app.search_popup_enter() {
        SearchStep::Install(add) => {
            assert_eq!(add.arg, "owner/seo-meta");
            assert_eq!(add.label, "seo-meta");
            assert!(add.from_search);
        },
        other => panic!("expected an install, got {other:?}"),
    }
    assert!(app.search_popup.is_none(), "installing closes the popup");
}

#[test]
fn search_errors_and_focus() {
    let mut app = new_app();
    app.open_search_skills();
    app.search_popup_toggle_focus();
    assert_eq!(app.search_popup.as_ref().unwrap().focus, SearchFocus::Results);
    assert!(matches!(app.search_popup_enter(), SearchStep::Nothing), "no results to install");
    app.search_popup_push('x');
    assert_eq!(app.search_popup.as_ref().unwrap().focus, SearchFocus::Query, "typing focuses the query");
    app.search_popup_pop();
    app.search_popup_pop();
    assert!(app.search_popup.as_ref().unwrap().query.is_empty());
    app.drain_search_inbox(Some(Err("offline".to_string())));
    assert!(matches!(app.search_popup.as_ref().unwrap().status, SearchStatus::Error(ref e) if e == "offline"));
    app.drain_search_inbox(None);
    app.search_popup_cancel();
    assert!(app.search_popup.is_none());
}

#[test]
fn mcp_search_installs_a_disabled_row() {
    let mut app = new_app();
    app.active_tab = Tab::Mcp;
    handle_key(&mut app, Key::new(KeyCode::Char('f'), Modifiers::Control));
    assert!(app.mcp_search_popup.is_some());
    for c in "memory".chars() {
        handle_key(&mut app, Key::new(KeyCode::Char(c), Modifiers::Plain));
    }
    match handle_key(&mut app, Key::new(KeyCode::Enter, Modifiers::Plain)).action {
        Action::SearchMcp(q) => assert_eq!(q, "memory"),
        other => panic!("expected a search, got {other:?}"),
    }
    app.drain_mcp_search_inbox(Some(Ok(vec![McpHit {
        qualified_name: "@org/memory".to_string(),
        display_name: "Memory".to_string(),
        remote: true,
        use_count: 7,
    }])));
    match app.mcp_search_popup_enter() {
        McpSearchStep::Install(row) => {
            assert_eq!(row.name, "@org/memory");
            assert!(matches!(row.source, McpSource::Hit { index: 0 }));
            assert_eq!(row.enabled, vec![false; 5]);
        },
        other => panic!("expected an install, got {other:?}"),
    }
    assert!(app.mcp_search_popup.is_none());
    app.mcp_server_added(true, Ok("@org/memory".to_string()));
    assert_eq!(app.toasts.last().unwrap().message, "Added MCP \"@org/memory\" (disabled — enable per agent via a)");
}

#[test]
fn pnpx_install_asks_for_pnpm_when_missing() {
    let mut app = new_app();
    assert!(app.install_skill_via_pnpx("vercel/skills", InstallMethod::Pnpm));
    assert!(app.install_log_popup.is_none(), "the host starts the stream itself");
    app.show_install_stream("pnpx skills add vercel/skills".to_string(), "vercel/skills".to_string());
    assert_eq!(app.install_log_popup.as_ref().unwrap().pending_skill.as_deref(), Some("vercel/skills"));
    assert!(matches!(app.install_log_close(true), CloseStep::Rescan));
    assert!(app.install_log_popup.is_none());

    assert!(!app.install_skill_via_pnpx("vercel/skills", InstallMethod::NodeOnly));
    match &app.install_log_popup.as_ref().unwrap().mode {
        InstallLogMode::ConfirmPnpm { owner_repo } => assert_eq!(owner_repo, "vercel/skills"),
        other => panic!("expected the pnpm prompt, got {other:?}"),
    }
    assert!(app.install_log_confirm_pnpm());
    app.install_log_stream_started("install pnpm".to_string());
    assert!(!app.install_log_confirm_pnpm(), "no longer asking");
    match app.install_log_close(true) {
        CloseStep::InstallPending(s) => assert_eq!(s, "vercel/skills"),
        other => panic!("expected the pending install, got {other:?}"),
    }

    assert!(!app.install_skill_via_pnpx("vercel/skills", InstallMethod::NodeOnly));
    assert!(matches!(app.install_log_close(true), CloseStep::Rescan), "closing the prompt still rescans");
    assert!(app.install_log_popup.is_none());
}

#[test]
fn declining_pnpm_falls_back_to_git_clone() {
    let mut app = new_app();
    assert!(!app.install_skill_via_pnpx("a/b", InstallMethod::Missing));
    let out = handle_key(&mut app, Key::new(KeyCode::Char('n'), Modifiers::Plain));
    let repo = match out.action {
        Action::GitCloneFallback(r) => r,
        other => panic!("expected a fallback, got {other:?}"),
    };
    assert_eq!(repo, "a/b");
    assert!(app.install_log_popup.is_none());
    assert_eq!(app.toasts.last().unwrap().message, "Falling back to git clone for a/b");
    match app.fallback_repo_added(&repo, Ok(()), true) {
        Some(RunMode::Background(id)) => assert_eq!(app.tasks.entries[0].id, id),
        other => panic!("expected a background clone, got {other:?}"),
    }
    assert_eq!(app.tasks.entries[0].name, "Clone a/b");
    assert_eq!(clone_task_message(3), "3 skill(s)");
    assert!(app.fallback_repo_added(&repo, Err("dup".to_string()), false).is_none());
    assert_eq!(app.toasts.last().unwrap().message, "Add failed: dup");
}

#[test]
fn failed_install_stream_closes_and_rescans() {
    let mut app = new_app();
    app.show_install_stream("install pnpm".to_string(), "x/y".to_string());
    let out = handle_key(&mut app, Key::new(KeyCode::Esc, Modifiers::Plain));
    assert!(matches!(out.action, Action::CloseInstaller));
    assert!(app.install_log_popup.is_some(), "the host closes it with the process outcome");
    assert!(matches!(app.install_log_close(false), CloseStep::Rescan), "a failed pnpm install does not chain");
    assert!(app.install_log_popup.is_none());
    assert!(matches!(app.install_log_close(true), CloseStep::Nothing), "no popup left to close");
}
