//! Startup rescan of the live skill directories: a quiet background job
//! whose result reloads the skills view.

use liteconfig_tui::app::{App, PresetCatalog};
use liteconfig_tui::app_actions::RunMode;
use liteconfig_tui::app_install::{hash_task_message, rescan_task_message};
use liteconfig_tui::model::{AgentInfo, Skill, SyncMethod};
use liteconfig_tui::tasks::{TaskStatus, ToastLevel};
use liteconfig_tui::views::{GithubBackup, Settings};

fn agents() -> Vec<AgentInfo> {
    let names = [("codex", "Codex", true), ("gemini", "Gemini CLI", true), ("qwen", "Qwen Code", true), ("cursor", "Cursor", false), ("opencode", "OpenCode", false)];
    names
        .iter()
        .map(|(id, name, profiles)| AgentInfo { id: id.to_string(), display_name: name.to_string(), supports_profiles: *profiles })
        .collect()
}

fn default_settings() -> Settings {
    Settings {
        theme: "dark".to_string(),
        github_backup: GithubBackup { enabled: false, repo_url: String::new(), branch: "main".to_string(), auto_sync: false },
        current_profiles: vec![None, None, None, None, None],
    }
}

fn new_app() -> App {
    App::new(agents(), default_settings(), PresetCatalog { skill_repos: Vec::new(), mcp: Vec::new(), plugins: Vec::new() }, Vec::new(), 1_000)
}

fn skill(name: &str) -> Skill {
    Skill {
        id: format!("id-{name}"),
        name: name.to_string(),
        description: None,
        sync_method: SyncMethod::Inherit,
        enabled: vec![false; 5],
        from_github: false,
        content_hash: Some("abc".to_string()),
    }
}

#[test]
fn launch_picks_up_externally_installed_skill() {
    let mut app = new_app();
    app.reload_skills(vec![skill("seed")]);

    let id = match app.rescan_live_skills(true) {
        RunMode::Background(id) => id,
        RunMode::Inline => panic!("a file-backed store rescans in the background"),
    };
    assert_eq!(app.tasks.running_count(), 1);

    // The worker found one new skill, `foo`, enabled for the first agent.
    let reloads = app.task_finished(id, TaskStatus::Done(rescan_task_message(1)));
    assert!(reloads.skills);
    assert_eq!(app.tasks.running_count(), 0);
    let mut foo = skill("foo");
    foo.enabled[0] = true;
    app.reload_skills(vec![skill("seed"), foo]);
    let names: Vec<String> = app.skills_view.skills.iter().map(|s| s.name.clone()).collect();
    assert!(names.iter().any(|n| n == "foo"), "rescan should pick up externally-installed skill, got {names:?}");
    let foo_row = app.skills_view.skills.iter().find(|s| s.name == "foo").unwrap();
    assert!(foo_row.enabled[0]);
    assert_eq!(app.toasts.last().unwrap().message, "Rescan live skills: 1 new");
}

#[test]
fn empty_rescan_stays_quiet() {
    let mut app = new_app();
    let id = match app.rescan_live_skills(true) {
        RunMode::Background(id) => id,
        RunMode::Inline => unreachable!(),
    };
    let reloads = app.task_finished(id, TaskStatus::Done(rescan_task_message(0)));
    assert!(reloads.skills);
    assert!(app.toasts.is_empty(), "nothing new: no toast");
}

#[test]
fn inline_rescan_and_hashing() {
    let mut app = new_app();
    assert_eq!(app.rescan_live_skills(false), RunMode::Inline);
    let r = app.live_skills_rescanned(Ok(2));
    assert!(r.skills);
    let t = app.toasts.last().unwrap();
    assert_eq!(t.message, "Rescan: 2 new skill(s)");
    assert_eq!(t.level, ToastLevel::Info);
    let before = app.toasts.len();
    assert!(app.live_skills_rescanned(Ok(0)).skills);
    assert!(!app.live_skills_rescanned(Err("io".to_string())).skills);
    assert_eq!(app.toasts.len(), before);

    assert_eq!(app.recompute_skill_hashes(false), RunMode::Inline);
    assert!(app.skill_hashes_recomputed(Ok(3)).skills);
    assert!(!app.skill_hashes_recomputed(Ok(0)).skills);
    assert!(!app.skill_hashes_recomputed(Err("x".to_string())).skills);
    assert!(matches!(app.recompute_skill_hashes(true), RunMode::Background(_)));
    assert_eq!(app.tasks.entries[0].name, "Recompute skill hashes");
}

#[test]
fn job_result_texts() {
    assert_eq!(rescan_task_message(0), "");
    assert_eq!(rescan_task_message(12), "12 new");
    assert_eq!(hash_task_message(0), "");
    assert_eq!(hash_task_message(4), "4 hashed");
}
