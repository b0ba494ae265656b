//! Long jobs: queued on the host's worker when the store is file-backed,
//! run inline otherwise; the log counts what is still running.

use liteconfig_tui::app::{App, PresetCatalog};
use liteconfig_tui::app_actions::RunMode;
use liteconfig_tui::model::{AgentInfo, Skill, SyncMethod};
use liteconfig_tui::tasks::{TaskLog, TaskStatus, ToastLevel};
use liteconfig_tui::views::{GithubBackup, Settings};

fn agents() -> Vec<AgentInfo> {
    let names = [("codex", "Codex", true), ("gemini", "Gemini CLI", true), ("qwen", "Qwen Code", true), ("cursor", "Cursor", false), ("opencode", "OpenCode", false)];
    names
        .iter()
        .map(|(id, name, profiles)| AgentInfo { id: id.to_string(), display_name: name.to_string(), supports_profiles: *profiles })
        .collect()
}

fn default_settings() -> Settings {
    Settings {
        theme: "dark".to_string(),
        github_backup: GithubBackup { enabled: false, repo_url: String::new(), branch: "main".to_string(), auto_sync: false },
        current_profiles: vec![None, None, None, None, None],
    }
}

fn new_app() -> App {
    App::new(agents(), default_settings(), PresetCatalog { skill_repos: Vec::new(), mcp: Vec::new(), plugins: Vec::new() }, Vec::new(), 1_000)
}

fn skill(name: &str) -> Skill {
    Skill {
        id: format!("id-{name}"),
        name: name.to_string(),
        description: None,
        sync_method: SyncMethod::Inherit,
        enabled: vec![false; 5],
        from_github: false,
        content_hash: Some("abc".to_string()),
    }
}

#[test]
fn sync_all_skills_runs_on_background_thread_and_reloads_view() {
    let mut app = new_app();
    app.reload_skills(vec![skill("alpha"), skill("bravo")]);

    let mode = app.sync_all_skills(true);
    let id = match mode {
        Some(RunMode::Background(id)) => id,
        other => panic!("expected a background job, got {other:?}"),
    };
    assert_eq!(app.tasks.running_count(), 1, "task should be queued on the worker");
    assert_eq!(app.toasts.last().unwrap().message, "Syncing 2 skills in background…");

    let reloads = app.task_finished(id, TaskStatus::Done(String::new()));
    assert!(reloads.skills, "a finished skill sync reloads the skills view");
    assert_eq!(app.tasks.running_count(), 0);
    let entry = app.tasks.entries.iter().find(|e| e.name == "Sync all skills").expect("log has the entry");
    assert!(matches!(entry.status, TaskStatus::Done(_)), "task status should be Done, got {:?}", entry.status);
    let last = app.toasts.last().unwrap();
    assert_eq!(last.message, "Sync all skills");
    assert_eq!(last.level, ToastLevel::Success);
}

#[test]
fn sync_all_skills_falls_back_to_inline_for_in_memory_db() {
    let mut app = new_app();
    app.reload_skills(vec![skill("x")]);
    let mode = app.sync_all_skills(false);
    assert_eq!(mode, Some(RunMode::Inline));
    assert_eq!(app.tasks.running_count(), 0, "in-memory DB should run inline, not queue a task");
    app.all_skills_synced(Ok(()));
    assert_eq!(app.toasts.last().unwrap().message, "Synced all 1 skills");
}

#[test]
fn running_count_reflects_live_work() {
    let mut runner = TaskLog::new();
    let id = runner.begin("slow".to_string(), 0);
    assert_eq!(runner.running_count(), 1);
    let done = runner.complete(id, TaskStatus::Done("done".to_string()), 120);
    assert!(done.is_some());
    assert_eq!(runner.running_count(), 0);
}

#[test]
fn sync_all_without_skills_warns() {
    let mut app = new_app();
    assert_eq!(app.sync_all_skills(true), None);
    let t = app.toasts.last().unwrap();
    assert_eq!(t.message, "No skills to sync");
    assert_eq!(t.level, ToastLevel::Warning);
    assert_eq!(app.tasks.entries.len(), 0);
}

#[test]
fn sync_all_mcp_and_rules_queue_named_jobs() {
    let mut app = new_app();
    assert!(matches!(app.sync_all_mcp(true), RunMode::Background(1)));
    assert!(matches!(app.sync_all_rules(true), RunMode::Background(2)));
    assert_eq!(app.tasks.entries[0].name, "Sync all rules");
    assert_eq!(app.tasks.entries[1].name, "Sync all MCP");
    assert_eq!(app.sync_all_mcp(false), RunMode::Inline);
}
