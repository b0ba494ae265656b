//! Two-phase delete on the Backup tab: the first `d` arms, the second
//! within two seconds deletes. Any other Backup key clears the arm.

use liteconfig_tui::app::{App, PresetCatalog};
use liteconfig_tui::display::{backup_gh_status, snapshot_kb};
use liteconfig_tui::events::{handle_key, Action, Key, KeyCode, Modifiers};
use liteconfig_tui::model::{AgentInfo, Skill, SyncMethod, Snapshot};
use liteconfig_tui::tab::Tab;
use liteconfig_tui::tasks::ToastLevel;
use liteconfig_tui::views::{GithubBackup, Settings};

fn agents() -> Vec<AgentInfo> {
    let names = [("codex", "Codex", true), ("gemini", "Gemini CLI", true), ("qwen", "Qwen Code", true), ("cursor", "Cursor", false), ("opencode", "OpenCode", false)];
    names
        .iter()
        .map(|(id, name, profiles)| AgentInfo { id: id.to_string(), display_name: name.to_string(), supports_profiles: *profiles })
        .collect()
}

fn default_settings() -> Settings {
    Settings {
        theme: "dark".to_string(),
        github_backup: GithubBackup { enabled: false, repo_url: String::new(), branch: "main".to_string(), auto_sync: false },
        current_profiles: vec![None, None, None, None, None],
    }
}

fn new_app() -> App {
    App::new(agents(), default_settings(), PresetCatalog { skill_repos: Vec::new(), mcp: Vec::new(), plugins: Vec::new() }, Vec::new(), 1_000)
}

fn skill(name: &str) -> Skill {
    Skill {
        id: format!("id-{name}"),
        name: name.to_string(),
        description: None,
        sync_method: SyncMethod::Inherit,
        enabled: vec![false; 5],
        from_github: false,
        content_hash: Some("abc".to_string()),
    }
}

fn snapshot(ts: &str) -> Snapshot {
    Snapshot { timestamp: ts.to_string(), size_bytes: 4096, directory: format!("/home/u/.liteconfig/backups/{ts}") }
}

fn press(app: &mut App, c: char) -> Action {
    handle_key(app, Key::new(KeyCode::Char(c), Modifiers::Plain)).action
}

#[test]
fn first_d_arms_second_d_deletes() {
    let mut app = new_app();
    app.active_tab = Tab::Backup;
    app.reload_backups(vec![snapshot("20250101-120000")]);
    assert_eq!(app.backup_view.snapshots.len(), 1);

    // First `d` → armed, snapshot still present.
    assert!(matches!(press(&mut app, 'd'), Action::Nothing));
    assert!(app.backup_view.delete_armed_at_ms.is_some());
    assert_eq!(app.backup_view.snapshots.len(), 1);

    // Second `d` → the host deletes the snapshot and reloads.
    let ts = match press(&mut app, 'd') {
        Action::DeleteSnapshot(ts) => ts,
        other => panic!("expected a delete, got {other:?}"),
    };
    assert_eq!(ts, "20250101-120000");
    assert!(app.backup_view.delete_armed_at_ms.is_none());
    let reloads = app.snapshot_deleted(&ts, Ok(()));
    assert!(reloads.backups);
    app.reload_backups(Vec::new());
    assert_eq!(app.backup_view.snapshots.len(), 0);
    assert_eq!(app.toasts.last().unwrap().message, "Deleted snapshot 20250101-120000");
}

#[test]
fn non_d_key_clears_the_delete_arm() {
    let mut app = new_app();
    app.active_tab = Tab::Backup;
    app.reload_backups(vec![snapshot("20250101-120000")]);

    press(&mut app, 'd');
    assert!(app.backup_view.delete_armed_at_ms.is_some());

    // Any other backup-tab key clears the arm.
    press(&mut app, 'j');
    assert!(app.backup_view.delete_armed_at_ms.is_none());

    // A single `d` now is back to arming, not deleting.
    assert!(matches!(press(&mut app, 'd'), Action::Nothing));
    assert_eq!(app.backup_view.snapshots.len(), 1);
}

#[test]
fn arm_expires_after_two_seconds() {
    let mut app = new_app();
    app.active_tab = Tab::Backup;
    app.reload_backups(vec![snapshot("a")]);
    app.set_clock(10_000);
    press(&mut app, 'd');
    assert_eq!(app.backup_view.delete_armed_at_ms, Some(10_000));
    app.set_clock(12_001);
    assert!(matches!(press(&mut app, 'd'), Action::Nothing), "too late: re-arms");
    assert_eq!(app.backup_view.delete_armed_at_ms, Some(12_001));
    app.set_clock(14_001);
    assert!(matches!(press(&mut app, 'd'), Action::DeleteSnapshot(_)), "exactly two seconds still counts");
    let t = app.toasts.last().unwrap();
    assert_eq!(t.message, "Press d again to delete snapshot a");
    assert_eq!(t.level, ToastLevel::Warning);
}

#[test]
fn delete_without_snapshots_warns() {
    let mut app = new_app();
    app.active_tab = Tab::Backup;
    assert!(matches!(press(&mut app, 'd'), Action::Nothing));
    assert_eq!(app.toasts.last().unwrap().message, "No snapshot to delete");
    assert!(app.backup_view.delete_armed_at_ms.is_none());
}

#[test]
fn snapshot_restore_and_push_keys() {
    let mut app = new_app();
    app.active_tab = Tab::Backup;
    assert!(matches!(press(&mut app, 'n'), Action::CreateSnapshot));
    let r = app.snapshot_created(Ok("20250102-000000".to_string()));
    assert!(r.backups);
    assert_eq!(app.toasts.last().unwrap().message, "Snapshot created: 20250102-000000");
    app.snapshot_created(Err("disk full".to_string()));
    assert_eq!(app.toasts.last().unwrap().message, "Snapshot failed: disk full");

    assert!(matches!(press(&mut app, 'r'), Action::Nothing));
    assert_eq!(app.toasts.last().unwrap().message, "No snapshot selected");
    app.reload_backups(vec![snapshot("s1"), snapshot("s2")]);
    press(&mut app, 'j');
    match press(&mut app, 'r') {
        Action::RestoreSnapshot(ts) => {
            assert_eq!(ts, "s2");
            app.snapshot_restored(&ts, Ok(()));
            assert_eq!(app.toasts.last().unwrap().message, "Restored s2");
        },
        other => panic!("expected a restore, got {other:?}"),
    }

    // Push is refused until GitHub backup is set up.
    assert!(matches!(press(&mut app, 'p'), Action::Nothing));
    assert_eq!(
        app.toasts.last().unwrap().message,
        "GitHub backup is disabled — enable it and set a repo URL in Settings"
    );
    app.settings.github_backup.enabled = true;
    assert!(matches!(press(&mut app, 'p'), Action::Nothing), "still no repo URL");
    app.settings.github_backup.repo_url = "git@github.com:me/backup.git".to_string();
    match press(&mut app, 'p') {
        Action::PushBackup(id) => {
            assert_eq!(app.tasks.entries[0].id, id);
            assert_eq!(app.tasks.entries[0].name, "Push backup");
            assert_eq!(app.toasts.last().unwrap().message, "Pushing backup in background…");
        },
        other => panic!("expected a push, got {other:?}"),
    }
}

#[test]
fn backup_texts() {
    let mut gh = GithubBackup { enabled: false, repo_url: String::new(), branch: "main".to_string(), auto_sync: false };
    assert_eq!(backup_gh_status(&gh), "disabled");
    gh.enabled = true;
    assert_eq!(backup_gh_status(&gh), "enabled · repo URL empty");
    gh.repo_url = "git@x:y.git".to_string();
    assert_eq!(backup_gh_status(&gh), "→ git@x:y.git (main)");
    assert_eq!(snapshot_kb(4096), 4);
    assert_eq!(snapshot_kb(1023), 0);
}

#[test]
fn push_commit_text() {
    assert_eq!(liteconfig_tui::app_install::push_task_message("0123456789abcdef"), "commit 01234567");
    assert_eq!(liteconfig_tui::app_install::push_task_message("abc"), "commit abc");
}
