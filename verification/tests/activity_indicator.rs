//! The activity log and the status-bar spinner: jobs are logged newest
//! first, counted while running, and finished by the outcome the worker
//! hands back.

use liteconfig_tui::display::{activity_spinner, activity_title, spinner_glyph, status_jobs, task_banner, task_status_text};
use liteconfig_tui::tasks::{job_status, reloads_for_task, toast_for_task, Reloads, TaskLog, TaskStatus, ToastLevel};

#[test]
fn spinner_glyph_cycles_across_ticks() {
    let mut seen = std::collections::HashSet::new();
    for i in 0..20u8 {
        seen.insert(spinner_glyph(i));
    }
    assert!(seen.len() > 1, "glyph should animate across ticks");
}

#[test]
fn running_entries_surface_the_latest_task_name() {
    let mut log = TaskLog::new();
    let id = log.begin("slow build".to_string(), 1_000);

    assert_eq!(log.running_count(), 1);
    let name = log.running_entries().first().map(|e| e.name.clone()).unwrap();
    assert_eq!(name, "slow build");

    log.complete(id, job_status(Some(Ok(String::new()))), 1_150);
    assert_eq!(log.running_count(), 0);
    let entry = log.entries.iter().find(|e| e.name == "slow build").unwrap();
    assert!(matches!(entry.status, TaskStatus::Done(_)));
}

#[test]
fn submit_and_collect_ok_result() {
    let mut log = TaskLog::new();
    let id = log.begin("hello".to_string(), 0);
    assert_eq!(log.running_count(), 1);
    let done = log.complete(id, job_status(Some(Ok("world".to_string()))), 5);
    assert!(done.iter().any(|e| e.id == id));
    assert_eq!(log.running_count(), 0);
    let entry = log.entries.iter().find(|e| e.id == id).unwrap();
    assert!(matches!(entry.status, TaskStatus::Done(ref s) if s == "world"));
}

#[test]
fn submit_and_collect_err_result() {
    let mut log = TaskLog::new();
    let id = log.begin("boom".to_string(), 0);
    log.complete(id, job_status(Some(Err("bang".to_string()))), 1);
    let entry = log.entries.iter().find(|e| e.id == id).unwrap();
    assert!(matches!(entry.status, TaskStatus::Failed(ref s) if s == "bang"));
}

#[test]
fn panic_in_task_is_captured_as_err() {
    let mut log = TaskLog::new();
    let id = log.begin("panicky".to_string(), 0);
    log.complete(id, job_status(None), 1);
    let entry = log.entries.iter().find(|e| e.id == id).unwrap();
    assert!(matches!(entry.status, TaskStatus::Failed(ref s) if s == "task panicked"));
}

#[test]
fn log_is_newest_first_and_keeps_fifty() {
    let mut log = TaskLog::new();
    for i in 0..60u64 {
        let id = log.begin(format!("job {i}"), i);
        assert_eq!(id, i + 1);
    }
    assert_eq!(log.entries.len(), 50);
    assert_eq!(log.entries[0].name, "job 59");
    assert_eq!(log.entries[49].name, "job 10");
    assert_eq!(log.running_count(), 50);
}

#[test]
fn completing_an_unknown_id_changes_nothing() {
    let mut log = TaskLog::new();
    let id = log.begin("a".to_string(), 0);
    assert!(log.complete(id + 7, TaskStatus::Done(String::new()), 3).is_none());
    assert_eq!(log.running_count(), 1);
    let done = log.complete(id, TaskStatus::Done(String::new()), 3).unwrap();
    assert_eq!(done.finished_at_ms, Some(3));
    assert_eq!(done.started_at_ms, 0);
}

#[test]
fn toasts_for_finished_jobs() {
    let mut log = TaskLog::new();
    let a = log.begin("Rescan live skills".to_string(), 0);
    let quiet = log.complete(a, TaskStatus::Done(String::new()), 1).unwrap();
    assert!(toast_for_task(&quiet).is_none(), "an empty rescan stays quiet");

    let b = log.begin("Rescan live skills".to_string(), 0);
    let loud = log.complete(b, TaskStatus::Done("2 new".to_string()), 1).unwrap();
    assert_eq!(toast_for_task(&loud), Some((ToastLevel::Success, "Rescan live skills: 2 new".to_string())));

    let c = log.begin("Sync all MCP".to_string(), 0);
    let plain = log.complete(c, TaskStatus::Done(String::new()), 1).unwrap();
    assert_eq!(toast_for_task(&plain), Some((ToastLevel::Success, "Sync all MCP".to_string())));

    let d = log.begin("Push backup".to_string(), 0);
    let failed = log.complete(d, TaskStatus::Failed("no remote".to_string()), 1).unwrap();
    assert_eq!(toast_for_task(&failed), Some((ToastLevel::Error, "Push backup failed: no remote".to_string())));
}

#[test]
fn finished_jobs_reload_their_views() {
    let skills = reloads_for_task("Recompute skill hashes");
    assert!(skills.skills && !skills.mcp && !skills.rules && !skills.backups);
    assert!(reloads_for_task("Sync all MCP").mcp);
    assert!(reloads_for_task("Sync all rules").rules);
    assert!(reloads_for_task("Push backup").backups);
    assert_eq!(reloads_for_task("Clone foo/bar"), Reloads::nothing());
}

#[test]
fn activity_texts() {
    assert_eq!(activity_title(0), " Activity ");
    assert_eq!(activity_title(3), " Activity (3 running) ");
    assert_eq!(task_status_text(&TaskStatus::Running), "running");
    assert_eq!(task_status_text(&TaskStatus::Done(String::new())), "ok");
    assert_eq!(task_status_text(&TaskStatus::Done("2 new".to_string())), "ok — 2 new");
    assert_eq!(task_status_text(&TaskStatus::Failed("x".to_string())), "failed — x");
    assert_eq!(activity_spinner(0), "⠋");
    assert_eq!(activity_spinner(250), "⠹");
    assert_eq!(activity_spinner(480), "⠋");
}

#[test]
fn status_line_and_banner() {
    assert_eq!(spinner_glyph(0), "⠋");
    assert_eq!(spinner_glyph(13), "⠸");
    assert_eq!(spinner_glyph(255), "⠴");
    assert_eq!(task_banner("⠋", "Sync all skills", 1), " ⠋ Sync all skills");
    assert_eq!(task_banner("⠋", "Sync all skills", 3), " ⠋ Sync all skills · 2 queued");
    assert_eq!(status_jobs("⠙", "Push backup", 1), "⠙ Push backup  (L)");
    assert_eq!(status_jobs("⠙", "Push backup", 2), "⠙ Push backup · +1 queued  (L)");
    let long = "x".repeat(45);
    let expected = format!("⠙ {}…  (L)", "x".repeat(39));
    assert_eq!(status_jobs("⠙", &long, 1), expected);
}
