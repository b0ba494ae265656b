//! Plugins and Backup tabs: lists, focus and the two-press delete.

use vstd::prelude::*;
use crate::app::{clamp_focus, clamp_focus_exec, pushed, toasts_view, App};
use crate::model::{Plugin, Snapshot};
use crate::tasks::{Reloads, ToastLevel};
use crate::text::{cat, cat3, cat4, decimal, fmt_u64, wrap, wrap_step};
use crate::views::{BackupView, PluginsView};

verus! {

/// A delete armed at `t` is still armed at `now` (within two seconds; a
/// clock that went backwards counts as no time elapsed).
pub open spec fn still_armed(t: u64, now: u64) -> bool {
    (if now >= t { now - t } else { 0 }) <= 2000
}

fn armed_now(armed_at: Option<u64>, now: u64) -> (r: bool)
    ensures
        r == (armed_at matches Some(t) && still_armed(t, now)),
{
    match armed_at {
        Some(t) => {
            let elapsed = if now >= t { now - t } else { 0 };
            elapsed <= 2000
        },
        None => false,
    }
}

/// A second `d` deletes exactly when it comes at most two seconds after
/// the first; with no first press nothing is armed.
pub proof fn lemma_delete_window(t: u64, now: u64)
    ensures
        !armed_outcome(None, now),
        now >= t ==> (armed_outcome(Some(t), now) <==> now - t <= 2000),
        now < t ==> armed_outcome(Some(t), now),
{
}

/// A plugin to uninstall.
#[derive(Debug)]
pub struct PluginRemoval {
    pub id: String,
    pub name: String,
}

/// A curated plugin repository to install.
#[derive(Debug)]
pub struct PluginInstall {
    pub url: String,
    pub branch: String,
    pub name_hint: String,
}

/// What a press of the plugin delete key does to the state (`before` to
/// `after`) and hands back (`r`): without a focused plugin a warning is
/// shown; a first press (or one after the two-second window) arms and
/// warns; a press while armed disarms and returns the plugin to uninstall.
pub open spec fn delete_focused_plugin_effect(before: App, after: App, r: Option<PluginRemoval>) -> bool {
    let v = before.plugins_view;
    let now = before.now_ms;
    if v.focused_idx >= v.plugins@.len() {
        &&& r is None
        &&& toasts_view(after.toasts@) == pushed(before.toasts@, "No plugin to delete"@, ToastLevel::Warning, now)
        &&& after == (App { toasts: after.toasts, ..before })
    } else {
        let p = v.plugins@[v.focused_idx as int];
        if armed_outcome(v.delete_armed_at_ms, now) {
            &&& r matches Some(q) && q.id == p.id && q.name == p.name
            &&& after == (App {
                plugins_view: PluginsView { delete_armed_at_ms: None, ..v },
                ..before
            })
        } else {
            &&& r is None
            &&& toasts_view(after.toasts@) == pushed(
                before.toasts@,
                "Press d again to remove plugin "@ + p.name@,
                ToastLevel::Warning,
                now,
            )
            &&& after == (App {
                plugins_view: PluginsView { delete_armed_at_ms: Some(now), ..v },
                toasts: after.toasts,
                ..before
            })
        }
    }
}

/// What the second-press delete of a list does.
pub open spec fn armed_outcome(armed_at: Option<u64>, now: u64) -> bool {
    armed_at matches Some(t) && still_armed(t, now)
}

/// What `App::delete_focused_snapshot` does: `before` is the app before the call,
/// `after` the app after it, `r` what it returns.
pub open spec fn delete_focused_snapshot_effect(before: App, after: App, r: Option<String>) -> bool {
    ({
        let v = before.backup_view;
        let now = before.now_ms;
        if v.focused_idx >= v.snapshots@.len() {
            &&& r is None
            &&& toasts_view(after.toasts@) == pushed(before.toasts@, "No snapshot to delete"@, ToastLevel::Warning, now)
            &&& after == (App { toasts: after.toasts, ..before })
        } else {
            let s = v.snapshots@[v.focused_idx as int];
            if armed_outcome(v.delete_armed_at_ms, now) {
                &&& r == Some(s.timestamp)
                &&& after == (App {
                    backup_view: BackupView { delete_armed_at_ms: None, ..v },
                    ..before
                })
            } else {
                &&& r is None
                &&& toasts_view(after.toasts@) == pushed(
                    before.toasts@,
                    "Press d again to delete snapshot "@ + s.timestamp@,
                    ToastLevel::Warning,
                    now,
                )
                &&& after == (App {
                    backup_view: BackupView { delete_armed_at_ms: Some(now), ..v },
                    toasts: after.toasts,
                    ..before
                })
            }
        }
    })
}

/// What `App::clear_backup_delete_arm` does: `before` is the app before the call,
/// `after` the app after it.
pub open spec fn clear_backup_delete_arm_effect(before: App, after: App) -> bool {
    after == (App {
        backup_view: BackupView { delete_armed_at_ms: None, ..before.backup_view },
        ..before
    })
}

/// What `App::move_backup_focus` does: `before` is the app before the call,
/// `after` the app after it.
pub open spec fn move_backup_focus_effect(before: App, after: App, delta: i32) -> bool {
    ({
        let n = before.backup_view.snapshots@.len();
        if n == 0 {
            after == before
        } else {
            after == (App {
                backup_view: BackupView {
                    focused_idx: wrap(before.backup_view.focused_idx as int, delta as int, n as int) as usize,
                    ..before.backup_view
                },
                ..before
            })
        }
    })
}

/// What `App::restore_focused_snapshot` does: `before` is the app before the call,
/// `after` the app after it, `r` what it returns.
pub open spec fn restore_focused_snapshot_effect(before: App, after: App, r: Option<String>) -> bool {
    ({
        let v = before.backup_view;
        if v.focused_idx < v.snapshots@.len() {
            r == Some(v.snapshots@[v.focused_idx as int].timestamp) && after == before
        } else {
            &&& r is None
            &&& toasts_view(after.toasts@) == pushed(before.toasts@, "No snapshot selected"@, ToastLevel::Warning, before.now_ms)
            &&& after == (App { toasts: after.toasts, ..before })
        }
    })
}

/// What `App::clear_plugin_delete_arm` does: `before` is the app before the call,
/// `after` the app after it.
pub open spec fn clear_plugin_delete_arm_effect(before: App, after: App) -> bool {
    after == (App {
        plugins_view: PluginsView { delete_armed_at_ms: None, ..before.plugins_view },
        ..before
    })
}

/// What `App::move_plugin_focus` does: `before` is the app before the call,
/// `after` the app after it.
pub open spec fn move_plugin_focus_effect(before: App, after: App, delta: i32) -> bool {
    ({
        let n = before.plugins_view.plugins@.len();
        if n == 0 {
            after == before
        } else {
            after == (App {
                plugins_view: PluginsView {
                    focused_idx: wrap(before.plugins_view.focused_idx as int, delta as int, n as int) as usize,
                    ..before.plugins_view
                },
                ..before
            })
        }
    })
}

/// What `App::install_plugin_preset` returns (`r`) on the app `app`.
pub open spec fn install_plugin_preset_result(app: App, idx: usize, r: Option<PluginInstall>) -> bool {
    &&& idx >= app.catalog.plugins@.len() ==> r is None
    &&& idx < app.catalog.plugins@.len() ==> (r matches Some(q) && ({
        let p = app.catalog.plugins@[idx as int];
        &&& q.url@ == "https://github.com/"@ + p.owner@ + "/"@ + p.name@ + ".git"@
        &&& q.branch@ == p.branch@
        &&& q.name_hint@ == p.owner@ + "/"@ + p.name@
    }))
}

impl App {
    /// Replaces the plugin rows; the focus is clamped, the delete arm kept.
    pub fn reload_plugins(&mut self, plugins: Vec<Plugin>)
        ensures
            *final(self) == (App {
                plugins_view: PluginsView {
                    plugins: plugins,
                    focused_idx: clamp_focus(old(self).plugins_view.focused_idx, plugins@.len()),
                    ..old(self).plugins_view
                },
                ..*old(self)
            }),
    {
        let f = clamp_focus_exec(self.plugins_view.focused_idx, plugins.len());
        self.plugins_view.plugins = plugins;
        self.plugins_view.focused_idx = f;
    }

    /// Moves the plugin focus by `delta`, wrapping; nothing on an empty list.
    pub fn move_plugin_focus(&mut self, delta: i32)
        requires
            old(self).plugins_view.plugins@.len() <= i32::MAX,
            old(self).plugins_view.focused_idx <= i32::MAX,
            old(self).plugins_view.focused_idx + delta <= i32::MAX,
        ensures
            move_plugin_focus_effect(*old(self), *final(self), delta),
    {
        let n = self.plugins_view.plugins.len();
        if n == 0 {
            return;
        }
        self.plugins_view.focused_idx = wrap_step(self.plugins_view.focused_idx, delta, n);
    }

    /// Disarms a pending plugin delete.
    pub fn clear_plugin_delete_arm(&mut self)
        ensures
            clear_plugin_delete_arm_effect(*old(self), *final(self)),
    {
        self.plugins_view.delete_armed_at_ms = None;
    }

    /// Two-press delete of the focused plugin. Without a focused plugin a
    /// warning is shown. A first press (or one after the two-second window)
    /// arms and warns; a press while armed disarms and returns the plugin to
    /// uninstall.
    pub fn delete_focused_plugin(&mut self) -> (r: Option<PluginRemoval>)
        ensures
            delete_focused_plugin_effect(*old(self), *final(self), r),
    {
        let i = self.plugins_view.focused_idx;
        if i >= self.plugins_view.plugins.len() {
            self.push_toast(String::from_str("No plugin to delete"), ToastLevel::Warning);
            return None;
        }
        let id = self.plugins_view.plugins[i].id.clone();
        let name = self.plugins_view.plugins[i].name.clone();
        let now = self.now_ms;
        if !armed_now(self.plugins_view.delete_armed_at_ms, now) {
            self.plugins_view.delete_armed_at_ms = Some(now);
            self.push_toast(cat("Press d again to remove plugin ", name.as_str()), ToastLevel::Warning);
            return None;
        }
        self.plugins_view.delete_armed_at_ms = None;
        Some(PluginRemoval { id, name })
    }

    /// Outcome of uninstalling a plugin.
    pub fn plugin_uninstalled(&mut self, removal: &PluginRemoval, result: Result<(), String>) -> (r: Reloads)
        ensures
            match result {
                Ok(_) => r == (Reloads { plugins: true, ..Reloads::nothing_spec() }) && toasts_view(final(self).toasts@)
                    == pushed(old(self).toasts@, "Uninstalled plugin "@ + removal.name@, ToastLevel::Success, old(self).now_ms),
                Err(e) => r == Reloads::nothing_spec() && toasts_view(final(self).toasts@) == pushed(
                    old(self).toasts@,
                    "Uninstall failed: "@ + e@,
                    ToastLevel::Error,
                    old(self).now_ms,
                ),
            },
            *final(self) == (App { toasts: final(self).toasts, ..*old(self) }),
    {
        let n = Reloads::nothing();
        match result {
            Ok(_) => {
                self.push_toast(cat("Uninstalled plugin ", removal.name.as_str()), ToastLevel::Success);
                Reloads { plugins: true, ..n }
            },
            Err(e) => {
                self.push_toast(cat("Uninstall failed: ", e.as_str()), ToastLevel::Error);
                n
            },
        }
    }

    /// The install request for curated plugin `idx` (none past the end):
    /// its GitHub clone URL, branch, and `owner/name` as a name hint.
    pub fn install_plugin_preset(&self, idx: usize) -> (r: Option<PluginInstall>)
        ensures
            install_plugin_preset_result(*self, idx, r),
    {
        if idx >= self.catalog.plugins.len() {
            return None;
        }
        let p = &self.catalog.plugins[idx];
        let mut url = cat4("https://github.com/", p.owner.as_str(), "/", p.name.as_str());
        url.append(".git");
        let hint = cat3(p.owner.as_str(), "/", p.name.as_str());
        Some(PluginInstall { url, branch: p.branch.clone(), name_hint: hint })
    }

    /// Outcome of installing a plugin: on success the plugin and skill views
    /// are refreshed and a toast lists what it brought.
    pub fn plugin_installed(&mut self, result: Result<Plugin, String>) -> (r: Reloads)
        ensures
            match result {
                Ok(p) => r == (Reloads { plugins: true, skills: true, ..Reloads::nothing_spec() })
                    && toasts_view(final(self).toasts@) == pushed(
                    old(self).toasts@,
                    "Installed "@ + p.name@ + " — "@ + decimal(p.skills as nat) + " skill(s), "@ + decimal(
                        p.commands as nat,
                    ) + " cmd(s), "@ + decimal(p.agents as nat) + " agent(s)"@,
                    ToastLevel::Success,
                    old(self).now_ms,
                ),
                Err(e) => r == Reloads::nothing_spec() && toasts_view(final(self).toasts@) == pushed(
                    old(self).toasts@,
                    "Plugin install failed: "@ + e@,
                    ToastLevel::Error,
                    old(self).now_ms,
                ),
            },
            *final(self) == (App { toasts: final(self).toasts, ..*old(self) }),
    {
        let n = Reloads::nothing();
        match result {
            Ok(p) => {
                let s = fmt_u64(p.skills as u64);
                let c = fmt_u64(p.commands as u64);
                let a = fmt_u64(p.agents as u64);
                let mut m = cat4("Installed ", p.name.as_str(), " — ", s.as_str());
                m.append(" skill(s), ");
                m.append(c.as_str());
                m.append(" cmd(s), ");
                m.append(a.as_str());
                m.append(" agent(s)");
                self.push_toast(m, ToastLevel::Success);
                Reloads { plugins: true, skills: true, ..n }
            },
            Err(e) => {
                self.push_toast(cat("Plugin install failed: ", e.as_str()), ToastLevel::Error);
                n
            },
        }
    }

    /// Replaces the snapshot rows; the focus is clamped, the delete arm kept.
    pub fn reload_backups(&mut self, snapshots: Vec<Snapshot>)
        ensures
            *final(self) == (App {
                backup_view: BackupView {
                    snapshots: snapshots,
                    focused_idx: clamp_focus(old(self).backup_view.focused_idx, snapshots@.len()),
                    ..old(self).backup_view
                },
                ..*old(self)
            }),
    {
        let f = clamp_focus_exec(self.backup_view.focused_idx, snapshots.len());
        self.backup_view.snapshots = snapshots;
        self.backup_view.focused_idx = f;
    }

    /// Moves the snapshot focus by `delta`, wrapping; nothing on an empty list.
    pub fn move_backup_focus(&mut self, delta: i32)
        requires
            old(self).backup_view.snapshots@.len() <= i32::MAX,
            old(self).backup_view.focused_idx <= i32::MAX,
            old(self).backup_view.focused_idx + delta <= i32::MAX,
        ensures
            move_backup_focus_effect(*old(self), *final(self), delta),
    {
        let n = self.backup_view.snapshots.len();
        if n == 0 {
            return;
        }
        self.backup_view.focused_idx = wrap_step(self.backup_view.focused_idx, delta, n);
    }

    /// Disarms a pending snapshot delete.
    pub fn clear_backup_delete_arm(&mut self)
        ensures
            clear_backup_delete_arm_effect(*old(self), *final(self)),
    {
        self.backup_view.delete_armed_at_ms = None;
    }

    /// Two-press delete of the focused snapshot, as for plugins; returns the
    /// timestamp of the snapshot to delete.
    pub fn delete_focused_snapshot(&mut self) -> (r: Option<String>)
        ensures
            delete_focused_snapshot_effect(*old(self), *final(self), r),
    {
        let i = self.backup_view.focused_idx;
        if i >= self.backup_view.snapshots.len() {
            self.push_toast(String::from_str("No snapshot to delete"), ToastLevel::Warning);
            return None;
        }
        let ts = self.backup_view.snapshots[i].timestamp.clone();
        let now = self.now_ms;
        if !armed_now(self.backup_view.delete_armed_at_ms, now) {
            self.backup_view.delete_armed_at_ms = Some(now);
            self.push_toast(cat("Press d again to delete snapshot ", ts.as_str()), ToastLevel::Warning);
            return None;
        }
        self.backup_view.delete_armed_at_ms = None;
        Some(ts)
    }

    /// Outcome of deleting snapshot `ts`.
    pub fn snapshot_deleted(&mut self, ts: &String, result: Result<(), String>) -> (r: Reloads)
        ensures
            match result {
                Ok(_) => r == (Reloads { backups: true, ..Reloads::nothing_spec() }) && toasts_view(final(self).toasts@)
                    == pushed(old(self).toasts@, "Deleted snapshot "@ + ts@, ToastLevel::Success, old(self).now_ms),
                Err(e) => r == Reloads::nothing_spec() && toasts_view(final(self).toasts@) == pushed(
                    old(self).toasts@,
                    "Delete failed: "@ + e@,
                    ToastLevel::Error,
                    old(self).now_ms,
                ),
            },
            *final(self) == (App { toasts: final(self).toasts, ..*old(self) }),
    {
        let n = Reloads::nothing();
        match result {
            Ok(_) => {
                self.push_toast(cat("Deleted snapshot ", ts.as_str()), ToastLevel::Success);
                Reloads { backups: true, ..n }
            },
            Err(e) => {
                self.push_toast(cat("Delete failed: ", e.as_str()), ToastLevel::Error);
                n
            },
        }
    }

    /// Outcome of creating a snapshot (its timestamp on success).
    pub fn snapshot_created(&mut self, result: Result<String, String>) -> (r: Reloads)
        ensures
            match result {
                Ok(ts) => r == (Reloads { backups: true, ..Reloads::nothing_spec() }) && toasts_view(final(self).toasts@)
                    == pushed(old(self).toasts@, "Snapshot created: "@ + ts@, ToastLevel::Success, old(self).now_ms),
                Err(e) => r == Reloads::nothing_spec() && toasts_view(final(self).toasts@) == pushed(
                    old(self).toasts@,
                    "Snapshot failed: "@ + e@,
                    ToastLevel::Error,
                    old(self).now_ms,
                ),
            },
            *final(self) == (App { toasts: final(self).toasts, ..*old(self) }),
    {
        let n = Reloads::nothing();
        match result {
            Ok(ts) => {
                self.push_toast(cat("Snapshot created: ", ts.as_str()), ToastLevel::Success);
                Reloads { backups: true, ..n }
            },
            Err(e) => {
                self.push_toast(cat("Snapshot failed: ", e.as_str()), ToastLevel::Error);
                n
            },
        }
    }

    /// The timestamp of the focused snapshot to restore; without one, a
    /// warning.
    pub fn restore_focused_snapshot(&mut self) -> (r: Option<String>)
        ensures
            restore_focused_snapshot_effect(*old(self), *final(self), r),
    {
        let i = self.backup_view.focused_idx;
        if i < self.backup_view.snapshots.len() {
            Some(self.backup_view.snapshots[i].timestamp.clone())
        } else {
            self.push_toast(String::from_str("No snapshot selected"), ToastLevel::Warning);
            None
        }
    }

    /// Outcome of restoring snapshot `ts`.
    pub fn snapshot_restored(&mut self, ts: &String, result: Result<(), String>)
        ensures
            match result {
                Ok(_) => toasts_view(final(self).toasts@) == pushed(old(self).toasts@, "Restored "@ + ts@, ToastLevel::Success, old(self).now_ms),
                Err(e) => toasts_view(final(self).toasts@) == pushed(
                    old(self).toasts@,
                    "Restore failed: "@ + e@,
                    ToastLevel::Error,
                    old(self).now_ms,
                ),
            },
            *final(self) == (App { toasts: final(self).toasts, ..*old(self) }),
    {
        match result {
            Ok(_) => self.push_toast(cat("Restored ", ts.as_str()), ToastLevel::Success),
            Err(e) => self.push_toast(cat("Restore failed: ", e.as_str()), ToastLevel::Error),
        }
    }
}

} // verus!
