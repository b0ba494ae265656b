//! Settings tab: the GitHub-backup rows and the theme.

use vstd::prelude::*;
use crate::app::{pushed, toasts_view, App};
use crate::tasks::ToastLevel;
use crate::text::{cat, pop_char, push_char, trim, trimmed, wrap, wrap_step};
use crate::views::{GithubBackup, Settings, SettingsRow, SettingsView, settings_row_at};

verus! {

/// A settings edit to persist; `ok_message` is the toast once it is saved.
#[derive(Debug)]
pub struct SettingsChange {
    pub ok_message: String,
}

/// "on" or "off".
pub open spec fn on_off(b: bool) -> Seq<char> {
    if b { "on"@ } else { "off"@ }
}

/// Position of a focused row (the first row when none is focused).
pub open spec fn row_pos(r: Option<SettingsRow>) -> int {
    match r {
        Some(x) => x.pos(),
        None => 0,
    }
}

/// Index of the first theme named `name` in `v` from `k` on.
pub open spec fn theme_pos_from(v: Seq<String>, name: Seq<char>, k: int) -> Option<int>
    decreases v.len() - k,
{
    if k < 0 || k >= v.len() {
        None
    } else if v[k]@ == name {
        Some(k)
    } else {
        theme_pos_from(v, name, k + 1)
    }
}

/// The theme after the active one in the list (after the first when the
/// active one is not listed), wrapping around.
pub open spec fn next_theme(v: Seq<String>, current: Seq<char>) -> String {
    let idx = match theme_pos_from(v, current, 0) {
        Some(k) => k,
        None => 0,
    };
    v[(idx + 1) % (v.len() as int)]
}

fn find_theme(v: &Vec<String>, name: &String) -> (r: Option<usize>)
    ensures
        r matches Some(k) ==> theme_pos_from(v@, name@, 0) == Some(k as int) && k < v@.len(),
        r is None ==> theme_pos_from(v@, name@, 0) is None,
{
    let n = v.len();
    let mut k: usize = 0;
    while k < n
        invariant
            n == v@.len(),
            k <= n,
            theme_pos_from(v@, name@, 0) == theme_pos_from(v@, name@, k as int),
        decreases n - k,
    {
        if v[k] == *name {
            return Some(k);
        }
        k = k + 1;
    }
    None
}

/// What `App::settings_input_push` does: `before` is the app before the call,
/// `after` the app after it.
pub open spec fn settings_input_push_effect(before: App, after: App, c: char) -> bool {
    match before.settings_view.input_buf {
        Some(b) => after.settings_view.input_buf matches Some(nb) && nb@ == b@.push(c)
            && after == (App {
            settings_view: SettingsView { input_buf: after.settings_view.input_buf, ..before.settings_view },
            ..before
        }),
        None => after == before,
    }
}

/// What `App::settings_input_pop` does: `before` is the app before the call,
/// `after` the app after it.
pub open spec fn settings_input_pop_effect(before: App, after: App) -> bool {
    match before.settings_view.input_buf {
        Some(b) => after.settings_view.input_buf matches Some(nb) && nb@ == (if b@.len() == 0 {
            b@
        } else {
            b@.drop_last()
        }) && after == (App {
            settings_view: SettingsView { input_buf: after.settings_view.input_buf, ..before.settings_view },
            ..before
        }),
        None => after == before,
    }
}

/// What `App::settings_input_cancel` does: `before` is the app before the call,
/// `after` the app after it.
pub open spec fn settings_input_cancel_effect(before: App, after: App) -> bool {
    after == (App {
        settings_view: SettingsView { input_buf: None, ..before.settings_view },
        ..before
    })
}

/// What `App::settings_input_commit` does: `before` is the app before the call,
/// `after` the app after it, `r` what it returns.
pub open spec fn settings_input_commit_effect(before: App, after: App, r: Option<SettingsChange>) -> bool {
    match before.settings_view.input_buf {
        None => r is None && after == before,
        Some(b) => match before.settings_view.focused_row {
            Some(SettingsRow::GhRepoUrl) => {
                &&& r matches Some(c) && c.ok_message@ == "Repo URL: "@ + b@
                &&& after.settings.github_backup.repo_url@ == b@
                &&& after == (App {
                    settings: Settings {
                        github_backup: GithubBackup {
                            repo_url: after.settings.github_backup.repo_url,
                            ..before.settings.github_backup
                        },
                        ..before.settings
                    },
                    settings_view: SettingsView { input_buf: None, ..before.settings_view },
                    ..before
                })
            },
            Some(SettingsRow::GhBranch) => {
                let v = if trimmed(b@).len() == 0 { "main"@ } else { b@ };
                &&& r matches Some(c) && c.ok_message@ == "Branch: "@ + v
                &&& after.settings.github_backup.branch@ == v
                &&& after == (App {
                    settings: Settings {
                        github_backup: GithubBackup {
                            branch: after.settings.github_backup.branch,
                            ..before.settings.github_backup
                        },
                        ..before.settings
                    },
                    settings_view: SettingsView { input_buf: None, ..before.settings_view },
                    ..before
                })
            },
            _ => r is None && after == (App {
                settings_view: SettingsView { input_buf: None, ..before.settings_view },
                ..before
            }),
        },
    }
}

/// What `App::move_settings_focus` does: `before` is the app before the call,
/// `after` the app after it.
pub open spec fn move_settings_focus_effect(before: App, after: App, delta: i32) -> bool {
    after == (App {
        settings_view: SettingsView {
            focused_row: Some(settings_row_at(wrap(row_pos(before.settings_view.focused_row), delta as int, 4))),
            input_buf: None,
        },
        ..before
    })
}

/// What `App::settings_begin_edit` does: `before` is the app before the call,
/// `after` the app after it.
pub open spec fn settings_begin_edit_effect(before: App, after: App) -> bool {
    match before.settings_view.focused_row {
        Some(SettingsRow::GhRepoUrl) => after == (App {
            settings_view: SettingsView {
                input_buf: Some(before.settings.github_backup.repo_url),
                ..before.settings_view
            },
            ..before
        }),
        Some(SettingsRow::GhBranch) => after == (App {
            settings_view: SettingsView {
                input_buf: Some(before.settings.github_backup.branch),
                ..before.settings_view
            },
            ..before
        }),
        _ => after == before,
    }
}

/// What `App::settings_toggle_focused` does: `before` is the app before the call,
/// `after` the app after it, `r` what it returns.
pub open spec fn settings_toggle_focused_effect(before: App, after: App, r: Option<SettingsChange>) -> bool {
    match before.settings_view.focused_row {
        Some(SettingsRow::GhEnabled) => {
            let b = !before.settings.github_backup.enabled;
            &&& r matches Some(c) && c.ok_message@ == "GitHub backup: "@ + on_off(b)
            &&& after == (App {
                settings: Settings {
                    github_backup: GithubBackup { enabled: b, ..before.settings.github_backup },
                    ..before.settings
                },
                ..before
            })
        },
        Some(SettingsRow::GhAutoSync) => {
            let b = !before.settings.github_backup.auto_sync;
            &&& r matches Some(c) && c.ok_message@ == "Auto-sync: "@ + on_off(b)
            &&& after == (App {
                settings: Settings {
                    github_backup: GithubBackup { auto_sync: b, ..before.settings.github_backup },
                    ..before.settings
                },
                ..before
            })
        },
        _ => r is None && after == before,
    }
}

/// What `App::cycle_theme` does: `before` is the app before the call,
/// `after` the app after it, `r` what it returns.
pub open spec fn cycle_theme_effect(before: App, after: App, r: Option<String>) -> bool {
    &&& before.available_themes@.len() == 0 ==> r is None && after == before
    &&& before.available_themes@.len() > 0 ==> {
        let next = next_theme(before.available_themes@, before.settings.theme@);
        &&& r == Some(next)
        &&& after == (App { settings: Settings { theme: next, ..before.settings }, ..before })
    }
}

impl App {
    /// Moves the focus over the four rows by `delta`, wrapping, and drops
    /// any edit in progress.
    pub fn move_settings_focus(&mut self, delta: i32)
        requires
            row_pos(old(self).settings_view.focused_row) + delta <= i32::MAX,
        ensures
            move_settings_focus_effect(*old(self), *final(self), delta),
    {
        let cur: usize = match self.settings_view.focused_row {
            Some(SettingsRow::GhEnabled) => 0,
            Some(SettingsRow::GhRepoUrl) => 1,
            Some(SettingsRow::GhBranch) => 2,
            Some(SettingsRow::GhAutoSync) => 3,
            None => 0,
        };
        let next = wrap_step(cur, delta, 4);
        let rows = SettingsRow::all();
        self.settings_view.focused_row = Some(rows[next]);
        self.settings_view.input_buf = None;
    }

    /// Flips the focused flag row (Enabled or Auto-sync) and returns the
    /// change to save; text rows and no focus change nothing.
    pub fn settings_toggle_focused(&mut self) -> (r: Option<SettingsChange>)
        ensures
            settings_toggle_focused_effect(*old(self), *final(self), r),
    {
        match self.settings_view.focused_row {
            Some(SettingsRow::GhEnabled) => {
                self.settings.github_backup.enabled = !self.settings.github_backup.enabled;
                let v = if self.settings.github_backup.enabled { "on" } else { "off" };
                proof {
                    reveal_strlit("on");
                    reveal_strlit("off");
                }
                Some(SettingsChange { ok_message: cat("GitHub backup: ", v) })
            },
            Some(SettingsRow::GhAutoSync) => {
                self.settings.github_backup.auto_sync = !self.settings.github_backup.auto_sync;
                let v = if self.settings.github_backup.auto_sync { "on" } else { "off" };
                proof {
                    reveal_strlit("on");
                    reveal_strlit("off");
                }
                Some(SettingsChange { ok_message: cat("Auto-sync: ", v) })
            },
            _ => None,
        }
    }

    /// Outcome of saving the settings: the change's toast, or an error.
    pub fn settings_saved(&mut self, change: &SettingsChange, result: Result<(), String>)
        ensures
            match result {
                Ok(_) => toasts_view(final(self).toasts@) == pushed(
                    old(self).toasts@,
                    change.ok_message@,
                    ToastLevel::Success,
                    old(self).now_ms,
                ),
                Err(e) => toasts_view(final(self).toasts@) == pushed(
                    old(self).toasts@,
                    "Save failed: "@ + e@,
                    ToastLevel::Error,
                    old(self).now_ms,
                ),
            },
            *final(self) == (App { toasts: final(self).toasts, ..*old(self) }),
    {
        match result {
            Ok(_) => self.push_toast(change.ok_message.clone(), ToastLevel::Success),
            Err(e) => self.push_toast(cat("Save failed: ", e.as_str()), ToastLevel::Error),
        }
    }

    /// Opens the inline editor on the focused text row with its current
    /// value; flag rows and no focus change nothing.
    pub fn settings_begin_edit(&mut self)
        ensures
            settings_begin_edit_effect(*old(self), *final(self)),
    {
        let current = match self.settings_view.focused_row {
            Some(SettingsRow::GhRepoUrl) => self.settings.github_backup.repo_url.clone(),
            Some(SettingsRow::GhBranch) => self.settings.github_backup.branch.clone(),
            _ => return,
        };
        self.settings_view.input_buf = Some(current);
    }

    /// Types a character into the open editor.
    pub fn settings_input_push(&mut self, c: char)
        ensures
            settings_input_push_effect(*old(self), *final(self), c),
    {
        if let Some(mut b) = self.settings_view.input_buf.take() {
            push_char(&mut b, c);
            self.settings_view.input_buf = Some(b);
        }
    }

    /// Deletes the editor's last character, if any.
    pub fn settings_input_pop(&mut self)
        ensures
            settings_input_pop_effect(*old(self), *final(self)),
    {
        if let Some(mut b) = self.settings_view.input_buf.take() {
            let _ = pop_char(&mut b);
            self.settings_view.input_buf = Some(b);
        }
    }

    /// Closes the editor, discarding its text.
    pub fn settings_input_cancel(&mut self)
        ensures
            settings_input_cancel_effect(*old(self), *final(self)),
    {
        self.settings_view.input_buf = None;
    }

    /// Closes the editor and stores its text in the focused row; a blank
    /// branch becomes `main`. Returns the change to save.
    pub fn settings_input_commit(&mut self) -> (r: Option<SettingsChange>)
        ensures
            settings_input_commit_effect(*old(self), *final(self), r),
    {
        let buf = match self.settings_view.input_buf.take() {
            Some(b) => b,
            None => return None,
        };
        match self.settings_view.focused_row {
            Some(SettingsRow::GhRepoUrl) => {
                let msg = cat("Repo URL: ", buf.as_str());
                self.settings.github_backup.repo_url = buf;
                Some(SettingsChange { ok_message: msg })
            },
            Some(SettingsRow::GhBranch) => {
                let t = trim(buf.as_str());
                let blank = t.as_str().is_empty();
                let val = if blank { String::from_str("main") } else { buf };
                let msg = cat("Branch: ", val.as_str());
                self.settings.github_backup.branch = val;
                Some(SettingsChange { ok_message: msg })
            },
            _ => None,
        }
    }

    /// Makes the theme after the active one current and returns its slug
    /// (for the host to load and save); nothing without themes.
    pub fn cycle_theme(&mut self) -> (r: Option<String>)
        ensures
            cycle_theme_effect(*old(self), *final(self), r),
    {
        let n = self.available_themes.len();
        if n == 0 {
            return None;
        }
        let idx = match find_theme(&self.available_themes, &self.settings.theme) {
            Some(k) => k,
            None => 0,
        };
        let next_idx = (idx + 1) % n;
        let next = self.available_themes[next_idx].clone();
        self.settings.theme = next.clone();
        Some(next)
    }

    /// Outcome of saving the new theme.
    pub fn theme_saved(&mut self, slug: &String, result: Result<(), String>)
        ensures
            match result {
                Ok(_) => toasts_view(final(self).toasts@) == pushed(old(self).toasts@, "Theme: "@ + slug@, ToastLevel::Info, old(self).now_ms),
                Err(e) => toasts_view(final(self).toasts@) == pushed(
                    old(self).toasts@,
                    "Could not save theme: "@ + e@,
                    ToastLevel::Warning,
                    old(self).now_ms,
                ),
            },
            *final(self) == (App { toasts: final(self).toasts, ..*old(self) }),
    {
        match result {
            Ok(_) => self.push_toast(cat("Theme: ", slug.as_str()), ToastLevel::Info),
            Err(e) => self.push_toast(cat("Could not save theme: ", e.as_str()), ToastLevel::Warning),
        }
    }
}

} // verus!
