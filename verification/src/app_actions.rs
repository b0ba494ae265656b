//! Actions that need the store: each returns what the host should carry out,
//! and a companion method takes the outcome (toast and views to refresh).

use vstd::prelude::*;
use crate::app::{pushed, toasts_view, App};
use crate::app_mcp::focused_mcp_spec;
use crate::app_profiles::{focused_agent_spec, ProfileSwitch};
use crate::app_rules::focused_rule_spec;
use crate::app_popups::MethodChange;
use crate::app_skills::focused_skill_spec;
use crate::tasks::{completed_log, job_started, log_cap, task_reloads_spec, task_toast_spec, Reloads, TaskLogEntry, TaskStatus, ToastLevel};
use crate::text::{cat, cat3, decimal, fmt_u64};
use crate::views::Settings;

verus! {

/// How a long job runs: queued on the host's worker (with its log id), or
/// right away by the host.
#[derive(Debug, Clone, Copy, PartialEq, Eq, Structural)]
pub enum RunMode {
    Background(u64),
    Inline,
}

/// `n` in decimal followed by `suffix`.
pub open spec fn count_text(n: nat, suffix: Seq<char>) -> Seq<char> {
    decimal(n) + suffix
}

fn count_msg(n: usize, prefix: &str, suffix: &str) -> (r: String)
    ensures
        r@ == prefix@ + decimal(n as nat) + suffix@,
{
    let d = fmt_u64(n as u64);
    cat3(prefix, d.as_str(), suffix)
}

/// The reload set naming one view.
pub open spec fn only_profiles() -> Reloads {
    Reloads { profiles: true, ..Reloads::nothing_spec() }
}

pub open spec fn only_skills() -> Reloads {
    Reloads { skills: true, ..Reloads::nothing_spec() }
}

pub open spec fn only_mcp() -> Reloads {
    Reloads { mcp: true, ..Reloads::nothing_spec() }
}

pub open spec fn only_rules() -> Reloads {
    Reloads { rules: true, ..Reloads::nothing_spec() }
}

/// The profile to switch to, as `switch_focused_profile` picks it.
pub open spec fn switch_target(app: App) -> Option<(usize, int)> {
    let a = focused_agent_spec(app);
    if a < app.profile_views@.len() {
        let v = app.profile_views@[a as int];
        Some((a, v.selected as int))
    } else {
        None
    }
}

/// What `App::switch_focused_profile` does: `before` is the app before the call,
/// `after` the app after it, `r` what it returns.
pub open spec fn switch_focused_profile_effect(before: App, after: App, r: Option<ProfileSwitch>) -> bool {
    match switch_target(before) {
        None => r is None && after == before,
        Some((a, sel)) => {
            let v = before.profile_views@[a as int];
            if sel < v.profiles@.len() {
                &&& r matches Some(q) && q.agent == a && q.profile_id == v.profiles@[sel].id
                    && q.profile_name == v.profiles@[sel].name
                &&& after == before
            } else {
                &&& r is None
                &&& (a as int) < before.agents@.len() ==> toasts_view(after.toasts@) == pushed(
                    before.toasts@,
                    "No profile to switch to for "@ + before.agents@[a as int].display_name@,
                    ToastLevel::Warning,
                    before.now_ms,
                )
                &&& after == (App { toasts: after.toasts, ..before })
            }
        },
    }
}

/// What `App::sync_selected_skills` does: `before` is the app before the call,
/// `after` the app after it, `r` what it returns.
pub open spec fn sync_selected_skills_effect(before: App, after: App, r: Option<Vec<String>>) -> bool {
    &&& before.skills_view.selected_ids@.len() == 0 ==> r is None && toasts_view(after.toasts@)
        == pushed(before.toasts@, "No skills selected"@, ToastLevel::Warning, before.now_ms)
        && after == (App { toasts: after.toasts, ..before })
    &&& before.skills_view.selected_ids@.len() > 0 ==> (r matches Some(ids) && ids@
        == before.skills_view.selected_ids@ && after == before)
}

/// What `App::sync_focused_skill` does: `before` is the app before the call,
/// `after` the app after it, `r` what it returns.
pub open spec fn sync_focused_skill_effect(before: App, after: App, r: Option<(String, String)>) -> bool {
    match focused_skill_spec(before.skills_view) {
        Some(s) => r == Some((s.id, s.name)) && after == before,
        None => r is None && toasts_view(after.toasts@) == pushed(
            before.toasts@,
            "No skill to sync"@,
            ToastLevel::Warning,
            before.now_ms,
        ) && after == (App { toasts: after.toasts, ..before }),
    }
}

/// What `App::cycle_focused_skill_method` returns (`r`) on the app `app`.
pub open spec fn cycle_focused_skill_method_result(app: App, r: Option<MethodChange>) -> bool {
    match focused_skill_spec(app.skills_view) {
        None => r is None,
        Some(s) => r matches Some(c) && c.skill_id == s.id && c.row_name == s.name && c.method
            == s.sync_method.next_spec(),
    }
}

/// What `App::delete_focused_mcp` returns (`r`) on the app `app`.
pub open spec fn delete_focused_mcp_result(app: App, r: Option<(String, String)>) -> bool {
    match focused_mcp_spec(app.mcp_view) {
        Some(s) => r == Some((s.id, s.name)),
        None => r is None,
    }
}

/// What `App::delete_focused_rule` returns (`r`) on the app `app`.
pub open spec fn delete_focused_rule_result(app: App, r: Option<(String, String)>) -> bool {
    match focused_rule_spec(app.rules_view) {
        Some(s) => r == Some((s.id, s.name)),
        None => r is None,
    }
}

/// `k` is the first position of the log `s` holding the job with id `id`.
pub open spec fn first_with_id(s: Seq<TaskLogEntry>, id: u64, k: int) -> bool {
    &&& 0 <= k < s.len()
    &&& s[k].id == id
    &&& forall|j: int| 0 <= j < k ==> s[j].id != id
}

/// What `App::task_finished` does: `before` is the app before the call,
/// `after` the app after it, `r` what it returns. The job's log entry takes
/// the status; a job still in the log raises the toast its status calls
/// for and names the views it made stale; an id no longer in the log
/// changes nothing else.
pub open spec fn task_finished_effect(before: App, after: App, id: u64, status: TaskStatus, r: Reloads) -> bool {
    &&& after.tasks.entries@ == completed_log(before.tasks.entries@, id, status, before.now_ms)
    &&& after.tasks.next_id == before.tasks.next_id
    &&& after == (App { tasks: after.tasks, toasts: after.toasts, ..before })
    &&& (forall|k: int| 0 <= k < before.tasks.entries@.len() ==> before.tasks.entries@[k].id != id)
        ==> r == Reloads::nothing_spec() && after.toasts == before.toasts
    &&& forall|k: int| #[trigger] first_with_id(before.tasks.entries@, id, k) ==> {
        let name = before.tasks.entries@[k].name@;
        &&& r == task_reloads_spec(name)
        &&& match task_toast_spec(name, status) {
            Some((l, m)) => toasts_view(after.toasts@) == pushed(before.toasts@, m, l, before.now_ms),
            None => after.toasts == before.toasts,
        }
    }
}

/// A job that fails is always reported: once `task_finished` records the
/// failure `e` of a job named `n` that is in the log, the newest toast is
/// an error reading "`n` failed: `e`", stamped with the current time.
pub proof fn lemma_failed_job_is_reported(before: App, after: App, id: u64, e: String, r: Reloads, k: int)
    requires
        task_finished_effect(before, after, id, TaskStatus::Failed(e), r),
        first_with_id(before.tasks.entries@, id, k),
    ensures
        after.toasts@.len() > 0,
        after.toasts@.last().level == ToastLevel::Error,
        after.toasts@.last().message@ == before.tasks.entries@[k].name@ + " failed: "@ + e@,
        after.toasts@.last().created_at_ms == before.now_ms,
{
    let m = before.tasks.entries@[k].name@ + " failed: "@ + e@;
    crate::app::lemma_toasts_capped(before.toasts@, m, ToastLevel::Error, before.now_ms);
    let v = toasts_view(after.toasts@);
    assert(v.len() == after.toasts@.len());
    assert(v[v.len() - 1] == crate::views::toast_view(after.toasts@[after.toasts@.len() - 1]));
}

/// A job that succeeds with a message is reported too: the newest toast is
/// a success reading "`n`: `message`".
pub proof fn lemma_done_job_is_reported(before: App, after: App, id: u64, msg: String, r: Reloads, k: int)
    requires
        task_finished_effect(before, after, id, TaskStatus::Done(msg), r),
        first_with_id(before.tasks.entries@, id, k),
        msg@.len() > 0,
    ensures
        after.toasts@.len() > 0,
        after.toasts@.last().level == ToastLevel::Success,
        after.toasts@.last().message@ == before.tasks.entries@[k].name@ + ": "@ + msg@,
{
    let m = before.tasks.entries@[k].name@ + ": "@ + msg@;
    crate::app::lemma_toasts_capped(before.toasts@, m, ToastLevel::Success, before.now_ms);
    let v = toasts_view(after.toasts@);
    assert(v.len() == after.toasts@.len());
    assert(v[v.len() - 1] == crate::views::toast_view(after.toasts@[after.toasts@.len() - 1]));
}

/// Finishing a job never touches anything but the activity log and the
/// toasts, and a job that is not (or no longer) in the log leaves the toasts
/// as they were.
pub proof fn lemma_finish_touches_log_and_toasts(before: App, after: App, id: u64, status: TaskStatus, r: Reloads)
    requires
        task_finished_effect(before, after, id, status, r),
    ensures
        after.skills_view == before.skills_view,
        after.settings == before.settings,
        after.active_tab == before.active_tab,
        (forall|k: int| 0 <= k < before.tasks.entries@.len() ==> before.tasks.entries@[k].id != id)
            ==> after.toasts == before.toasts,
{
}

impl App {
    /// Queues a background job named `name` in the activity log and returns
    /// its id.
    pub fn submit_task(&mut self, name: String) -> (id: u64)
        requires
            old(self).tasks.next_id < u64::MAX,
        ensures
            id == old(self).tasks.next_id,
            final(self).tasks.next_id == old(self).tasks.next_id + 1,
            final(self).tasks.entries@ == (seq![
                TaskLogEntry {
                    id: id,
                    name: name,
                    started_at_ms: old(self).now_ms,
                    finished_at_ms: None,
                    status: TaskStatus::Running,
                },
            ] + old(self).tasks.entries@).take(
                if old(self).tasks.entries@.len() + 1 > log_cap() {
                    log_cap() as int
                } else {
                    (old(self).tasks.entries@.len() + 1) as int
                },
            ),
            job_started(old(self).tasks, final(self).tasks, name@, old(self).now_ms),
            *final(self) == (App { tasks: final(self).tasks, ..*old(self) }),
    {
        let now = self.now_ms;
        self.tasks.begin(name, now)
    }

    /// A background job finished: its log entry takes the status, its toast
    /// (if any) is shown, and the views it affects are returned. An id no
    /// longer in the log changes nothing.
    pub fn task_finished(&mut self, id: u64, status: TaskStatus) -> (r: Reloads)
        ensures
            final(self).tasks.entries@ == crate::tasks::completed_log(old(self).tasks.entries@, id, status, old(self).now_ms),
            final(self).tasks.next_id == old(self).tasks.next_id,
            (forall|k: int| 0 <= k < old(self).tasks.entries@.len() ==> old(self).tasks.entries@[k].id != id)
                ==> r == Reloads::nothing_spec() && final(self).toasts == old(self).toasts,
            *final(self) == (App { tasks: final(self).tasks, toasts: final(self).toasts, ..*old(self) }),
            task_finished_effect(*old(self), *final(self), id, status, r),
    {
        let ghost before = *self;
        let ghost st = status;
        let now = self.now_ms;
        let done = self.tasks.complete(id, status, now);
        match done {
            Some(entry) => {
                proof {
                    let k0 = choose|k: int|
                        0 <= k < before.tasks.entries@.len() && before.tasks.entries@[k].id == id && (forall|j: int|
                            0 <= j < k ==> before.tasks.entries@[j].id != id) && entry == (TaskLogEntry {
                            status: st,
                            finished_at_ms: Some(now),
                            ..before.tasks.entries@[k]
                        }) && #[trigger] self.tasks.entries@[k] == entry;
                    assert forall|k: int| #[trigger] first_with_id(before.tasks.entries@, id, k) implies k == k0 by {
                        if k < k0 {
                            assert(before.tasks.entries@[k].id == id);
                        } else if k > k0 {
                            assert(before.tasks.entries@[k0].id == id);
                        }
                    }
                    assert(first_with_id(before.tasks.entries@, id, k0));
                }
                let reloads = crate::tasks::reloads_for_task(entry.name.as_str());
                if let Some((level, msg)) = crate::tasks::toast_for_task(&entry) {
                    self.push_toast(msg, level);
                }
                reloads
            },
            None => Reloads::nothing(),
        }
    }

    /// The profile switch for the focused agent's highlighted row. When that
    /// agent's list has no such row a warning names the agent; when the agent
    /// has no list nothing happens.
    pub fn switch_focused_profile(&mut self) -> (r: Option<ProfileSwitch>)
        ensures
            switch_focused_profile_effect(*old(self), *final(self), r),
    {
        let a = self.focused_agent();
        if a >= self.profile_views.len() {
            return None;
        }
        let sel = self.profile_views[a].selected;
        if sel < self.profile_views[a].profiles.len() {
            let p = &self.profile_views[a].profiles[sel];
            return Some(ProfileSwitch { agent: a, profile_id: p.id.clone(), profile_name: p.name.clone() });
        }
        let name = if a < self.agents.len() { self.agents[a].display_name.clone() } else { String::new() };
        self.push_toast(cat("No profile to switch to for ", name.as_str()), ToastLevel::Warning);
        None
    }

    /// Outcome of a profile switch. On success the agent's live profile
    /// becomes the switched-to one. Either way the profiles are reloaded.
    pub fn profile_switched(&mut self, sw: &ProfileSwitch, result: Result<(), String>) -> (r: Reloads)
        ensures
            r == only_profiles(),
            match result {
                Ok(_) => {
                    &&& (sw.agent as int) < old(self).settings.current_profiles@.len() ==> final(self).settings.current_profiles@
                        == old(self).settings.current_profiles@.update(sw.agent as int, Some(sw.profile_id))
                    &&& (sw.agent as int) >= old(self).settings.current_profiles@.len() ==> final(self).settings.current_profiles
                        == old(self).settings.current_profiles
                    &&& (sw.agent as int) < old(self).agents@.len() ==> toasts_view(final(self).toasts@) == pushed(
                        old(self).toasts@,
                        "Switched "@ + old(self).agents@[sw.agent as int].display_name@ + " to "@ + sw.profile_name@,
                        ToastLevel::Success,
                        old(self).now_ms,
                    )
                    &&& *final(self) == (App {
                        toasts: final(self).toasts,
                        settings: Settings { current_profiles: final(self).settings.current_profiles, ..old(self).settings },
                        ..*old(self)
                    })
                },
                Err(e) => {
                    &&& toasts_view(final(self).toasts@) == pushed(
                        old(self).toasts@,
                        "Switch failed: "@ + e@,
                        ToastLevel::Error,
                        old(self).now_ms,
                    )
                    &&& *final(self) == (App { toasts: final(self).toasts, ..*old(self) })
                },
            },
    {
        match result {
            Ok(_) => {
                if sw.agent < self.settings.current_profiles.len() {
                    self.settings.current_profiles.set(sw.agent, Some(sw.profile_id.clone()));
                }
                let name = if sw.agent < self.agents.len() {
                    self.agents[sw.agent].display_name.clone()
                } else {
                    String::new()
                };
                let mut m = cat3("Switched ", name.as_str(), " to ");
                m.append(sw.profile_name.as_str());
                self.push_toast(m, ToastLevel::Success);
            },
            Err(e) => self.push_toast(cat("Switch failed: ", e.as_str()), ToastLevel::Error),
        }
        Reloads { profiles: true, ..Reloads::nothing() }
    }

    /// Outcome of importing profiles from the live configs (count found).
    pub fn profiles_imported(&mut self, result: Result<usize, String>) -> (r: Reloads)
        ensures
            match result {
                Ok(n) => r == only_profiles() && toasts_view(final(self).toasts@) == pushed(
                    old(self).toasts@,
                    "Imported "@ + decimal(n as nat) + " profile(s) from live configs"@,
                    ToastLevel::Success,
                    old(self).now_ms,
                ),
                Err(e) => r == Reloads::nothing_spec() && toasts_view(final(self).toasts@) == pushed(
                    old(self).toasts@,
                    "Import failed: "@ + e@,
                    ToastLevel::Error,
                    old(self).now_ms,
                ),
            },
            *final(self) == (App { toasts: final(self).toasts, ..*old(self) }),
    {
        match result {
            Ok(n) => {
                self.push_toast(count_msg(n, "Imported ", " profile(s) from live configs"), ToastLevel::Success);
                Reloads { profiles: true, ..Reloads::nothing() }
            },
            Err(e) => {
                self.push_toast(cat("Import failed: ", e.as_str()), ToastLevel::Error);
                Reloads::nothing()
            },
        }
    }

    /// Outcome of importing skills from the live agent directories.
    pub fn skills_imported(&mut self, result: Result<usize, String>) -> (r: Reloads)
        ensures
            match result {
                Ok(n) => r == only_skills() && toasts_view(final(self).toasts@) == pushed(
                    old(self).toasts@,
                    "Imported "@ + decimal(n as nat) + " skill(s) from live configs"@,
                    ToastLevel::Success,
                    old(self).now_ms,
                ),
                Err(e) => r == Reloads::nothing_spec() && toasts_view(final(self).toasts@) == pushed(
                    old(self).toasts@,
                    "Import failed: "@ + e@,
                    ToastLevel::Error,
                    old(self).now_ms,
                ),
            },
            *final(self) == (App { toasts: final(self).toasts, ..*old(self) }),
    {
        match result {
            Ok(n) => {
                self.push_toast(count_msg(n, "Imported ", " skill(s) from live configs"), ToastLevel::Success);
                Reloads { skills: true, ..Reloads::nothing() }
            },
            Err(e) => {
                self.push_toast(cat("Import failed: ", e.as_str()), ToastLevel::Error);
                Reloads::nothing()
            },
        }
    }

    /// Outcome of importing rules from the live configs.
    pub fn rules_imported(&mut self, result: Result<usize, String>) -> (r: Reloads)
        ensures
            match result {
                Ok(n) => r == only_rules() && toasts_view(final(self).toasts@) == pushed(
                    old(self).toasts@,
                    "Imported "@ + decimal(n as nat) + " rule(s) from live configs"@,
                    ToastLevel::Success,
                    old(self).now_ms,
                ),
                Err(e) => r == Reloads::nothing_spec() && toasts_view(final(self).toasts@) == pushed(
                    old(self).toasts@,
                    "Import failed: "@ + e@,
                    ToastLevel::Error,
                    old(self).now_ms,
                ),
            },
            *final(self) == (App { toasts: final(self).toasts, ..*old(self) }),
    {
        match result {
            Ok(n) => {
                self.push_toast(count_msg(n, "Imported ", " rule(s) from live configs"), ToastLevel::Success);
                Reloads { rules: true, ..Reloads::nothing() }
            },
            Err(e) => {
                self.push_toast(cat("Import failed: ", e.as_str()), ToastLevel::Error);
                Reloads::nothing()
            },
        }
    }

    /// Outcome of importing MCP servers from the live configs.
    pub fn mcp_imported(&mut self, result: Result<usize, String>) -> (r: Reloads)
        ensures
            match result {
                Ok(n) => r == only_mcp() && toasts_view(final(self).toasts@) == pushed(
                    old(self).toasts@,
                    "Imported "@ + decimal(n as nat) + " MCP server(s) from live configs"@,
                    ToastLevel::Success,
                    old(self).now_ms,
                ),
                Err(e) => r == Reloads::nothing_spec() && toasts_view(final(self).toasts@) == pushed(
                    old(self).toasts@,
                    "Import failed: "@ + e@,
                    ToastLevel::Error,
                    old(self).now_ms,
                ),
            },
            *final(self) == (App { toasts: final(self).toasts, ..*old(self) }),
    {
        match result {
            Ok(n) => {
                self.push_toast(count_msg(n, "Imported ", " MCP server(s) from live configs"), ToastLevel::Success);
                Reloads { mcp: true, ..Reloads::nothing() }
            },
            Err(e) => {
                self.push_toast(cat("Import failed: ", e.as_str()), ToastLevel::Error);
                Reloads::nothing()
            },
        }
    }

    /// Whether the first-launch import should run: no profiles, skills,
    /// rules or MCP servers are loaded.
    pub fn needs_auto_import(&self) -> (r: bool)
        ensures
            r == ((forall|i: int| 0 <= i < self.profile_views@.len() ==> (#[trigger] self.profile_views@[i]).profiles@.len() == 0)
                && self.skills_view.skills@.len() == 0 && self.rules_view.rules@.len() == 0
                && self.mcp_view.servers@.len() == 0),
    {
        let n = self.profile_views.len();
        let mut k: usize = 0;
        while k < n
            invariant
                n == self.profile_views@.len(),
                k <= n,
                forall|i: int| 0 <= i < k ==> (#[trigger] self.profile_views@[i]).profiles@.len() == 0,
            decreases n - k,
        {
            if self.profile_views[k].profiles.len() != 0 {
                return false;
            }
            k = k + 1;
        }
        self.skills_view.skills.len() == 0 && self.rules_view.rules.len() == 0 && self.mcp_view.servers.len() == 0
    }

    /// Outcome of the first-launch import: one summary toast when anything
    /// was found.
    pub fn auto_imported(&mut self, profiles: usize, skills: usize, rules: usize, mcp: usize)
        ensures
            profiles + skills + rules + mcp > 0 ==> toasts_view(final(self).toasts@) == pushed(
                old(self).toasts@,
                "Imported "@ + decimal(profiles as nat) + " profile(s), "@ + decimal(skills as nat) + " skill(s), "@
                    + decimal(rules as nat) + " rule(s), "@ + decimal(mcp as nat) + " MCP server(s)"@,
                ToastLevel::Info,
                old(self).now_ms,
            ),
            profiles + skills + rules + mcp == 0 ==> *final(self) == *old(self),
            *final(self) == (App { toasts: final(self).toasts, ..*old(self) }),
    {
        if profiles > 0 || skills > 0 || rules > 0 || mcp > 0 {
            let mut m = count_msg(profiles, "Imported ", " profile(s), ");
            m.append(count_msg(skills, "", " skill(s), ").as_str());
            m.append(count_msg(rules, "", " rule(s), ").as_str());
            m.append(count_msg(mcp, "", " MCP server(s)").as_str());
            proof {
                reveal_strlit("");
                assert(m@ =~= "Imported "@ + decimal(profiles as nat) + " profile(s), "@ + decimal(skills as nat)
                    + " skill(s), "@ + decimal(rules as nat) + " rule(s), "@ + decimal(mcp as nat)
                    + " MCP server(s)"@);
            }
            self.push_toast(m, ToastLevel::Info);
        }
    }

    /// The change for "cycle the focused skill's method": its id, name and
    /// the method after its current one.
    pub fn cycle_focused_skill_method(&self) -> (r: Option<MethodChange>)
        ensures
            cycle_focused_skill_method_result(*self, r),
    {
        match self.focused_skill() {
            Some(s) => Some(MethodChange { skill_id: s.id.clone(), row_name: s.name.clone(), method: s.sync_method.cycle() }),
            None => None,
        }
    }

    /// Outcome of storing a cycled method.
    pub fn cycled_method_stored(&mut self, change: &MethodChange, result: Result<(), String>) -> (r: Reloads)
        ensures
            match result {
                Ok(_) => r == only_skills() && toasts_view(final(self).toasts@) == pushed(
                    old(self).toasts@,
                    "Sync method → "@ + change.method.label(),
                    ToastLevel::Success,
                    old(self).now_ms,
                ),
                Err(e) => r == Reloads::nothing_spec() && toasts_view(final(self).toasts@) == pushed(
                    old(self).toasts@,
                    "Change failed: "@ + e@,
                    ToastLevel::Error,
                    old(self).now_ms,
                ),
            },
            *final(self) == (App { toasts: final(self).toasts, ..*old(self) }),
    {
        match result {
            Ok(_) => {
                let m = change.method.as_str();
                self.push_toast(cat("Sync method → ", m.as_str()), ToastLevel::Success);
                Reloads { skills: true, ..Reloads::nothing() }
            },
            Err(e) => {
                self.push_toast(cat("Change failed: ", e.as_str()), ToastLevel::Error);
                Reloads::nothing()
            },
        }
    }

    /// The focused skill to sync (id and name); without one, a warning.
    pub fn sync_focused_skill(&mut self) -> (r: Option<(String, String)>)
        ensures
            sync_focused_skill_effect(*old(self), *final(self), r),
    {
        let found = match self.focused_skill() {
            Some(s) => Some((s.id.clone(), s.name.clone())),
            None => None,
        };
        if found.is_none() {
            self.push_toast(String::from_str("No skill to sync"), ToastLevel::Warning);
        }
        found
    }

    /// Outcome of syncing one skill.
    pub fn skill_synced(&mut self, name: &String, result: Result<(), String>)
        ensures
            match result {
                Ok(_) => toasts_view(final(self).toasts@) == pushed(old(self).toasts@, "Synced "@ + name@, ToastLevel::Success, old(self).now_ms),
                Err(e) => toasts_view(final(self).toasts@) == pushed(
                    old(self).toasts@,
                    "Sync failed: "@ + e@,
                    ToastLevel::Error,
                    old(self).now_ms,
                ),
            },
            *final(self) == (App { toasts: final(self).toasts, ..*old(self) }),
    {
        match result {
            Ok(_) => self.push_toast(cat("Synced ", name.as_str()), ToastLevel::Success),
            Err(e) => self.push_toast(cat("Sync failed: ", e.as_str()), ToastLevel::Error),
        }
    }

    /// The selected skill ids to sync; with none selected, a warning.
    pub fn sync_selected_skills(&mut self) -> (r: Option<Vec<String>>)
        ensures
            sync_selected_skills_effect(*old(self), *final(self), r),
    {
        if self.skills_view.selected_ids.len() == 0 {
            self.push_toast(String::from_str("No skills selected"), ToastLevel::Warning);
            return None;
        }
        let mut ids: Vec<String> = Vec::new();
        let n = self.skills_view.selected_ids.len();
        for i in 0..n
            invariant
                n == self.skills_view.selected_ids@.len(),
                ids@ == self.skills_view.selected_ids@.take(i as int),
        {
            ids.push(self.skills_view.selected_ids[i].clone());
            assert(ids@ =~= self.skills_view.selected_ids@.take(i + 1));
        }
        assert(self.skills_view.selected_ids@.take(n as int) =~= self.skills_view.selected_ids@);
        Some(ids)
    }

    /// Outcome of syncing `count` selected skills.
    pub fn selected_skills_synced(&mut self, count: usize, result: Result<(), String>)
        ensures
            match result {
                Ok(_) => toasts_view(final(self).toasts@) == pushed(
                    old(self).toasts@,
                    "Synced "@ + decimal(count as nat) + " skills"@,
                    ToastLevel::Success,
                    old(self).now_ms,
                ),
                Err(e) => toasts_view(final(self).toasts@) == pushed(
                    old(self).toasts@,
                    "Sync failed: "@ + e@,
                    ToastLevel::Error,
                    old(self).now_ms,
                ),
            },
            *final(self) == (App { toasts: final(self).toasts, ..*old(self) }),
    {
        match result {
            Ok(_) => self.push_toast(count_msg(count, "Synced ", " skills"), ToastLevel::Success),
            Err(e) => self.push_toast(cat("Sync failed: ", e.as_str()), ToastLevel::Error),
        }
    }

    /// Starts "sync every skill": a warning when there are none; otherwise
    /// queued as the background job "Sync all skills" (with an info toast)
    /// when `background`, else left to the host to run inline.
    pub fn sync_all_skills(&mut self, background: bool) -> (r: Option<RunMode>)
        requires
            old(self).tasks.next_id < u64::MAX,
        ensures
            ({
                let count = old(self).skills_view.skills@.len();
                if count == 0 {
                    &&& r is None
                    &&& toasts_view(final(self).toasts@) == pushed(old(self).toasts@, "No skills to sync"@, ToastLevel::Warning, old(self).now_ms)
                    &&& *final(self) == (App { toasts: final(self).toasts, ..*old(self) })
                } else if background {
                    &&& r == Some(RunMode::Background(old(self).tasks.next_id))
                    &&& job_started(old(self).tasks, final(self).tasks, "Sync all skills"@, old(self).now_ms)
                    &&& toasts_view(final(self).toasts@) == pushed(
                        old(self).toasts@,
                        "Syncing "@ + decimal(count) + " skills in background…"@,
                        ToastLevel::Info,
                        old(self).now_ms,
                    )
                    &&& *final(self) == (App { toasts: final(self).toasts, tasks: final(self).tasks, ..*old(self) })
                } else {
                    r == Some(RunMode::Inline) && *final(self) == *old(self)
                }
            }),
    {
        let count = self.skills_view.skills.len();
        if count == 0 {
            self.push_toast(String::from_str("No skills to sync"), ToastLevel::Warning);
            return None;
        }
        if background {
            let id = self.submit_task(String::from_str("Sync all skills"));
            self.push_toast(count_msg(count, "Syncing ", " skills in background…"), ToastLevel::Info);
            Some(RunMode::Background(id))
        } else {
            Some(RunMode::Inline)
        }
    }

    /// Outcome of syncing every skill inline.
    pub fn all_skills_synced(&mut self, result: Result<(), String>)
        ensures
            match result {
                Ok(_) => toasts_view(final(self).toasts@) == pushed(
                    old(self).toasts@,
                    "Synced all "@ + decimal(old(self).skills_view.skills@.len()) + " skills"@,
                    ToastLevel::Success,
                    old(self).now_ms,
                ),
                Err(e) => toasts_view(final(self).toasts@) == pushed(
                    old(self).toasts@,
                    "Sync failed: "@ + e@,
                    ToastLevel::Error,
                    old(self).now_ms,
                ),
            },
            *final(self) == (App { toasts: final(self).toasts, ..*old(self) }),
    {
        let count = self.skills_view.skills.len();
        match result {
            Ok(_) => self.push_toast(count_msg(count, "Synced all ", " skills"), ToastLevel::Success),
            Err(e) => self.push_toast(cat("Sync failed: ", e.as_str()), ToastLevel::Error),
        }
    }

    /// Label of the focused skill's sync method, `-` without a focused skill.
    pub fn focused_sync_method_label(&self) -> (r: String)
        ensures
            match focused_skill_spec(self.skills_view) {
                Some(s) => r@ == s.sync_method.label(),
                None => r@ == "-"@,
            },
    {
        match self.focused_skill() {
            Some(s) => s.sync_method.as_str(),
            None => String::from_str("-"),
        }
    }

    /// Starts "sync every MCP server": queued as the background job "Sync
    /// all MCP" (with an info toast) when `background`, else inline.
    pub fn sync_all_mcp(&mut self, background: bool) -> (r: RunMode)
        requires
            old(self).tasks.next_id < u64::MAX,
        ensures
            background ==> {
                &&& r == RunMode::Background(old(self).tasks.next_id)
                &&& job_started(old(self).tasks, final(self).tasks, "Sync all MCP"@, old(self).now_ms)
                &&& toasts_view(final(self).toasts@) == pushed(
                    old(self).toasts@,
                    "Syncing MCP servers in background…"@,
                    ToastLevel::Info,
                    old(self).now_ms,
                )
                &&& *final(self) == (App { toasts: final(self).toasts, tasks: final(self).tasks, ..*old(self) })
            },
            !background ==> r == RunMode::Inline && *final(self) == *old(self),
    {
        if background {
            let id = self.submit_task(String::from_str("Sync all MCP"));
            self.push_toast(String::from_str("Syncing MCP servers in background…"), ToastLevel::Info);
            RunMode::Background(id)
        } else {
            RunMode::Inline
        }
    }

    /// Outcome of syncing the MCP servers inline.
    pub fn mcp_synced(&mut self, result: Result<(), String>)
        ensures
            match result {
                Ok(_) => toasts_view(final(self).toasts@) == pushed(old(self).toasts@, "Synced MCP to all agents"@, ToastLevel::Success, old(self).now_ms),
                Err(e) => toasts_view(final(self).toasts@) == pushed(
                    old(self).toasts@,
                    "Sync failed: "@ + e@,
                    ToastLevel::Error,
                    old(self).now_ms,
                ),
            },
            *final(self) == (App { toasts: final(self).toasts, ..*old(self) }),
    {
        match result {
            Ok(_) => self.push_toast(String::from_str("Synced MCP to all agents"), ToastLevel::Success),
            Err(e) => self.push_toast(cat("Sync failed: ", e.as_str()), ToastLevel::Error),
        }
    }

    /// Starts "sync every rule": queued as the background job "Sync all
    /// rules" (with an info toast) when `background`, else inline.
    pub fn sync_all_rules(&mut self, background: bool) -> (r: RunMode)
        requires
            old(self).tasks.next_id < u64::MAX,
        ensures
            background ==> {
                &&& r == RunMode::Background(old(self).tasks.next_id)
                &&& job_started(old(self).tasks, final(self).tasks, "Sync all rules"@, old(self).now_ms)
                &&& toasts_view(final(self).toasts@) == pushed(
                    old(self).toasts@,
                    "Syncing rules in background…"@,
                    ToastLevel::Info,
                    old(self).now_ms,
                )
                &&& *final(self) == (App { toasts: final(self).toasts, tasks: final(self).tasks, ..*old(self) })
            },
            !background ==> r == RunMode::Inline && *final(self) == *old(self),
    {
        if background {
            let id = self.submit_task(String::from_str("Sync all rules"));
            self.push_toast(String::from_str("Syncing rules in background…"), ToastLevel::Info);
            RunMode::Background(id)
        } else {
            RunMode::Inline
        }
    }

    /// Outcome of syncing the rules inline.
    pub fn rules_synced(&mut self, result: Result<(), String>)
        ensures
            match result {
                Ok(_) => toasts_view(final(self).toasts@) == pushed(old(self).toasts@, "Synced rules to all agents"@, ToastLevel::Success, old(self).now_ms),
                Err(e) => toasts_view(final(self).toasts@) == pushed(
                    old(self).toasts@,
                    "Sync failed: "@ + e@,
                    ToastLevel::Error,
                    old(self).now_ms,
                ),
            },
            *final(self) == (App { toasts: final(self).toasts, ..*old(self) }),
    {
        match result {
            Ok(_) => self.push_toast(String::from_str("Synced rules to all agents"), ToastLevel::Success),
            Err(e) => self.push_toast(cat("Sync failed: ", e.as_str()), ToastLevel::Error),
        }
    }

    /// The focused MCP server to delete (id and name), if any.
    pub fn delete_focused_mcp(&self) -> (r: Option<(String, String)>)
        ensures
            delete_focused_mcp_result(*self, r),
    {
        match self.focused_mcp() {
            Some(s) => Some((s.id.clone(), s.name.clone())),
            None => None,
        }
    }

    /// Outcome of deleting MCP server `name`.
    pub fn mcp_deleted(&mut self, name: &String, result: Result<(), String>) -> (r: Reloads)
        ensures
            match result {
                Ok(_) => r == only_mcp() && toasts_view(final(self).toasts@) == pushed(
                    old(self).toasts@,
                    "Deleted MCP server "@ + name@,
                    ToastLevel::Success,
                    old(self).now_ms,
                ),
                Err(e) => r == Reloads::nothing_spec() && toasts_view(final(self).toasts@) == pushed(
                    old(self).toasts@,
                    "Delete failed: "@ + e@,
                    ToastLevel::Error,
                    old(self).now_ms,
                ),
            },
            *final(self) == (App { toasts: final(self).toasts, ..*old(self) }),
    {
        match result {
            Ok(_) => {
                self.push_toast(cat("Deleted MCP server ", name.as_str()), ToastLevel::Success);
                Reloads { mcp: true, ..Reloads::nothing() }
            },
            Err(e) => {
                self.push_toast(cat("Delete failed: ", e.as_str()), ToastLevel::Error);
                Reloads::nothing()
            },
        }
    }

    /// The focused rule to delete (id and name), if any.
    pub fn delete_focused_rule(&self) -> (r: Option<(String, String)>)
        ensures
            delete_focused_rule_result(*self, r),
    {
        match self.focused_rule() {
            Some(s) => Some((s.id.clone(), s.name.clone())),
            None => None,
        }
    }

    /// Outcome of deleting rule `name`: on success the rules are reloaded
    /// and rewritten to the agents (`resync`).
    pub fn rule_deleted(&mut self, name: &String, result: Result<(), String>) -> (r: (Reloads, bool))
        ensures
            match result {
                Ok(_) => r == (only_rules(), true) && toasts_view(final(self).toasts@) == pushed(
                    old(self).toasts@,
                    "Deleted rule "@ + name@,
                    ToastLevel::Success,
                    old(self).now_ms,
                ),
                Err(e) => r == (Reloads::nothing_spec(), false) && toasts_view(final(self).toasts@) == pushed(
                    old(self).toasts@,
                    "Delete failed: "@ + e@,
                    ToastLevel::Error,
                    old(self).now_ms,
                ),
            },
            *final(self) == (App { toasts: final(self).toasts, ..*old(self) }),
    {
        match result {
            Ok(_) => {
                self.push_toast(cat("Deleted rule ", name.as_str()), ToastLevel::Success);
                (Reloads { rules: true, ..Reloads::nothing() }, true)
            },
            Err(e) => {
                self.push_toast(cat("Delete failed: ", e.as_str()), ToastLevel::Error);
                (Reloads::nothing(), false)
            },
        }
    }
}

} // verus!
