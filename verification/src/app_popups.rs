//! The agent-enablement popup, the sync-method picker and the presets
//! chooser.

use vstd::prelude::*;
use crate::app::{pushed, toasts_view, App};
use crate::model::{flag_at, method_at, SyncMethod};
use crate::tasks::{Reloads, ToastLevel};
use crate::text::{cat, cat3, wrap, wrap_step};
use crate::views::{AgentPopup, AgentPopupTarget, MethodPopup, PresetsKind, PresetsPopup};

verus! {

/// A committed agent popup: the per-agent flags to write for one row.
#[derive(Debug)]
pub struct AgentCommit {
    pub target: AgentPopupTarget,
    pub row_id: String,
    pub row_name: String,
    /// Flags by agent index, written in index order.
    pub enabled: Vec<bool>,
}

/// Progress of writing a commit's per-agent flags: how many agents, from
/// index 0 up, have had their flag written, and the error that stopped the
/// writing, if one did.
#[derive(Debug)]
pub struct FlagWrites {
    pub done: usize,
    pub failed: Option<String>,
}

/// How many flags a commit writes when the store knows `agents` agents.
pub open spec fn writes_owed(c: AgentCommit, agents: nat) -> nat {
    if c.enabled@.len() < agents { c.enabled@.len() } else { agents }
}

impl FlagWrites {
    /// Nothing written yet.
    pub fn new() -> (r: FlagWrites)
        ensures
            r.done == 0,
            r.failed is None,
    {
        FlagWrites { done: 0, failed: None }
    }

    /// Records the outcome of the latest write: a success counts one more
    /// agent written; a failure stops the writing with its error.
    pub fn record(&mut self, outcome: Result<(), String>)
        requires
            old(self).done < usize::MAX,
        ensures
            match outcome {
                Ok(_) => final(self).done == old(self).done + 1 && final(self).failed == old(self).failed,
                Err(e) => final(self).done == old(self).done && final(self).failed == Some(e),
            },
    {
        match outcome {
            Ok(_) => self.done = self.done + 1,
            Err(e) => self.failed = Some(e),
        }
    }

    /// What the writing came to: the error that stopped it, else success.
    pub fn outcome(self) -> (r: Result<(), String>)
        ensures
            match self.failed {
                Some(e) => r == Err::<(), String>(e),
                None => r is Ok,
            },
    {
        match self.failed {
            Some(e) => Err(e),
            None => Ok(()),
        }
    }
}

impl AgentCommit {
    /// The next flag to write, given the progress `st`, when the store knows
    /// `agents` agents: the flag of agent `st.done`, in index order, until
    /// every owed flag is written; nothing once a write has failed, so the
    /// agents after a failing one are left untouched.
    pub fn next_write(&self, st: &FlagWrites, agents: usize) -> (r: Option<(usize, bool)>)
        ensures
            r == (if st.failed is None && st.done < writes_owed(*self, agents as nat) {
                Some((st.done, self.enabled@[st.done as int]))
            } else {
                None::<(usize, bool)>
            }),
    {
        if st.failed.is_some() {
            return None;
        }
        if st.done < self.enabled.len() && st.done < agents {
            Some((st.done, self.enabled[st.done]))
        } else {
            None
        }
    }
}

/// A committed sync-method choice for one skill.
#[derive(Debug)]
pub struct MethodChange {
    pub skill_id: String,
    pub row_name: String,
    pub method: SyncMethod,
}

/// Flags after toggling entry `c`: the entry flips (a missing entry counts
/// as off), every other entry stays.
pub open spec fn toggled(old: Seq<bool>, c: int, new: Seq<bool>) -> bool {
    &&& new.len() == if c < old.len() { old.len() as int } else { c + 1 }
    &&& new[c] == !flag_at(old, c)
    &&& forall|k: int| 0 <= k < new.len() && k != c ==> #[trigger] new[k] == flag_at(old, k)
}

/// Toggling the same agent twice gives back the flags the row had.
pub proof fn lemma_toggled_twice(flags: Seq<bool>, c: int, mid: Seq<bool>, after: Seq<bool>)
    requires
        0 <= c < flags.len(),
        toggled(flags, c, mid),
        toggled(mid, c, after),
    ensures
        after == flags,
{
    assert forall|k: int| 0 <= k < flags.len() implies after[k] == flags[k] by {
        if k != c {
            assert(after[k] == flag_at(mid, k));
            assert(mid[k] == flag_at(flags, k));
        }
    }
    assert(after =~= flags);
}

/// Which view an agent-popup commit refreshes.
pub open spec fn target_reload(t: AgentPopupTarget) -> Reloads {
    let n = Reloads::nothing_spec();
    match t {
        AgentPopupTarget::Skill => Reloads { skills: true, ..n },
        AgentPopupTarget::Mcp => Reloads { mcp: true, ..n },
        AgentPopupTarget::Rule => Reloads { rules: true, ..n },
    }
}

/// What `App::presets_popup_move` does: `before` is the app before the call,
/// `after` the app after it.
pub open spec fn presets_popup_move_effect(before: App, after: App, delta: i32) -> bool {
    match before.presets_popup {
        Some(p) => if p.total > 0 {
            after.presets_popup == Some(PresetsPopup {
                cursor: wrap(p.cursor as int, delta as int, p.total as int) as usize,
                ..p
            }) && after == (App { presets_popup: after.presets_popup, ..before })
        } else {
            after == before
        },
        None => after == before,
    }
}

/// What `App::presets_popup_cancel` does: `before` is the app before the call,
/// `after` the app after it.
pub open spec fn presets_popup_cancel_effect(before: App, after: App) -> bool {
    after == (App { presets_popup: None, ..before })
}

/// What `App::presets_popup_commit` does: `before` is the app before the call,
/// `after` the app after it, `r` what it returns.
pub open spec fn presets_popup_commit_effect(before: App, after: App, r: Option<(PresetsKind, usize)>) -> bool {
    &&& after == (App { presets_popup: None, ..before })
    &&& match before.presets_popup {
        Some(p) => r == Some((p.kind, p.cursor)),
        None => r is None,
    }
}

/// What `App::agent_popup_move` does: `before` is the app before the call,
/// `after` the app after it.
pub open spec fn agent_popup_move_effect(before: App, after: App, delta: i32) -> bool {
    match before.agent_popup {
        None => after == before,
        Some(p) => after.agent_popup == Some(AgentPopup {
            cursor: wrap(p.cursor as int, delta as int, before.agents@.len() as int) as usize,
            ..p
        }) && after == (App { agent_popup: after.agent_popup, ..before }),
    }
}

/// What `App::agent_popup_toggle` does: `before` is the app before the call,
/// `after` the app after it.
pub open spec fn agent_popup_toggle_effect(before: App, after: App) -> bool {
    match before.agent_popup {
        None => after == before,
        Some(p) => if p.cursor < before.agents@.len() {
            after.agent_popup matches Some(q) && q.target == p.target && q.row_id == p.row_id
                && q.row_name == p.row_name && q.cursor == p.cursor && toggled(
                p.enabled@,
                p.cursor as int,
                q.enabled@,
            ) && after == (App { agent_popup: after.agent_popup, ..before })
        } else {
            after == before
        },
    }
}

/// What `App::agent_popup_set_all` does: `before` is the app before the call,
/// `after` the app after it.
pub open spec fn agent_popup_set_all_effect(before: App, after: App, value: bool) -> bool {
    match before.agent_popup {
        None => after == before,
        Some(p) => after.agent_popup matches Some(q) && q.target == p.target && q.row_id == p.row_id
            && q.row_name == p.row_name && q.cursor == p.cursor && q.enabled@ == Seq::new(
            before.agents@.len(),
            |i: int| value,
        ) && after == (App { agent_popup: after.agent_popup, ..before }),
    }
}

/// What `App::agent_popup_cancel` does: `before` is the app before the call,
/// `after` the app after it.
pub open spec fn agent_popup_cancel_effect(before: App, after: App) -> bool {
    after == (App { agent_popup: None, ..before })
}

/// What `App::agent_popup_commit` does: `before` is the app before the call,
/// `after` the app after it, `r` what it returns.
pub open spec fn agent_popup_commit_effect(before: App, after: App, r: Option<AgentCommit>) -> bool {
    &&& after == (App { agent_popup: None, ..before })
    &&& match before.agent_popup {
        None => r is None,
        Some(p) => r matches Some(c) && c.target == p.target && c.row_id == p.row_id && c.row_name
            == p.row_name && c.enabled == p.enabled,
    }
}

/// What `App::method_popup_move` does: `before` is the app before the call,
/// `after` the app after it.
pub open spec fn method_popup_move_effect(before: App, after: App, delta: i32) -> bool {
    match before.method_popup {
        None => after == before,
        Some(p) => after.method_popup == Some(MethodPopup {
            cursor: wrap(p.cursor as int, delta as int, 4) as usize,
            ..p
        }) && after == (App { method_popup: after.method_popup, ..before }),
    }
}

/// What `App::method_popup_cancel` does: `before` is the app before the call,
/// `after` the app after it.
pub open spec fn method_popup_cancel_effect(before: App, after: App) -> bool {
    after == (App { method_popup: None, ..before })
}

/// What `App::method_popup_commit` does: `before` is the app before the call,
/// `after` the app after it, `r` what it returns.
pub open spec fn method_popup_commit_effect(before: App, after: App, r: Option<MethodChange>) -> bool {
    &&& after == (App { method_popup: None, ..before })
    &&& match before.method_popup {
        Some(p) => if p.cursor < 4 {
            r matches Some(c) && c.skill_id == p.row_id && c.row_name == p.row_name && c.method
                == method_at(p.cursor as int)
        } else {
            r is None
        },
        None => r is None,
    }
}

/// What `App::open_new_skill_menu` does: `before` is the app before the call,
/// `after` the app after it.
pub open spec fn open_new_skill_menu_effect(before: App, after: App) -> bool {
    after == (App {
        presets_popup: Some(PresetsPopup {
            kind: PresetsKind::SkillRepo,
            cursor: 0,
            total: before.catalog.skill_repos@.len() as usize,
        }),
        ..before
    })
}

/// What `App::open_new_mcp_menu` does: `before` is the app before the call,
/// `after` the app after it.
pub open spec fn open_new_mcp_menu_effect(before: App, after: App) -> bool {
    after == (App {
        presets_popup: Some(PresetsPopup {
            kind: PresetsKind::Mcp,
            cursor: 0,
            total: before.catalog.mcp@.len() as usize,
        }),
        ..before
    })
}

/// What `App::open_new_plugin_menu` does: `before` is the app before the call,
/// `after` the app after it.
pub open spec fn open_new_plugin_menu_effect(before: App, after: App) -> bool {
    after == (App {
        presets_popup: Some(PresetsPopup {
            kind: PresetsKind::Plugin,
            cursor: 0,
            total: before.catalog.plugins@.len() as usize,
        }),
        ..before
    })
}

impl App {
    /// Moves the agent popup's cursor by `delta`, wrapping over the agents.
    pub fn agent_popup_move(&mut self, delta: i32)
        requires
            old(self).agent_popup matches Some(p) ==> 0 < old(self).agents@.len() <= i32::MAX
                && p.cursor <= i32::MAX && p.cursor + delta <= i32::MAX,
        ensures
            agent_popup_move_effect(*old(self), *final(self), delta),
    {
        let n = self.agents.len();
        if let Some(p) = &mut self.agent_popup {
            p.cursor = wrap_step(p.cursor, delta, n);
        }
    }

    /// Flips the flag of the agent under the popup's cursor.
    pub fn agent_popup_toggle(&mut self)
        ensures
            agent_popup_toggle_effect(*old(self), *final(self)),
    {
        let n = self.agents.len();
        let p = match self.agent_popup.take() {
            Some(p) => p,
            None => return,
        };
        let AgentPopup { target, row_id, row_name, cursor, enabled } = p;
        let mut flags = enabled;
        if cursor < n {
            let c = cursor;
            let ghost before = flags@;
            while flags.len() <= c
                invariant
                    before.len() <= flags@.len(),
                    flags@.len() <= if c < before.len() { before.len() as int } else { c + 1 },
                    forall|k: int| 0 <= k < flags@.len() ==> #[trigger] flags@[k] == flag_at(before, k),
                decreases c + 1 - flags@.len(),
            {
                flags.push(false);
            }
            let v = flags[c];
            flags.set(c, !v);
        }
        self.agent_popup = Some(AgentPopup { target, row_id, row_name, cursor, enabled: flags });
    }

    /// Sets every agent's flag in the popup to `value`.
    pub fn agent_popup_set_all(&mut self, value: bool)
        ensures
            agent_popup_set_all_effect(*old(self), *final(self), value),
    {
        let n = self.agents.len();
        if let Some(p) = &mut self.agent_popup {
            let mut flags: Vec<bool> = Vec::new();
            for i in 0..n
                invariant
                    flags@ == Seq::new(i as nat, |k: int| value),
            {
                flags.push(value);
                assert(flags@ =~= Seq::new((i + 1) as nat, |k: int| value));
            }
            p.enabled = flags;
        }
    }

    /// Closes the agent popup without writing anything.
    pub fn agent_popup_cancel(&mut self)
        ensures
            agent_popup_cancel_effect(*old(self), *final(self)),
    {
        self.agent_popup = None;
    }

    /// Closes the agent popup and returns the flags to write, if it was open.
    pub fn agent_popup_commit(&mut self) -> (r: Option<AgentCommit>)
        ensures
            agent_popup_commit_effect(*old(self), *final(self), r),
    {
        match self.agent_popup.take() {
            Some(p) => Some(AgentCommit { target: p.target, row_id: p.row_id, row_name: p.row_name, enabled: p.enabled }),
            None => None,
        }
    }

    /// Outcome of writing the popup's flags. A failure raises an error toast
    /// and ends the commit (`false`); success lets the host resync (`true`).
    pub fn agent_flags_written(&mut self, commit: &AgentCommit, result: Result<(), String>) -> (go_on: bool)
        ensures
            go_on == (result is Ok),
            match result {
                Ok(_) => *final(self) == *old(self),
                Err(e) => toasts_view(final(self).toasts@) == pushed(
                    old(self).toasts@,
                    "Update failed: "@ + e@,
                    ToastLevel::Error,
                    old(self).now_ms,
                ) && *final(self) == (App { toasts: final(self).toasts, ..*old(self) }),
            },
    {
        match result {
            Ok(_) => true,
            Err(e) => {
                self.push_toast(cat("Update failed: ", e.as_str()), ToastLevel::Error);
                false
            },
        }
    }

    /// Outcome of the resync after a commit: a failure raises an error toast,
    /// then a success toast names the row; the target's view is refreshed.
    pub fn agent_commit_resynced(&mut self, commit: &AgentCommit, result: Result<(), String>) -> (r: Reloads)
        ensures
            r == target_reload(commit.target),
            match result {
                Ok(_) => toasts_view(final(self).toasts@) == pushed(
                    old(self).toasts@,
                    "Updated agents for "@ + commit.row_name@,
                    ToastLevel::Success,
                    old(self).now_ms,
                ),
                Err(e) => exists|mid: Seq<crate::views::Toast>|
                    toasts_view(mid) == pushed(old(self).toasts@, "Resync failed: "@ + e@, ToastLevel::Error, old(self).now_ms)
                    && toasts_view(final(self).toasts@) == pushed(
                    mid,
                    "Updated agents for "@ + commit.row_name@,
                    ToastLevel::Success,
                    old(self).now_ms,
                ),
            },
            *final(self) == (App { toasts: final(self).toasts, ..*old(self) }),
    {
        if let Err(e) = result {
            self.push_toast(cat("Resync failed: ", e.as_str()), ToastLevel::Error);
        }
        self.push_toast(cat("Updated agents for ", commit.row_name.as_str()), ToastLevel::Success);
        let n = Reloads::nothing();
        match commit.target {
            AgentPopupTarget::Skill => Reloads { skills: true, ..n },
            AgentPopupTarget::Mcp => Reloads { mcp: true, ..n },
            AgentPopupTarget::Rule => Reloads { rules: true, ..n },
        }
    }

    /// Moves the method picker's cursor by `delta` over the four methods.
    pub fn method_popup_move(&mut self, delta: i32)
        requires
            old(self).method_popup matches Some(p) ==> p.cursor <= i32::MAX && p.cursor + delta <= i32::MAX,
        ensures
            method_popup_move_effect(*old(self), *final(self), delta),
    {
        if let Some(p) = &mut self.method_popup {
            p.cursor = wrap_step(p.cursor, delta, 4);
        }
    }

    /// Closes the method picker without changing anything.
    pub fn method_popup_cancel(&mut self)
        ensures
            method_popup_cancel_effect(*old(self), *final(self)),
    {
        self.method_popup = None;
    }

    /// Closes the method picker and returns the chosen method for its skill,
    /// if it was open with the cursor on a method.
    pub fn method_popup_commit(&mut self) -> (r: Option<MethodChange>)
        ensures
            method_popup_commit_effect(*old(self), *final(self), r),
    {
        let p = match self.method_popup.take() {
            Some(p) => p,
            None => return None,
        };
        let method = if p.cursor == 0 {
            SyncMethod::Auto
        } else if p.cursor == 1 {
            SyncMethod::Symlink
        } else if p.cursor == 2 {
            SyncMethod::Copy
        } else if p.cursor == 3 {
            SyncMethod::Inherit
        } else {
            return None;
        };
        Some(MethodChange { skill_id: p.row_id, row_name: p.row_name, method })
    }

    /// Outcome of storing a chosen method. A failure raises an error toast
    /// (`false`); success means the host reloads the skills and resyncs the
    /// row (`true`).
    pub fn method_set_done(&mut self, change: &MethodChange, result: Result<(), String>) -> (go_on: bool)
        ensures
            go_on == (result is Ok),
            match result {
                Ok(_) => *final(self) == *old(self),
                Err(e) => toasts_view(final(self).toasts@) == pushed(
                    old(self).toasts@,
                    "Change failed: "@ + e@,
                    ToastLevel::Error,
                    old(self).now_ms,
                ) && *final(self) == (App { toasts: final(self).toasts, ..*old(self) }),
            },
    {
        match result {
            Ok(_) => true,
            Err(e) => {
                self.push_toast(cat("Change failed: ", e.as_str()), ToastLevel::Error);
                false
            },
        }
    }

    /// Outcome of the resync after a method change: an error toast, or a
    /// success toast `<row> → <method>`.
    pub fn method_resynced(&mut self, change: &MethodChange, result: Result<(), String>)
        ensures
            match result {
                Ok(_) => toasts_view(final(self).toasts@) == pushed(
                    old(self).toasts@,
                    change.row_name@ + " → "@ + change.method.label(),
                    ToastLevel::Success,
                    old(self).now_ms,
                ),
                Err(e) => toasts_view(final(self).toasts@) == pushed(
                    old(self).toasts@,
                    "Resync failed: "@ + e@,
                    ToastLevel::Error,
                    old(self).now_ms,
                ),
            },
            *final(self) == (App { toasts: final(self).toasts, ..*old(self) }),
    {
        match result {
            Ok(_) => {
                let m = change.method.as_str();
                self.push_toast(cat3(change.row_name.as_str(), " → ", m.as_str()), ToastLevel::Success);
            },
            Err(e) => self.push_toast(cat("Resync failed: ", e.as_str()), ToastLevel::Error),
        }
    }

    /// Opens the curated skill-repository chooser.
    pub fn open_new_skill_menu(&mut self)
        ensures
            open_new_skill_menu_effect(*old(self), *final(self)),
    {
        let total = self.catalog.skill_repos.len();
        self.presets_popup = Some(PresetsPopup { kind: PresetsKind::SkillRepo, cursor: 0, total });
    }

    /// Opens the curated MCP-server chooser.
    pub fn open_new_mcp_menu(&mut self)
        ensures
            open_new_mcp_menu_effect(*old(self), *final(self)),
    {
        let total = self.catalog.mcp.len();
        self.presets_popup = Some(PresetsPopup { kind: PresetsKind::Mcp, cursor: 0, total });
    }

    /// Opens the curated plugin chooser.
    pub fn open_new_plugin_menu(&mut self)
        ensures
            open_new_plugin_menu_effect(*old(self), *final(self)),
    {
        let total = self.catalog.plugins.len();
        self.presets_popup = Some(PresetsPopup { kind: PresetsKind::Plugin, cursor: 0, total });
    }

    /// Moves the chooser's cursor by `delta`, wrapping; nothing happens on an
    /// empty catalog.
    pub fn presets_popup_move(&mut self, delta: i32)
        requires
            old(self).presets_popup matches Some(p) ==> p.total <= i32::MAX && p.cursor <= i32::MAX
                && p.cursor + delta <= i32::MAX,
        ensures
            presets_popup_move_effect(*old(self), *final(self), delta),
    {
        if let Some(p) = &mut self.presets_popup {
            let n = p.len();
            if n == 0 {
                return;
            }
            p.cursor = wrap_step(p.cursor, delta, n);
        }
    }

    /// Closes the chooser without installing anything.
    pub fn presets_popup_cancel(&mut self)
        ensures
            presets_popup_cancel_effect(*old(self), *final(self)),
    {
        self.presets_popup = None;
    }

    /// Closes the chooser and returns which catalog entry to install.
    pub fn presets_popup_commit(&mut self) -> (r: Option<(PresetsKind, usize)>)
        ensures
            presets_popup_commit_effect(*old(self), *final(self), r),
    {
        match self.presets_popup.take() {
            Some(p) => Some((p.kind, p.cursor)),
            None => None,
        }
    }
}

} // verus!
