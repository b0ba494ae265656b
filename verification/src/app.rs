//! Central application state. Every user action goes through a method of
//! `App`; work that touches the store, the network or the disk is handed to
//! the host as a request, and the host reports back the outcome.

use vstd::prelude::*;
use crate::model::{AgentInfo, McpPreset, SkillRepoPreset};
use crate::tab::{next_tab_spec, prev_tab_spec, Tab};
use crate::tasks::{TaskLog, ToastLevel};
use crate::views::{
    AgentPopup, BackupView, InstallLogPopup, McpView, MethodPopup, PluginPreset, PluginsView, PresetsPopup,
    ProfileView, RulesView, SearchMcpPopup, SearchSkillsPopup, Settings, SettingsRow, SettingsView,
    SkillsView, Toast, toast_view,
};

verus! {

/// The curated catalogs the host ships.
#[derive(Debug)]
pub struct PresetCatalog {
    pub skill_repos: Vec<SkillRepoPreset>,
    pub mcp: Vec<McpPreset>,
    pub plugins: Vec<PluginPreset>,
}

/// The whole front-end state.
pub struct App {
    /// The agents the host manages, in their fixed display order.
    pub agents: Vec<AgentInfo>,
    pub settings: Settings,
    pub catalog: PresetCatalog,
    pub active_tab: Tab,
    pub should_quit: bool,
    /// One entry per agent, by agent index, once profiles are loaded.
    pub profile_views: Vec<ProfileView>,
    /// Index into the agents that have profiles, for the Profiles tab.
    pub focused_agent_idx: usize,
    pub skills_view: SkillsView,
    pub mcp_view: McpView,
    pub rules_view: RulesView,
    pub backup_view: BackupView,
    pub plugins_view: PluginsView,
    pub settings_view: SettingsView,
    pub agent_popup: Option<AgentPopup>,
    pub method_popup: Option<MethodPopup>,
    pub presets_popup: Option<PresetsPopup>,
    pub search_popup: Option<SearchSkillsPopup>,
    pub mcp_search_popup: Option<SearchMcpPopup>,
    pub install_log_popup: Option<InstallLogPopup>,
    /// Theme slugs the Settings tab cycles through.
    pub available_themes: Vec<String>,
    /// Visible toasts, oldest first; at most three.
    pub toasts: Vec<Toast>,
    pub tasks: TaskLog,
    pub show_activity: bool,
    pub show_help: bool,
    /// Animation counter, wrapping at 255.
    pub tick_idx: u8,
    /// Host clock reading (milliseconds) for the event being handled.
    pub now_ms: u64,
}

/// Most toasts kept on screen.
pub open spec fn toast_cap() -> nat {
    3
}

/// The last `toast_cap()` entries of `s` (all of them when fewer).
pub open spec fn keep_last<T>(s: Seq<T>) -> Seq<T> {
    if s.len() > toast_cap() {
        s.subrange(s.len() - toast_cap(), s.len() as int)
    } else {
        s
    }
}

/// Toasts as plain values.
pub open spec fn toasts_view(s: Seq<Toast>) -> Seq<(Seq<char>, ToastLevel, u64)> {
    s.map_values(|t: Toast| toast_view(t))
}

/// The toast list after pushing one message at time `now`.
pub open spec fn pushed(
    s: Seq<Toast>,
    msg: Seq<char>,
    level: ToastLevel,
    now: u64,
) -> Seq<(Seq<char>, ToastLevel, u64)> {
    keep_last(toasts_view(s).push((msg, level, now)))
}

/// However many toasts were shown, after a push at most three remain and
/// the new one is the last.
pub proof fn lemma_toasts_capped(s: Seq<Toast>, msg: Seq<char>, level: ToastLevel, now: u64)
    ensures
        pushed(s, msg, level, now).len() <= toast_cap(),
        pushed(s, msg, level, now).len() > 0,
        pushed(s, msg, level, now).last() == (msg, level, now),
{
}

/// A toast created at `created` is still shown at `now` (under five seconds).
pub open spec fn fresh(created: u64, now: u64) -> bool {
    if now >= created {
        now - created < 5000
    } else {
        true
    }
}

/// The focus kept when a list is reloaded with `len` rows: unchanged when
/// still in range, otherwise the last row (0 for an empty list).
pub open spec fn clamp_focus(f: usize, len: nat) -> usize {
    if len == 0 {
        0
    } else if f < len {
        f
    } else {
        (len - 1) as usize
    }
}

/// `clamp_focus`, computed.
pub fn clamp_focus_exec(f: usize, len: usize) -> (r: usize)
    ensures
        r == clamp_focus(f, len as nat),
{
    let max_idx = if len == 0 { 0 } else { len - 1 };
    if f < max_idx { f } else { max_idx }
}

/// Per-agent flags of a row as a fresh vector covering `n` agents.
pub fn flags_for(flags: &Vec<bool>, n: usize) -> (r: Vec<bool>)
    ensures
        r@.len() == n,
        forall|i: int| 0 <= i < n ==> #[trigger] r@[i] == crate::model::flag_at(flags@, i),
{
    let mut out: Vec<bool> = Vec::new();
    for i in 0..n
        invariant
            out@.len() == i,
            forall|k: int| 0 <= k < i ==> #[trigger] out@[k] == crate::model::flag_at(flags@, k),
    {
        let on = if i < flags.len() { flags[i] } else { false };
        out.push(on);
    }
    out
}

impl App {
    /// A fresh state on the Profiles tab with nothing loaded yet; the host
    /// fills the views with the `reload_*` methods.
    pub fn new(
        agents: Vec<AgentInfo>,
        settings: Settings,
        catalog: PresetCatalog,
        available_themes: Vec<String>,
        now_ms: u64,
    ) -> (app: App)
        ensures
            app.agents == agents,
            app.settings == settings,
            app.catalog == catalog,
            app.available_themes == available_themes,
            app.now_ms == now_ms,
            app.active_tab == Tab::Profiles,
            !app.should_quit,
            app.profile_views@.len() == 0,
            app.focused_agent_idx == 0,
            app.skills_view.skills@.len() == 0,
            app.skills_view.selected_ids@.len() == 0,
            app.skills_view.focused_idx == 0,
            app.skills_view.filter@.len() == 0,
            !app.skills_view.filter_editing,
            app.mcp_view.servers@.len() == 0,
            app.mcp_view.selected_ids@.len() == 0,
            app.mcp_view.focused_idx == 0,
            app.mcp_view.filter@.len() == 0,
            !app.mcp_view.filter_editing,
            app.rules_view.rules@.len() == 0,
            app.rules_view.selected_ids@.len() == 0,
            app.rules_view.focused_idx == 0,
            app.rules_view.filter@.len() == 0,
            !app.rules_view.filter_editing,
            app.backup_view.snapshots@.len() == 0,
            app.backup_view.focused_idx == 0,
            app.backup_view.delete_armed_at_ms is None,
            app.plugins_view.plugins@.len() == 0,
            app.plugins_view.focused_idx == 0,
            app.plugins_view.delete_armed_at_ms is None,
            app.settings_view.focused_row == Some(SettingsRow::GhEnabled),
            app.settings_view.input_buf is None,
            app.agent_popup is None,
            app.method_popup is None,
            app.presets_popup is None,
            app.search_popup is None,
            app.mcp_search_popup is None,
            app.install_log_popup is None,
            app.toasts@.len() == 0,
            app.tasks.next_id == 1,
            app.tasks.entries@.len() == 0,
            !app.show_activity,
            !app.show_help,
            app.tick_idx == 0,
    {
        App {
            agents,
            settings,
            catalog,
            active_tab: Tab::Profiles,
            should_quit: false,
            profile_views: Vec::new(),
            focused_agent_idx: 0,
            skills_view: SkillsView {
                skills: Vec::new(),
                selected_ids: Vec::new(),
                focused_idx: 0,
                filter: String::new(),
                filter_editing: false,
            },
            mcp_view: McpView {
                servers: Vec::new(),
                selected_ids: Vec::new(),
                focused_idx: 0,
                filter: String::new(),
                filter_editing: false,
            },
            rules_view: RulesView {
                rules: Vec::new(),
                selected_ids: Vec::new(),
                focused_idx: 0,
                filter: String::new(),
                filter_editing: false,
            },
            backup_view: BackupView { snapshots: Vec::new(), focused_idx: 0, delete_armed_at_ms: None },
            plugins_view: PluginsView { plugins: Vec::new(), focused_idx: 0, delete_armed_at_ms: None },
            settings_view: SettingsView::new(),
            agent_popup: None,
            method_popup: None,
            presets_popup: None,
            search_popup: None,
            mcp_search_popup: None,
            install_log_popup: None,
            available_themes,
            toasts: Vec::new(),
            tasks: TaskLog::new(),
            show_activity: false,
            show_help: false,
            tick_idx: 0,
            now_ms,
        }
    }

    /// Records the host clock reading for the event about to be handled.
    pub fn set_clock(&mut self, now_ms: u64)
        ensures
            *final(self) == (App { now_ms: now_ms, ..*old(self) }),
    {
        self.now_ms = now_ms;
    }

    /// Shows a toast stamped with the current clock; only the three newest
    /// toasts stay.
    pub fn push_toast(&mut self, message: String, level: ToastLevel)
        ensures
            toasts_view(final(self).toasts@) == pushed(old(self).toasts@, message@, level, old(self).now_ms),
            *final(self) == (App { toasts: final(self).toasts, ..*old(self) }),
    {
        let t = Toast { message, level, created_at_ms: self.now_ms };
        let mut list: Vec<Toast> = Vec::new();
        std::mem::swap(&mut list, &mut self.toasts);
        let ghost want = toasts_view(list@).push(toast_view(t));
        list.push(t);
        assert(toasts_view(list@) =~= want);
        while list.len() > 3
            invariant
                toasts_view(list@) == want.subrange(want.len() - list@.len(), want.len() as int),
                list@.len() <= want.len(),
                list@.len() >= 3 || list@.len() == want.len(),
            decreases list@.len(),
        {
            let ghost before = list@;
            list.remove(0);
            proof {
                assert(list@ =~= before.subrange(1, before.len() as int));
                assert forall|k: int| 0 <= k < list@.len() implies toasts_view(list@)[k] == want[want.len()
                    - list@.len() + k] by {
                    assert(list@[k] == before[k + 1]);
                    assert(toasts_view(before)[k + 1] == want[want.len() - before.len() + k + 1]);
                }
                assert(toasts_view(list@) =~= want.subrange(want.len() - list@.len(), want.len() as int));
            }
        }
        assert(toasts_view(list@) =~= keep_last(want));
        self.toasts = list;
    }

    /// Advances the animation counter and drops toasts older than five
    /// seconds.
    pub fn tick(&mut self)
        ensures
            final(self).tick_idx == (if old(self).tick_idx == 255 { 0 } else { old(self).tick_idx + 1 }),
            toasts_view(final(self).toasts@) == toasts_view(old(self).toasts@).filter(
                |v: (Seq<char>, ToastLevel, u64)| fresh(v.2, old(self).now_ms),
            ),
            *final(self) == (App { tick_idx: final(self).tick_idx, toasts: final(self).toasts, ..*old(self) }),
    {
        self.tick_idx = self.tick_idx.wrapping_add(1);
        let now = self.now_ms;
        let mut kept: Vec<Toast> = Vec::new();
        let mut old_toasts: Vec<Toast> = Vec::new();
        std::mem::swap(&mut old_toasts, &mut self.toasts);
        let ghost src = old_toasts@;
        let ghost p = |v: (Seq<char>, ToastLevel, u64)| fresh(v.2, now);
        let mut rest = old_toasts;
        // Walk the list front to back, moving out the toasts that stay.
        let mut rev: Vec<Toast> = Vec::new();
        while rest.len() > 0
            invariant
                rest@.len() + rev@.len() == src.len(),
                forall|k: int| 0 <= k < rev@.len() ==> rev@[k] == src[src.len() - 1 - k],
                rest@ == src.take(rest@.len() as int),
            decreases rest@.len(),
        {
            let t = rest.pop().unwrap();
            rev.push(t);
        }
        while rev.len() > 0
            invariant
                rev@.len() <= src.len(),
                forall|k: int| 0 <= k < rev@.len() ==> rev@[k] == src[src.len() - 1 - k],
                toasts_view(kept@) == toasts_view(src.take(src.len() - rev@.len())).filter(p),
                p == (|v: (Seq<char>, ToastLevel, u64)| fresh(v.2, now)),
            decreases rev@.len(),
        {
            let ghost done = src.len() - rev@.len();
            let t = rev.pop().unwrap();
            assert(t == src[done]);
            let keep = if now >= t.created_at_ms {
                now - t.created_at_ms < 5000
            } else {
                true
            };
            proof {
                reveal(Seq::filter);
                let a = toasts_view(src.take(done + 1));
                assert(a.drop_last() =~= toasts_view(src.take(done)));
                assert(a.last() == toast_view(t));
            }
            if keep {
                let ghost before = kept@;
                kept.push(t);
                assert(toasts_view(kept@) =~= toasts_view(before).push(toast_view(t)));
            }
        }
        assert(src.take(src.len() as int) =~= src);
        self.toasts = kept;
    }

    /// Switches to `tab`.
    pub fn set_active_tab(&mut self, tab: Tab)
        ensures
            *final(self) == (App { active_tab: tab, ..*old(self) }),
    {
        self.active_tab = tab;
    }

    /// Moves to the next tab of the strip, wrapping around.
    pub fn next_tab(&mut self)
        ensures
            *final(self) == (App { active_tab: next_tab_spec(old(self).active_tab), ..*old(self) }),
    {
        let i = self.active_tab.index();
        let n: usize = 7;
        let next = Tab::from_index((i + 1) % n);
        self.active_tab = match next {
            Some(t) => t,
            None => self.active_tab,
        };
    }

    /// Moves to the previous tab of the strip, wrapping around.
    pub fn prev_tab(&mut self)
        ensures
            *final(self) == (App { active_tab: prev_tab_spec(old(self).active_tab), ..*old(self) }),
    {
        let i = self.active_tab.index();
        let n: usize = 7;
        let prev = Tab::from_index((i + n - 1) % n);
        self.active_tab = match prev {
            Some(t) => t,
            None => self.active_tab,
        };
    }

    /// Shows or hides the activity overlay.
    pub fn toggle_activity(&mut self)
        ensures
            *final(self) == (App { show_activity: !old(self).show_activity, ..*old(self) }),
    {
        self.show_activity = !self.show_activity;
    }

    /// Shows or hides the help overlay.
    pub fn toggle_help(&mut self)
        ensures
            *final(self) == (App { show_help: !old(self).show_help, ..*old(self) }),
    {
        self.show_help = !self.show_help;
    }
}

} // verus!
