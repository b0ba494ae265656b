//! Profiles tab: one list of profiles per agent, the focused agent row, and
//! switching the live profile.

use vstd::prelude::*;
use crate::app::App;
use crate::filter::{lemma_matching_indices, matching_indices};
use crate::model::{AgentInfo, Profile};

use crate::text::{cat, decimal, fmt_u64, same_text, wrap, wrap_step};
use crate::views::{ProfileView, Settings};

verus! {

/// Live profile id recorded for agent `i`.
pub open spec fn current_profile(s: Settings, i: int) -> Option<String> {
    if 0 <= i < s.current_profiles@.len() {
        s.current_profiles@[i]
    } else {
        None
    }
}

/// First index from `k` on whose profile has id `id`, if any.
pub open spec fn position_from(ps: Seq<Profile>, id: Seq<char>, k: int) -> Option<int>
    decreases ps.len() - k,
{
    if k < 0 || k >= ps.len() {
        None
    } else if ps[k].id@ == id {
        Some(k)
    } else {
        position_from(ps, id, k + 1)
    }
}

/// The row highlighted after a reload: the live profile's row, else the first.
pub open spec fn selected_row(ps: Seq<Profile>, current: Option<String>) -> usize {
    match current {
        Some(id) => match position_from(ps, id@, 0) {
            Some(k) => k as usize,
            None => 0,
        },
        None => 0,
    }
}

/// Agents (by index) that have profiles, in display order.
pub open spec fn profile_agents_spec(agents: Seq<AgentInfo>) -> Seq<usize> {
    matching_indices(agents.len(), |i: int| agents[i].supports_profiles)
}

/// The agent of the focused Profiles row; the first agent when out of range.
pub open spec fn focused_agent_spec(app: App) -> usize {
    let list = profile_agents_spec(app.agents@);
    if app.focused_agent_idx < list.len() {
        list[app.focused_agent_idx as int]
    } else {
        0
    }
}

/// A request to make a stored profile the live one.
#[derive(Debug)]
pub struct ProfileSwitch {
    pub agent: usize,
    pub profile_id: String,
    pub profile_name: String,
}

/// One row of an agent's profile list as shown: whether it is the live
/// profile, its name, and its notes (empty when it has none).
#[derive(Debug)]
pub struct ProfileRow {
    pub live: bool,
    pub name: String,
    pub notes: String,
}

/// The notes of a profile as shown: the empty text when it has none.
pub open spec fn notes_text(p: Profile) -> Seq<char> {
    match p.notes {
        Some(n) => n@,
        None => Seq::empty(),
    }
}

/// `p` is the live profile of agent `agent`.
pub open spec fn is_live(s: Settings, agent: int, p: Profile) -> bool {
    current_profile(s, agent) matches Some(id) && id@ == p.id@
}

/// The header of an agent's profile list: how many profiles it has and
/// the name of the live one, `(none)` when none is live.
pub open spec fn profiles_title_spec(n: nat, live: Option<Seq<char>>) -> Seq<char> {
    " · "@ + decimal(n) + " profiles · live: "@ + (match live {
        Some(l) => l,
        None => "(none)"@,
    }) + " "@
}

/// The header of an agent's profile list (see `profiles_title_spec`).
pub fn profiles_title(n: usize, live: &Option<String>) -> (r: String)
    ensures
        r@ == profiles_title_spec(n as nat, match live {
            Some(l) => Some(l@),
            None => None,
        }),
{
    let d = fmt_u64(n as u64);
    let mut r = cat(" · ", d.as_str());
    r.append(" profiles · live: ");
    match live {
        Some(l) => r.append(l.as_str()),
        None => r.append("(none)"),
    }
    r.append(" ");
    r
}

fn find_profile(ps: &Vec<Profile>, id: &String) -> (r: Option<usize>)
    ensures
        r matches Some(k) ==> position_from(ps@, id@, 0) == Some(k as int) && k < ps@.len()
            && ps@[k as int].id@ == id@,
        r is None ==> position_from(ps@, id@, 0) is None,
{
    let n = ps.len();
    let mut k: usize = 0;
    while k < n
        invariant
            n == ps@.len(),
            k <= n,
            position_from(ps@, id@, 0) == position_from(ps@, id@, k as int),
        decreases n - k,
    {
        if ps[k].id == *id {
            return Some(k);
        }
        k = k + 1;
    }
    None
}

/// What `App::move_profile_selection` does: `before` is the app before the call,
/// `after` the app after it.
pub open spec fn move_profile_selection_effect(before: App, after: App, delta: i32) -> bool {
    ({
        let a = focused_agent_spec(before);
        if a < before.profile_views@.len() && before.profile_views@[a as int].profiles@.len() > 0 {
            let v = before.profile_views@[a as int];
            &&& after.profile_views@ == before.profile_views@.update(
                a as int,
                ProfileView {
                    selected: wrap(v.selected as int, delta as int, v.profiles@.len() as int) as usize,
                    ..v
                },
            )
            &&& after == (App { profile_views: after.profile_views, ..before })
        } else {
            after == before
        }
    })
}

/// What `App::move_agent_focus` does: `before` is the app before the call,
/// `after` the app after it.
pub open spec fn move_agent_focus_effect(before: App, after: App, delta: i32) -> bool {
    ({
        let n = profile_agents_spec(before.agents@).len();
        let m = if n == 0 { 1 } else { n };
        after == (App {
            focused_agent_idx: wrap(before.focused_agent_idx as int, delta as int, m as int) as usize,
            ..before
        })
    })
}

impl App {
    /// Replaces the per-agent profile lists (`lists[i]` for agent `i`); each
    /// agent's highlighted row becomes its live profile's row, else the first.
    pub fn reload_profiles(&mut self, lists: Vec<Vec<Profile>>)
        ensures
            final(self).profile_views@.len() == lists@.len(),
            forall|i: int|
                0 <= i < lists@.len() ==> (#[trigger] final(self).profile_views@[i]).agent == i
                    && final(self).profile_views@[i].profiles == lists@[i]
                    && final(self).profile_views@[i].selected == selected_row(
                    lists@[i]@,
                    current_profile(old(self).settings, i),
                ),
            *final(self) == (App { profile_views: final(self).profile_views, ..*old(self) }),
    {
        let mut views: Vec<ProfileView> = Vec::new();
        let mut rest = lists;
        let ghost orig = rest@;
        let mut rev: Vec<Vec<Profile>> = Vec::new();
        while rest.len() > 0
            invariant
                rest@.len() + rev@.len() == orig.len(),
                rest@ == orig.take(rest@.len() as int),
                forall|k: int| 0 <= k < rev@.len() ==> rev@[k] == orig[orig.len() - 1 - k],
            decreases rest@.len(),
        {
            let x = rest.pop().unwrap();
            rev.push(x);
        }
        while rev.len() > 0
            invariant
                rev@.len() <= orig.len(),
                forall|k: int| 0 <= k < rev@.len() ==> rev@[k] == orig[orig.len() - 1 - k],
                views@.len() == orig.len() - rev@.len(),
                forall|i: int|
                    0 <= i < views@.len() ==> (#[trigger] views@[i]).agent == i && views@[i].profiles
                        == orig[i] && views@[i].selected == selected_row(
                        orig[i]@,
                        current_profile(self.settings, i),
                    ),
            decreases rev@.len(),
        {
            let i = views.len();
            let profiles = rev.pop().unwrap();
            let current: Option<&String> = if i < self.settings.current_profiles.len() {
                match &self.settings.current_profiles[i] {
                    Some(id) => Some(id),
                    None => None,
                }
            } else {
                None
            };
            let selected = match current {
                Some(id) => match find_profile(&profiles, id) {
                    Some(k) => k,
                    None => 0,
                },
                None => 0,
            };
            views.push(ProfileView { agent: i, profiles, selected });
        }
        self.profile_views = views;
    }

    /// Indices of the agents that have profiles, in display order.
    pub fn profile_agents(&self) -> (r: Vec<usize>)
        ensures
            r@ == profile_agents_spec(self.agents@),
    {
        let mut out: Vec<usize> = Vec::new();
        let n = self.agents.len();
        let ghost pred = |i: int| self.agents@[i].supports_profiles;
        for i in 0..n
            invariant
                n == self.agents@.len(),
                pred == (|i: int| self.agents@[i].supports_profiles),
                out@ == matching_indices(i as nat, pred),
        {
            if self.agents[i].supports_profiles {
                out.push(i);
            }
        }
        out
    }

    /// The agent of the focused Profiles row (the first agent when the focus
    /// is out of range).
    pub fn focused_agent(&self) -> (r: usize)
        ensures
            r == focused_agent_spec(*self),
    {
        let list = self.profile_agents();
        if self.focused_agent_idx < list.len() {
            list[self.focused_agent_idx]
        } else {
            0
        }
    }

    /// The rows of agent `agent`'s profile list, one per loaded profile in
    /// order, each with its name, its notes and whether it is the live one;
    /// no rows when nothing is loaded for that agent.
    pub fn profile_rows(&self, agent: usize) -> (r: Vec<ProfileRow>)
        ensures
            (agent as int) < self.profile_views@.len() ==> {
                let ps = self.profile_views@[agent as int].profiles@;
                &&& r@.len() == ps.len()
                &&& forall|i: int|
                    0 <= i < ps.len() ==> {
                        let row = #[trigger] r@[i];
                        &&& row.name == ps[i].name
                        &&& row.notes@ == notes_text(ps[i])
                        &&& row.live == is_live(self.settings, agent as int, ps[i])
                    }
            },
            (agent as int) >= self.profile_views@.len() ==> r@.len() == 0,
    {
        let mut out: Vec<ProfileRow> = Vec::new();
        if agent >= self.profile_views.len() {
            return out;
        }
        let live: Option<&String> = if agent < self.settings.current_profiles.len() {
            match &self.settings.current_profiles[agent] {
                Some(id) => Some(id),
                None => None,
            }
        } else {
            None
        };
        let ps = &self.profile_views[agent].profiles;
        let n = ps.len();
        for i in 0..n
            invariant
                n == ps@.len(),
                ps == self.profile_views@[agent as int].profiles,
                (agent as int) < self.profile_views@.len(),
                match live {
                    Some(id) => current_profile(self.settings, agent as int) == Some(*id),
                    None => current_profile(self.settings, agent as int) is None,
                },
                out@.len() == i,
                forall|k: int|
                    0 <= k < i ==> {
                        let row = #[trigger] out@[k];
                        &&& row.name == ps@[k].name
                        &&& row.notes@ == notes_text(ps@[k])
                        &&& row.live == is_live(self.settings, agent as int, ps@[k])
                    },
        {
            let p = &ps[i];
            let is_cur = match live {
                Some(id) => same_text(id.as_str(), p.id.as_str()),
                None => false,
            };
            let notes = match &p.notes {
                Some(t) => t.clone(),
                None => String::new(),
            };
            out.push(ProfileRow { live: is_cur, name: p.name.clone(), notes });
        }
        out
    }

    /// The status bar's pointer to the live config file of the focused
    /// agent: its name, a colon, and `path`, the file's location as the
    /// store reports it (`?` where the store could not say).
    pub fn live_config_hint(&self, path: &Option<String>) -> (r: String)
        ensures
            r@ == (if focused_agent_spec(*self) < self.agents@.len() {
                self.agents@[focused_agent_spec(*self) as int].display_name@
            } else {
                Seq::<char>::empty()
            }) + ": "@ + (match path {
                Some(p) => p@,
                None => "?"@,
            }),
    {
        let a = self.focused_agent();
        let mut r = if a < self.agents.len() {
            self.agents[a].display_name.clone()
        } else {
            String::new()
        };
        r.append(": ");
        match path {
            Some(p) => r.append(p.as_str()),
            None => r.append("?"),
        }
        r
    }

    /// Moves the highlighted profile of the focused agent by `delta`,
    /// wrapping; nothing happens when that agent has no profiles loaded.
    pub fn move_profile_selection(&mut self, delta: i32)
        requires
            ({
                let a = focused_agent_spec(*old(self));
                a < old(self).profile_views@.len() ==> {
                    let v = old(self).profile_views@[a as int];
                    &&& v.profiles@.len() <= i32::MAX
                    &&& v.selected <= i32::MAX
                    &&& v.selected + delta <= i32::MAX
                }
            }),
        ensures
            move_profile_selection_effect(*old(self), *final(self), delta),
    {
        let a = self.focused_agent();
        if a >= self.profile_views.len() {
            return;
        }
        let len = self.profile_views[a].profiles.len();
        if len == 0 {
            return;
        }
        let mut v = self.profile_views.remove(a);
        v.selected = wrap_step(v.selected, delta, len);
        self.profile_views.insert(a, v);
        assert(self.profile_views@ =~= old(self).profile_views@.update(a as int, v));
    }

    /// Moves the focus between the agents that have profiles, wrapping.
    pub fn move_agent_focus(&mut self, delta: i32)
        requires
            old(self).agents@.len() <= i32::MAX,
            old(self).focused_agent_idx <= i32::MAX,
            old(self).focused_agent_idx + delta <= i32::MAX,
        ensures
            move_agent_focus_effect(*old(self), *final(self), delta),
    {
        let list = self.profile_agents();
        proof {
            lemma_matching_indices(self.agents@.len(), |i: int| self.agents@[i].supports_profiles);
        }
        let n = if list.len() == 0 { 1 } else { list.len() };
        self.focused_agent_idx = wrap_step(self.focused_agent_idx, delta, n);
    }

    /// Name of the live profile of `agent`, if it is among the loaded ones.
    pub fn current_profile_name(&self, agent: usize) -> (r: Option<String>)
        ensures
            match current_profile(self.settings, agent as int) {
                None => r is None,
                Some(id) => if (agent as int) < self.profile_views@.len() {
                    match position_from(self.profile_views@[agent as int].profiles@, id@, 0) {
                        Some(k) => r matches Some(n) && n == self.profile_views@[agent as int].profiles@[k].name,
                        None => r is None,
                    }
                } else {
                    r is None
                },
            },
    {
        if agent >= self.settings.current_profiles.len() {
            return None;
        }
        let id = match &self.settings.current_profiles[agent] {
            Some(id) => id,
            None => return None,
        };
        if agent >= self.profile_views.len() {
            return None;
        }
        let ps = &self.profile_views[agent].profiles;
        match find_profile(ps, id) {
            Some(k) => {
                let n = ps[k].name.clone();
                Some(n)
            },
            None => None,
        }
    }
}

} // verus!
