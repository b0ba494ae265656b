//! Skills tab actions that only touch view state.

use vstd::prelude::*;
use crate::app::{clamp_focus, clamp_focus_exec, flags_for, App};
use crate::filter::{lemma_matching_indices, skill_filter_spec, skill_indices, keep_all, needle_of, skill_hit};
use crate::ids::{distinct, distinct_ids, id_set, retain_ids, toggle_id};
use crate::model::{flag_at, Skill};
use crate::text::{clear_string, pop_char, push_char, wrap, wrap_step};
use crate::views::{AgentPopup, AgentPopupTarget, MethodPopup, SkillsView};

verus! {

/// Ids of the rows, in order.
pub open spec fn skill_ids(s: Seq<Skill>) -> Seq<String> {
    s.map_values(|k: Skill| k.id)
}

/// The row under the cursor: the `focused_idx`-th row shown by the filter.
pub open spec fn focused_skill_spec(v: SkillsView) -> Option<Skill> {
    let shown = skill_filter_spec(v.skills@, v.filter@);
    if v.focused_idx < shown.len() {
        Some(v.skills@[shown[v.focused_idx as int] as int])
    } else {
        None
    }
}

/// The shown indices all point into the list.
pub proof fn lemma_skill_filter_in_range(v: SkillsView)
    requires
        v.skills@.len() <= usize::MAX,
    ensures
        forall|k: int|
            0 <= k < skill_filter_spec(v.skills@, v.filter@).len() ==> (#[trigger] skill_filter_spec(
                v.skills@,
                v.filter@,
            )[k]) < v.skills@.len(),
        skill_filter_spec(v.skills@, v.filter@).len() <= v.skills@.len(),
{
    let needle = needle_of(v.filter@);
    if needle.len() == 0 {
        lemma_matching_indices(v.skills@.len(), keep_all());
    } else {
        lemma_matching_indices(v.skills@.len(), |i: int| skill_hit(v.skills@[i], needle));
    }
}

/// What `App::move_skill_focus` does: `before` is the app before the call,
/// `after` the app after it.
pub open spec fn move_skill_focus_effect(before: App, after: App, delta: i32) -> bool {
    ({
        let n = skill_filter_spec(before.skills_view.skills@, before.skills_view.filter@).len();
        &&& n == 0 ==> after == before
        &&& n > 0 ==> after == (App {
            skills_view: SkillsView {
                focused_idx: wrap(before.skills_view.focused_idx as int, delta as int, n as int) as usize,
                ..before.skills_view
            },
            ..before
        })
    })
}

/// What `App::jump_skill_focus` does: `before` is the app before the call,
/// `after` the app after it.
pub open spec fn jump_skill_focus_effect(before: App, after: App, to_last: bool) -> bool {
    let n = skill_filter_spec(before.skills_view.skills@, before.skills_view.filter@).len();
    &&& n == 0 ==> after == before
    &&& n > 0 ==> after == (App {
        skills_view: SkillsView { focused_idx: (if to_last { n - 1 } else { 0 }) as usize, ..before.skills_view },
        ..before
    })
}

/// What `App::skills_filter_push` does: `before` is the app before the call,
/// `after` the app after it.
pub open spec fn skills_filter_push_effect(before: App, after: App, c: char) -> bool {
    &&& after.skills_view.filter@ == before.skills_view.filter@.push(c)
    &&& after == (App {
        skills_view: SkillsView { filter: after.skills_view.filter, focused_idx: 0, ..before.skills_view },
        ..before
    })
}

/// What `App::skills_filter_pop` does: `before` is the app before the call,
/// `after` the app after it.
pub open spec fn skills_filter_pop_effect(before: App, after: App) -> bool {
    &&& after.skills_view.filter@ == (if before.skills_view.filter@.len() == 0 {
        before.skills_view.filter@
    } else {
        before.skills_view.filter@.drop_last()
    })
    &&& after == (App {
        skills_view: SkillsView { filter: after.skills_view.filter, focused_idx: 0, ..before.skills_view },
        ..before
    })
}

/// What `App::skills_filter_open` does: `before` is the app before the call,
/// `after` the app after it.
pub open spec fn skills_filter_open_effect(before: App, after: App) -> bool {
    after == (App {
        skills_view: SkillsView { filter_editing: true, ..before.skills_view },
        ..before
    })
}

/// What `App::skills_filter_close_keep` does: `before` is the app before the call,
/// `after` the app after it.
pub open spec fn skills_filter_close_keep_effect(before: App, after: App) -> bool {
    after == (App {
        skills_view: SkillsView { filter_editing: false, ..before.skills_view },
        ..before
    })
}

/// What `App::skills_filter_clear` does: `before` is the app before the call,
/// `after` the app after it.
pub open spec fn skills_filter_clear_effect(before: App, after: App) -> bool {
    &&& after.skills_view.filter@.len() == 0
    &&& after == (App {
        skills_view: SkillsView {
            filter: after.skills_view.filter,
            filter_editing: false,
            focused_idx: 0,
            ..before.skills_view
        },
        ..before
    })
}

/// What `App::toggle_focused_skill_selection` does: `before` is the app before the call,
/// `after` the app after it.
pub open spec fn toggle_focused_skill_selection_effect(before: App, after: App) -> bool {
    match focused_skill_spec(before.skills_view) {
        None => after == before,
        Some(s) => {
            &&& id_set(before.skills_view.selected_ids@).contains(s.id@) ==> id_set(
                after.skills_view.selected_ids@,
            ) == id_set(before.skills_view.selected_ids@).remove(s.id@)
            &&& !id_set(before.skills_view.selected_ids@).contains(s.id@) ==> id_set(
                after.skills_view.selected_ids@,
            ) == id_set(before.skills_view.selected_ids@).insert(s.id@)
            &&& distinct_ids(before.skills_view.selected_ids@) ==> distinct_ids(
                after.skills_view.selected_ids@,
            )
            &&& after == (App {
                skills_view: SkillsView {
                    selected_ids: after.skills_view.selected_ids,
                    ..before.skills_view
                },
                ..before
            })
        },
    }
}

/// What `App::select_all_skills` does: `before` is the app before the call,
/// `after` the app after it.
pub open spec fn select_all_skills_effect(before: App, after: App) -> bool {
    &&& id_set(after.skills_view.selected_ids@) == id_set(skill_ids(before.skills_view.skills@))
    &&& distinct_ids(after.skills_view.selected_ids@)
    &&& after == (App {
        skills_view: SkillsView { selected_ids: after.skills_view.selected_ids, ..before.skills_view },
        ..before
    })
}

/// What `App::clear_skill_selection` does: `before` is the app before the call,
/// `after` the app after it.
pub open spec fn clear_skill_selection_effect(before: App, after: App) -> bool {
    &&& after.skills_view.selected_ids@.len() == 0
    &&& after == (App {
        skills_view: SkillsView { selected_ids: after.skills_view.selected_ids, ..before.skills_view },
        ..before
    })
}

/// What `App::open_agent_popup_for_focused` does: `before` is the app before the call,
/// `after` the app after it.
pub open spec fn open_agent_popup_for_focused_effect(before: App, after: App) -> bool {
    match focused_skill_spec(before.skills_view) {
        None => after == before,
        Some(s) => after.agent_popup matches Some(p) && p.target == AgentPopupTarget::Skill
            && p.row_id == s.id && p.row_name == s.name && p.cursor == 0 && p.enabled@.len()
            == before.agents@.len() && (forall|i: int|
            0 <= i < before.agents@.len() ==> #[trigger] p.enabled@[i] == flag_at(s.enabled@, i))
            && after == (App { agent_popup: after.agent_popup, ..before }),
    }
}

/// What `App::open_method_popup_for_focused` does: `before` is the app before the call,
/// `after` the app after it.
pub open spec fn open_method_popup_for_focused_effect(before: App, after: App) -> bool {
    match focused_skill_spec(before.skills_view) {
        None => after == before,
        Some(s) => after.method_popup matches Some(p) && p.row_id == s.id && p.row_name
            == s.name && p.current == s.sync_method && p.cursor == s.sync_method.rank()
            && after == (App { method_popup: after.method_popup, ..before }),
    }
}

impl App {
    /// Replaces the rows with `skills` as read from the store. The focus is
    /// clamped into the new list, the selection keeps only ids still
    /// present, and the filter is kept.
    pub fn reload_skills(&mut self, skills: Vec<Skill>)
        ensures
            final(self).skills_view.skills == skills,
            final(self).skills_view.focused_idx == clamp_focus(old(self).skills_view.focused_idx, skills@.len()),
            id_set(final(self).skills_view.selected_ids@) == id_set(old(self).skills_view.selected_ids@).intersect(
                id_set(skill_ids(skills@)),
            ),
            distinct_ids(final(self).skills_view.selected_ids@),
            final(self).skills_view.filter == old(self).skills_view.filter,
            final(self).skills_view.filter_editing == old(self).skills_view.filter_editing,
            *final(self) == (App { skills_view: final(self).skills_view, ..*old(self) }),
    {
        let mut ids: Vec<String> = Vec::new();
        let n = skills.len();
        for i in 0..n
            invariant
                n == skills@.len(),
                ids@ == skill_ids(skills@).take(i as int),
        {
            ids.push(skills[i].id.clone());
            assert(ids@ =~= skill_ids(skills@).take(i + 1));
        }
        assert(skill_ids(skills@).take(n as int) =~= skill_ids(skills@));
        let selected = retain_ids(&self.skills_view.selected_ids, &ids);
        let focused = clamp_focus_exec(self.skills_view.focused_idx, n);
        self.skills_view.skills = skills;
        self.skills_view.selected_ids = selected;
        self.skills_view.focused_idx = focused;
    }

    /// Indices of the rows the filter shows.
    pub fn filtered_skill_indices(&self) -> (r: Vec<usize>)
        ensures
            r@ == skill_filter_spec(self.skills_view.skills@, self.skills_view.filter@),
    {
        skill_indices(&self.skills_view.skills, &self.skills_view.filter)
    }

    /// The row under the cursor, if the cursor is on a shown row.
    pub fn focused_skill(&self) -> (r: Option<&Skill>)
        ensures
            r matches Some(s) ==> focused_skill_spec(self.skills_view) == Some(*s),
            r is None ==> focused_skill_spec(self.skills_view) is None,
    {
        let shown = self.filtered_skill_indices();
        // `len` bounds the row count by `usize::MAX`, which the lemma needs.
        let rows: usize = self.skills_view.skills.len();
        proof {
            assert(rows == self.skills_view.skills@.len());
            lemma_skill_filter_in_range(self.skills_view);
        }
        if self.skills_view.focused_idx < shown.len() {
            let idx = shown[self.skills_view.focused_idx];
            Some(&self.skills_view.skills[idx])
        } else {
            None
        }
    }

    /// Puts the cursor on the first shown row (`g`), or on the last one
    /// when `to_last` (`G`); nothing happens when no row is shown.
    pub fn jump_skill_focus(&mut self, to_last: bool)
        ensures
            jump_skill_focus_effect(*old(self), *final(self), to_last),
    {
        let n = self.filtered_skill_indices().len();
        if n == 0 {
            return;
        }
        self.skills_view.focused_idx = if to_last { n - 1 } else { 0 };
    }

    /// Moves the cursor by `delta` among the shown rows, wrapping around;
    /// nothing happens when no row is shown.
    pub fn move_skill_focus(&mut self, delta: i32)
        requires
            old(self).skills_view.skills@.len() <= i32::MAX,
            old(self).skills_view.focused_idx <= i32::MAX,
            old(self).skills_view.focused_idx + delta <= i32::MAX,
        ensures
            move_skill_focus_effect(*old(self), *final(self), delta),
    {
        let n = self.filtered_skill_indices().len();
        proof {
            lemma_skill_filter_in_range(self.skills_view);
        }
        if n == 0 {
            return;
        }
        self.skills_view.focused_idx = wrap_step(self.skills_view.focused_idx, delta, n);
    }

    /// Appends a character to the filter and puts the cursor on the first row.
    pub fn skills_filter_push(&mut self, c: char)
        ensures
            skills_filter_push_effect(*old(self), *final(self), c),
    {
        push_char(&mut self.skills_view.filter, c);
        self.skills_view.focused_idx = 0;
    }

    /// Deletes the filter's last character (if any) and puts the cursor on
    /// the first row.
    pub fn skills_filter_pop(&mut self)
        ensures
            skills_filter_pop_effect(*old(self), *final(self)),
    {
        let _ = pop_char(&mut self.skills_view.filter);
        self.skills_view.focused_idx = 0;
    }

    /// Starts typing into the filter.
    pub fn skills_filter_open(&mut self)
        ensures
            skills_filter_open_effect(*old(self), *final(self)),
    {
        self.skills_view.filter_editing = true;
    }

    /// Stops typing, keeping the filter text.
    pub fn skills_filter_close_keep(&mut self)
        ensures
            skills_filter_close_keep_effect(*old(self), *final(self)),
    {
        self.skills_view.filter_editing = false;
    }

    /// Empties the filter, stops typing and puts the cursor on the first row.
    pub fn skills_filter_clear(&mut self)
        ensures
            skills_filter_clear_effect(*old(self), *final(self)),
    {
        clear_string(&mut self.skills_view.filter);
        self.skills_view.filter_editing = false;
        self.skills_view.focused_idx = 0;
    }

    /// Adds the row under the cursor to the selection, or removes it when
    /// already selected; nothing happens without a row under the cursor.
    pub fn toggle_focused_skill_selection(&mut self)
        ensures
            toggle_focused_skill_selection_effect(*old(self), *final(self)),
    {
        let id = match self.focused_skill() {
            Some(s) => s.id.clone(),
            None => return,
        };
        toggle_id(&mut self.skills_view.selected_ids, &id);
    }

    /// Selects every row (shown or not).
    pub fn select_all_skills(&mut self)
        ensures
            select_all_skills_effect(*old(self), *final(self)),
    {
        let mut ids: Vec<String> = Vec::new();
        let n = self.skills_view.skills.len();
        for i in 0..n
            invariant
                n == self.skills_view.skills@.len(),
                ids@ == skill_ids(self.skills_view.skills@).take(i as int),
        {
            ids.push(self.skills_view.skills[i].id.clone());
            assert(ids@ =~= skill_ids(self.skills_view.skills@).take(i + 1));
        }
        assert(skill_ids(self.skills_view.skills@).take(n as int) =~= skill_ids(self.skills_view.skills@));
        self.skills_view.selected_ids = distinct(ids);
    }

    /// Empties the selection.
    pub fn clear_skill_selection(&mut self)
        ensures
            clear_skill_selection_effect(*old(self), *final(self)),
    {
        self.skills_view.selected_ids = Vec::new();
    }

    /// Opens the agent popup for the row under the cursor, seeded with the
    /// row's per-agent flags; nothing happens without a row.
    pub fn open_agent_popup_for_focused(&mut self)
        ensures
            open_agent_popup_for_focused_effect(*old(self), *final(self)),
    {
        let n = self.agents.len();
        let popup = match self.focused_skill() {
            Some(s) => AgentPopup {
                target: AgentPopupTarget::Skill,
                row_id: s.id.clone(),
                row_name: s.name.clone(),
                cursor: 0,
                enabled: flags_for(&s.enabled, n),
            },
            None => return,
        };
        self.agent_popup = Some(popup);
    }

    /// Opens the sync-method picker for the row under the cursor, with the
    /// cursor on the row's current method; nothing happens without a row.
    pub fn open_method_popup_for_focused(&mut self)
        ensures
            open_method_popup_for_focused_effect(*old(self), *final(self)),
    {
        let popup = match self.focused_skill() {
            Some(s) => {
                let cursor: usize = match s.sync_method {
                    crate::model::SyncMethod::Auto => 0,
                    crate::model::SyncMethod::Symlink => 1,
                    crate::model::SyncMethod::Copy => 2,
                    crate::model::SyncMethod::Inherit => 3,
                };
                MethodPopup { row_id: s.id.clone(), row_name: s.name.clone(), cursor, current: s.sync_method }
            },
            None => return,
        };
        self.method_popup = Some(popup);
    }
}

} // verus!
