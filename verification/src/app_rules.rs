//! Rules tab actions that only touch view state.

use vstd::prelude::*;
use crate::app::{clamp_focus, clamp_focus_exec, flags_for, App};
use crate::filter::{lemma_matching_indices, rule_filter_spec, rule_indices, keep_all, needle_of, rule_hit};
use crate::ids::{distinct_ids, id_set, retain_ids, toggle_id};
use crate::model::{flag_at, Rule};
use crate::sort::{sort_by_name, sort_rules};
use crate::text::{clear_string, pop_char, push_char, wrap, wrap_step};
use crate::views::{AgentPopup, AgentPopupTarget, RulesView};

verus! {

/// Ids of the rows, in order.
pub open spec fn rule_ids(s: Seq<Rule>) -> Seq<String> {
    s.map_values(|k: Rule| k.id)
}

/// The row under the cursor: the `focused_idx`-th row shown by the filter.
pub open spec fn focused_rule_spec(v: RulesView) -> Option<Rule> {
    let shown = rule_filter_spec(v.rules@, v.filter@);
    if v.focused_idx < shown.len() {
        Some(v.rules@[shown[v.focused_idx as int] as int])
    } else {
        None
    }
}

/// The shown indices all point into the list.
pub proof fn lemma_rule_filter_in_range(v: RulesView)
    requires
        v.rules@.len() <= usize::MAX,
    ensures
        forall|k: int|
            0 <= k < rule_filter_spec(v.rules@, v.filter@).len() ==> (#[trigger] rule_filter_spec(
                v.rules@,
                v.filter@,
            )[k]) < v.rules@.len(),
        rule_filter_spec(v.rules@, v.filter@).len() <= v.rules@.len(),
{
    let needle = needle_of(v.filter@);
    if needle.len() == 0 {
        lemma_matching_indices(v.rules@.len(), keep_all());
    } else {
        lemma_matching_indices(v.rules@.len(), |i: int| rule_hit(v.rules@[i], needle));
    }
}

/// What `App::move_rules_focus` does: `before` is the app before the call,
/// `after` the app after it.
pub open spec fn move_rules_focus_effect(before: App, after: App, delta: i32) -> bool {
    ({
        let n = rule_filter_spec(before.rules_view.rules@, before.rules_view.filter@).len();
        &&& n == 0 ==> after == before
        &&& n > 0 ==> after == (App {
            rules_view: RulesView {
                focused_idx: wrap(before.rules_view.focused_idx as int, delta as int, n as int) as usize,
                ..before.rules_view
            },
            ..before
        })
    })
}

/// What `App::jump_rules_focus` does: `before` is the app before the call,
/// `after` the app after it.
pub open spec fn jump_rules_focus_effect(before: App, after: App, to_last: bool) -> bool {
    let n = rule_filter_spec(before.rules_view.rules@, before.rules_view.filter@).len();
    &&& n == 0 ==> after == before
    &&& n > 0 ==> after == (App {
        rules_view: RulesView { focused_idx: (if to_last { n - 1 } else { 0 }) as usize, ..before.rules_view },
        ..before
    })
}

/// What `App::rules_filter_push` does: `before` is the app before the call,
/// `after` the app after it.
pub open spec fn rules_filter_push_effect(before: App, after: App, c: char) -> bool {
    &&& after.rules_view.filter@ == before.rules_view.filter@.push(c)
    &&& after == (App {
        rules_view: RulesView { filter: after.rules_view.filter, focused_idx: 0, ..before.rules_view },
        ..before
    })
}

/// What `App::rules_filter_pop` does: `before` is the app before the call,
/// `after` the app after it.
pub open spec fn rules_filter_pop_effect(before: App, after: App) -> bool {
    &&& after.rules_view.filter@ == (if before.rules_view.filter@.len() == 0 {
        before.rules_view.filter@
    } else {
        before.rules_view.filter@.drop_last()
    })
    &&& after == (App {
        rules_view: RulesView { filter: after.rules_view.filter, focused_idx: 0, ..before.rules_view },
        ..before
    })
}

/// What `App::rules_filter_open` does: `before` is the app before the call,
/// `after` the app after it.
pub open spec fn rules_filter_open_effect(before: App, after: App) -> bool {
    after == (App {
        rules_view: RulesView { filter_editing: true, ..before.rules_view },
        ..before
    })
}

/// What `App::rules_filter_close_keep` does: `before` is the app before the call,
/// `after` the app after it.
pub open spec fn rules_filter_close_keep_effect(before: App, after: App) -> bool {
    after == (App {
        rules_view: RulesView { filter_editing: false, ..before.rules_view },
        ..before
    })
}

/// What `App::rules_filter_clear` does: `before` is the app before the call,
/// `after` the app after it.
pub open spec fn rules_filter_clear_effect(before: App, after: App) -> bool {
    &&& after.rules_view.filter@.len() == 0
    &&& after == (App {
        rules_view: RulesView {
            filter: after.rules_view.filter,
            filter_editing: false,
            focused_idx: 0,
            ..before.rules_view
        },
        ..before
    })
}

/// What `App::toggle_focused_rule_selection` does: `before` is the app before the call,
/// `after` the app after it.
pub open spec fn toggle_focused_rule_selection_effect(before: App, after: App) -> bool {
    match focused_rule_spec(before.rules_view) {
        None => after == before,
        Some(s) => {
            &&& id_set(before.rules_view.selected_ids@).contains(s.id@) ==> id_set(
                after.rules_view.selected_ids@,
            ) == id_set(before.rules_view.selected_ids@).remove(s.id@)
            &&& !id_set(before.rules_view.selected_ids@).contains(s.id@) ==> id_set(
                after.rules_view.selected_ids@,
            ) == id_set(before.rules_view.selected_ids@).insert(s.id@)
            &&& distinct_ids(before.rules_view.selected_ids@) ==> distinct_ids(
                after.rules_view.selected_ids@,
            )
            &&& after == (App {
                rules_view: RulesView {
                    selected_ids: after.rules_view.selected_ids,
                    ..before.rules_view
                },
                ..before
            })
        },
    }
}

/// What `App::open_agent_popup_for_focused_rule` does: `before` is the app before the call,
/// `after` the app after it.
pub open spec fn open_agent_popup_for_focused_rule_effect(before: App, after: App) -> bool {
    match focused_rule_spec(before.rules_view) {
        None => after == before,
        Some(s) => after.agent_popup matches Some(p) && p.target == AgentPopupTarget::Rule
            && p.row_id == s.id && p.row_name == s.name && p.cursor == 0 && p.enabled@.len()
            == before.agents@.len() && (forall|i: int|
            0 <= i < before.agents@.len() ==> #[trigger] p.enabled@[i] == flag_at(s.enabled@, i))
            && after == (App { agent_popup: after.agent_popup, ..before }),
    }
}

impl App {
    /// Replaces the rows with `rules` as read from the store, sorted by
    /// lower-cased name. The focus is clamped into the new list, the
    /// selection keeps only ids still present, and the filter is kept.
    pub fn reload_rules(&mut self, rules: Vec<Rule>)
        ensures
            final(self).rules_view.rules@ == sort_by_name(rules@),
            final(self).rules_view.focused_idx == clamp_focus(old(self).rules_view.focused_idx, rules@.len()),
            id_set(final(self).rules_view.selected_ids@) == id_set(old(self).rules_view.selected_ids@).intersect(
                id_set(rule_ids(sort_by_name(rules@))),
            ),
            distinct_ids(final(self).rules_view.selected_ids@),
            final(self).rules_view.filter == old(self).rules_view.filter,
            final(self).rules_view.filter_editing == old(self).rules_view.filter_editing,
            *final(self) == (App { rules_view: final(self).rules_view, ..*old(self) }),
    {
        let rules = sort_rules(rules);
        let mut ids: Vec<String> = Vec::new();
        let n = rules.len();
        for i in 0..n
            invariant
                n == rules@.len(),
                ids@ == rule_ids(rules@).take(i as int),
        {
            ids.push(rules[i].id.clone());
            assert(ids@ =~= rule_ids(rules@).take(i + 1));
        }
        assert(rule_ids(rules@).take(n as int) =~= rule_ids(rules@));
        let selected = retain_ids(&self.rules_view.selected_ids, &ids);
        let focused = clamp_focus_exec(self.rules_view.focused_idx, n);
        self.rules_view.rules = rules;
        self.rules_view.selected_ids = selected;
        self.rules_view.focused_idx = focused;
    }

    /// Indices of the rows the filter shows.
    pub fn filtered_rules_indices(&self) -> (r: Vec<usize>)
        ensures
            r@ == rule_filter_spec(self.rules_view.rules@, self.rules_view.filter@),
    {
        rule_indices(&self.rules_view.rules, &self.rules_view.filter)
    }

    /// The row under the cursor, if the cursor is on a shown row.
    pub fn focused_rule(&self) -> (r: Option<&Rule>)
        ensures
            r matches Some(s) ==> focused_rule_spec(self.rules_view) == Some(*s),
            r is None ==> focused_rule_spec(self.rules_view) is None,
    {
        let shown = self.filtered_rules_indices();
        // `len` bounds the row count by `usize::MAX`, which the lemma needs.
        let rows: usize = self.rules_view.rules.len();
        proof {
            assert(rows == self.rules_view.rules@.len());
            lemma_rule_filter_in_range(self.rules_view);
        }
        if self.rules_view.focused_idx < shown.len() {
            let idx = shown[self.rules_view.focused_idx];
            Some(&self.rules_view.rules[idx])
        } else {
            None
        }
    }

    /// Puts the cursor on the first shown row (`g`), or on the last one
    /// when `to_last` (`G`); nothing happens when no row is shown.
    pub fn jump_rules_focus(&mut self, to_last: bool)
        ensures
            jump_rules_focus_effect(*old(self), *final(self), to_last),
    {
        let n = self.filtered_rules_indices().len();
        if n == 0 {
            return;
        }
        self.rules_view.focused_idx = if to_last { n - 1 } else { 0 };
    }

    /// Moves the cursor by `delta` among the shown rows, wrapping around;
    /// nothing happens when no row is shown.
    pub fn move_rules_focus(&mut self, delta: i32)
        requires
            old(self).rules_view.rules@.len() <= i32::MAX,
            old(self).rules_view.focused_idx <= i32::MAX,
            old(self).rules_view.focused_idx + delta <= i32::MAX,
        ensures
            move_rules_focus_effect(*old(self), *final(self), delta),
    {
        let n = self.filtered_rules_indices().len();
        proof {
            lemma_rule_filter_in_range(self.rules_view);
        }
        if n == 0 {
            return;
        }
        self.rules_view.focused_idx = wrap_step(self.rules_view.focused_idx, delta, n);
    }

    /// Appends a character to the filter and puts the cursor on the first row.
    pub fn rules_filter_push(&mut self, c: char)
        ensures
            rules_filter_push_effect(*old(self), *final(self), c),
    {
        push_char(&mut self.rules_view.filter, c);
        self.rules_view.focused_idx = 0;
    }

    /// Deletes the filter's last character (if any) and puts the cursor on
    /// the first row.
    pub fn rules_filter_pop(&mut self)
        ensures
            rules_filter_pop_effect(*old(self), *final(self)),
    {
        let _ = pop_char(&mut self.rules_view.filter);
        self.rules_view.focused_idx = 0;
    }

    /// Starts typing into the filter.
    pub fn rules_filter_open(&mut self)
        ensures
            rules_filter_open_effect(*old(self), *final(self)),
    {
        self.rules_view.filter_editing = true;
    }

    /// Stops typing, keeping the filter text.
    pub fn rules_filter_close_keep(&mut self)
        ensures
            rules_filter_close_keep_effect(*old(self), *final(self)),
    {
        self.rules_view.filter_editing = false;
    }

    /// Empties the filter, stops typing and puts the cursor on the first row.
    pub fn rules_filter_clear(&mut self)
        ensures
            rules_filter_clear_effect(*old(self), *final(self)),
    {
        clear_string(&mut self.rules_view.filter);
        self.rules_view.filter_editing = false;
        self.rules_view.focused_idx = 0;
    }

    /// Adds the row under the cursor to the selection, or removes it when
    /// already selected; nothing happens without a row under the cursor.
    pub fn toggle_focused_rule_selection(&mut self)
        ensures
            toggle_focused_rule_selection_effect(*old(self), *final(self)),
    {
        let id = match self.focused_rule() {
            Some(s) => s.id.clone(),
            None => return,
        };
        toggle_id(&mut self.rules_view.selected_ids, &id);
    }

    /// Opens the agent popup for the row under the cursor, seeded with the
    /// row's per-agent flags; nothing happens without a row.
    pub fn open_agent_popup_for_focused_rule(&mut self)
        ensures
            open_agent_popup_for_focused_rule_effect(*old(self), *final(self)),
    {
        let n = self.agents.len();
        let popup = match self.focused_rule() {
            Some(s) => AgentPopup {
                target: AgentPopupTarget::Rule,
                row_id: s.id.clone(),
                row_name: s.name.clone(),
                cursor: 0,
                enabled: flags_for(&s.enabled, n),
            },
            None => return,
        };
        self.agent_popup = Some(popup);
    }

}

} // verus!
