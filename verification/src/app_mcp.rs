//! MCP tab actions that only touch view state.

use vstd::prelude::*;
use crate::app::{clamp_focus, clamp_focus_exec, flags_for, App};
use crate::filter::{lemma_matching_indices, mcp_filter_spec, mcp_indices, keep_all, needle_of, mcp_hit};
use crate::ids::{distinct_ids, id_set, retain_ids, toggle_id};
use crate::model::{flag_at, McpServer};
use crate::text::{clear_string, pop_char, push_char, wrap, wrap_step};
use crate::views::{AgentPopup, AgentPopupTarget, McpView};

verus! {

/// Ids of the rows, in order.
pub open spec fn server_ids(s: Seq<McpServer>) -> Seq<String> {
    s.map_values(|k: McpServer| k.id)
}

/// The row under the cursor: the `focused_idx`-th row shown by the filter.
pub open spec fn focused_mcp_spec(v: McpView) -> Option<McpServer> {
    let shown = mcp_filter_spec(v.servers@, v.filter@);
    if v.focused_idx < shown.len() {
        Some(v.servers@[shown[v.focused_idx as int] as int])
    } else {
        None
    }
}

/// The shown indices all point into the list.
pub proof fn lemma_mcp_filter_in_range(v: McpView)
    requires
        v.servers@.len() <= usize::MAX,
    ensures
        forall|k: int|
            0 <= k < mcp_filter_spec(v.servers@, v.filter@).len() ==> (#[trigger] mcp_filter_spec(
                v.servers@,
                v.filter@,
            )[k]) < v.servers@.len(),
        mcp_filter_spec(v.servers@, v.filter@).len() <= v.servers@.len(),
{
    let needle = needle_of(v.filter@);
    if needle.len() == 0 {
        lemma_matching_indices(v.servers@.len(), keep_all());
    } else {
        lemma_matching_indices(v.servers@.len(), |i: int| mcp_hit(v.servers@[i], needle));
    }
}

/// What `App::move_mcp_focus` does: `before` is the app before the call,
/// `after` the app after it.
pub open spec fn move_mcp_focus_effect(before: App, after: App, delta: i32) -> bool {
    ({
        let n = mcp_filter_spec(before.mcp_view.servers@, before.mcp_view.filter@).len();
        &&& n == 0 ==> after == before
        &&& n > 0 ==> after == (App {
            mcp_view: McpView {
                focused_idx: wrap(before.mcp_view.focused_idx as int, delta as int, n as int) as usize,
                ..before.mcp_view
            },
            ..before
        })
    })
}

/// What `App::jump_mcp_focus` does: `before` is the app before the call,
/// `after` the app after it.
pub open spec fn jump_mcp_focus_effect(before: App, after: App, to_last: bool) -> bool {
    let n = mcp_filter_spec(before.mcp_view.servers@, before.mcp_view.filter@).len();
    &&& n == 0 ==> after == before
    &&& n > 0 ==> after == (App {
        mcp_view: McpView { focused_idx: (if to_last { n - 1 } else { 0 }) as usize, ..before.mcp_view },
        ..before
    })
}

/// What `App::mcp_filter_push` does: `before` is the app before the call,
/// `after` the app after it.
pub open spec fn mcp_filter_push_effect(before: App, after: App, c: char) -> bool {
    &&& after.mcp_view.filter@ == before.mcp_view.filter@.push(c)
    &&& after == (App {
        mcp_view: McpView { filter: after.mcp_view.filter, focused_idx: 0, ..before.mcp_view },
        ..before
    })
}

/// What `App::mcp_filter_pop` does: `before` is the app before the call,
/// `after` the app after it.
pub open spec fn mcp_filter_pop_effect(before: App, after: App) -> bool {
    &&& after.mcp_view.filter@ == (if before.mcp_view.filter@.len() == 0 {
        before.mcp_view.filter@
    } else {
        before.mcp_view.filter@.drop_last()
    })
    &&& after == (App {
        mcp_view: McpView { filter: after.mcp_view.filter, focused_idx: 0, ..before.mcp_view },
        ..before
    })
}

/// What `App::mcp_filter_open` does: `before` is the app before the call,
/// `after` the app after it.
pub open spec fn mcp_filter_open_effect(before: App, after: App) -> bool {
    after == (App {
        mcp_view: McpView { filter_editing: true, ..before.mcp_view },
        ..before
    })
}

/// What `App::mcp_filter_close_keep` does: `before` is the app before the call,
/// `after` the app after it.
pub open spec fn mcp_filter_close_keep_effect(before: App, after: App) -> bool {
    after == (App {
        mcp_view: McpView { filter_editing: false, ..before.mcp_view },
        ..before
    })
}

/// What `App::mcp_filter_clear` does: `before` is the app before the call,
/// `after` the app after it.
pub open spec fn mcp_filter_clear_effect(before: App, after: App) -> bool {
    &&& after.mcp_view.filter@.len() == 0
    &&& after == (App {
        mcp_view: McpView {
            filter: after.mcp_view.filter,
            filter_editing: false,
            focused_idx: 0,
            ..before.mcp_view
        },
        ..before
    })
}

/// What `App::toggle_focused_mcp_selection` does: `before` is the app before the call,
/// `after` the app after it.
pub open spec fn toggle_focused_mcp_selection_effect(before: App, after: App) -> bool {
    match focused_mcp_spec(before.mcp_view) {
        None => after == before,
        Some(s) => {
            &&& id_set(before.mcp_view.selected_ids@).contains(s.id@) ==> id_set(
                after.mcp_view.selected_ids@,
            ) == id_set(before.mcp_view.selected_ids@).remove(s.id@)
            &&& !id_set(before.mcp_view.selected_ids@).contains(s.id@) ==> id_set(
                after.mcp_view.selected_ids@,
            ) == id_set(before.mcp_view.selected_ids@).insert(s.id@)
            &&& distinct_ids(before.mcp_view.selected_ids@) ==> distinct_ids(
                after.mcp_view.selected_ids@,
            )
            &&& after == (App {
                mcp_view: McpView {
                    selected_ids: after.mcp_view.selected_ids,
                    ..before.mcp_view
                },
                ..before
            })
        },
    }
}

/// What `App::open_agent_popup_for_focused_mcp` does: `before` is the app before the call,
/// `after` the app after it.
pub open spec fn open_agent_popup_for_focused_mcp_effect(before: App, after: App) -> bool {
    match focused_mcp_spec(before.mcp_view) {
        None => after == before,
        Some(s) => after.agent_popup matches Some(p) && p.target == AgentPopupTarget::Mcp
            && p.row_id == s.id && p.row_name == s.name && p.cursor == 0 && p.enabled@.len()
            == before.agents@.len() && (forall|i: int|
            0 <= i < before.agents@.len() ==> #[trigger] p.enabled@[i] == flag_at(s.enabled@, i))
            && after == (App { agent_popup: after.agent_popup, ..before }),
    }
}

impl App {
    /// Replaces the rows with `servers` as read from the store. The focus is
    /// clamped into the new list, the selection keeps only ids still
    /// present, and the filter is kept.
    pub fn reload_mcp(&mut self, servers: Vec<McpServer>)
        ensures
            final(self).mcp_view.servers == servers,
            final(self).mcp_view.focused_idx == clamp_focus(old(self).mcp_view.focused_idx, servers@.len()),
            id_set(final(self).mcp_view.selected_ids@) == id_set(old(self).mcp_view.selected_ids@).intersect(
                id_set(server_ids(servers@)),
            ),
            distinct_ids(final(self).mcp_view.selected_ids@),
            final(self).mcp_view.filter == old(self).mcp_view.filter,
            final(self).mcp_view.filter_editing == old(self).mcp_view.filter_editing,
            *final(self) == (App { mcp_view: final(self).mcp_view, ..*old(self) }),
    {
        let mut ids: Vec<String> = Vec::new();
        let n = servers.len();
        for i in 0..n
            invariant
                n == servers@.len(),
                ids@ == server_ids(servers@).take(i as int),
        {
            ids.push(servers[i].id.clone());
            assert(ids@ =~= server_ids(servers@).take(i + 1));
        }
        assert(server_ids(servers@).take(n as int) =~= server_ids(servers@));
        let selected = retain_ids(&self.mcp_view.selected_ids, &ids);
        let focused = clamp_focus_exec(self.mcp_view.focused_idx, n);
        self.mcp_view.servers = servers;
        self.mcp_view.selected_ids = selected;
        self.mcp_view.focused_idx = focused;
    }

    /// Indices of the rows the filter shows.
    pub fn filtered_mcp_indices(&self) -> (r: Vec<usize>)
        ensures
            r@ == mcp_filter_spec(self.mcp_view.servers@, self.mcp_view.filter@),
    {
        mcp_indices(&self.mcp_view.servers, &self.mcp_view.filter)
    }

    /// The row under the cursor, if the cursor is on a shown row.
    pub fn focused_mcp(&self) -> (r: Option<&McpServer>)
        ensures
            r matches Some(s) ==> focused_mcp_spec(self.mcp_view) == Some(*s),
            r is None ==> focused_mcp_spec(self.mcp_view) is None,
    {
        let shown = self.filtered_mcp_indices();
        // `len` bounds the row count by `usize::MAX`, which the lemma needs.
        let rows: usize = self.mcp_view.servers.len();
        proof {
            assert(rows == self.mcp_view.servers@.len());
            lemma_mcp_filter_in_range(self.mcp_view);
        }
        if self.mcp_view.focused_idx < shown.len() {
            let idx = shown[self.mcp_view.focused_idx];
            Some(&self.mcp_view.servers[idx])
        } else {
            None
        }
    }

    /// Puts the cursor on the first shown row (`g`), or on the last one
    /// when `to_last` (`G`); nothing happens when no row is shown.
    pub fn jump_mcp_focus(&mut self, to_last: bool)
        ensures
            jump_mcp_focus_effect(*old(self), *final(self), to_last),
    {
        let n = self.filtered_mcp_indices().len();
        if n == 0 {
            return;
        }
        self.mcp_view.focused_idx = if to_last { n - 1 } else { 0 };
    }

    /// Moves the cursor by `delta` among the shown rows, wrapping around;
    /// nothing happens when no row is shown.
    pub fn move_mcp_focus(&mut self, delta: i32)
        requires
            old(self).mcp_view.servers@.len() <= i32::MAX,
            old(self).mcp_view.focused_idx <= i32::MAX,
            old(self).mcp_view.focused_idx + delta <= i32::MAX,
        ensures
            move_mcp_focus_effect(*old(self), *final(self), delta),
    {
        let n = self.filtered_mcp_indices().len();
        proof {
            lemma_mcp_filter_in_range(self.mcp_view);
        }
        if n == 0 {
            return;
        }
        self.mcp_view.focused_idx = wrap_step(self.mcp_view.focused_idx, delta, n);
    }

    /// Appends a character to the filter and puts the cursor on the first row.
    pub fn mcp_filter_push(&mut self, c: char)
        ensures
            mcp_filter_push_effect(*old(self), *final(self), c),
    {
        push_char(&mut self.mcp_view.filter, c);
        self.mcp_view.focused_idx = 0;
    }

    /// Deletes the filter's last character (if any) and puts the cursor on
    /// the first row.
    pub fn mcp_filter_pop(&mut self)
        ensures
            mcp_filter_pop_effect(*old(self), *final(self)),
    {
        let _ = pop_char(&mut self.mcp_view.filter);
        self.mcp_view.focused_idx = 0;
    }

    /// Starts typing into the filter.
    pub fn mcp_filter_open(&mut self)
        ensures
            mcp_filter_open_effect(*old(self), *final(self)),
    {
        self.mcp_view.filter_editing = true;
    }

    /// Stops typing, keeping the filter text.
    pub fn mcp_filter_close_keep(&mut self)
        ensures
            mcp_filter_close_keep_effect(*old(self), *final(self)),
    {
        self.mcp_view.filter_editing = false;
    }

    /// Empties the filter, stops typing and puts the cursor on the first row.
    pub fn mcp_filter_clear(&mut self)
        ensures
            mcp_filter_clear_effect(*old(self), *final(self)),
    {
        clear_string(&mut self.mcp_view.filter);
        self.mcp_view.filter_editing = false;
        self.mcp_view.focused_idx = 0;
    }

    /// Adds the row under the cursor to the selection, or removes it when
    /// already selected; nothing happens without a row under the cursor.
    pub fn toggle_focused_mcp_selection(&mut self)
        ensures
            toggle_focused_mcp_selection_effect(*old(self), *final(self)),
    {
        let id = match self.focused_mcp() {
            Some(s) => s.id.clone(),
            None => return,
        };
        toggle_id(&mut self.mcp_view.selected_ids, &id);
    }

    /// Opens the agent popup for the row under the cursor, seeded with the
    /// row's per-agent flags; nothing happens without a row.
    pub fn open_agent_popup_for_focused_mcp(&mut self)
        ensures
            open_agent_popup_for_focused_mcp_effect(*old(self), *final(self)),
    {
        let n = self.agents.len();
        let popup = match self.focused_mcp() {
            Some(s) => AgentPopup {
                target: AgentPopupTarget::Mcp,
                row_id: s.id.clone(),
                row_name: s.name.clone(),
                cursor: 0,
                enabled: flags_for(&s.enabled, n),
            },
            None => return,
        };
        self.agent_popup = Some(popup);
    }

}

} // verus!
