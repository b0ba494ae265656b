//! The tab strip: the tabs in display order, their titles, and the clickable
//! rectangles of their labels.

use vstd::prelude::*;
use crate::text::{cat3, chars_of, decimal, fmt_u64};

verus! {

/// One top-level tab.
#[derive(Debug, Clone, Copy, PartialEq, Eq, Structural)]
pub enum Tab {
    Profiles,
    Skills,
    Mcp,
    Rules,
    Plugins,
    Backup,
    Sessions,
    Settings,
}

/// Number of tabs shown in the strip (Sessions is not among them).
pub open spec fn tab_count() -> int {
    7
}

/// The tab at display position `i` (`Settings` past the end).
pub open spec fn tab_at(i: int) -> Tab {
    if i == 0 {
        Tab::Profiles
    } else if i == 1 {
        Tab::Skills
    } else if i == 2 {
        Tab::Mcp
    } else if i == 3 {
        Tab::Rules
    } else if i == 4 {
        Tab::Plugins
    } else if i == 5 {
        Tab::Backup
    } else {
        Tab::Settings
    }
}

impl Tab {
    /// Display position of the tab; `Sessions`, which is not shown, maps to 0.
    pub open spec fn pos(self) -> usize {
        match self {
            Tab::Profiles => 0,
            Tab::Skills => 1,
            Tab::Mcp => 2,
            Tab::Rules => 3,
            Tab::Plugins => 4,
            Tab::Backup => 5,
            Tab::Sessions => 0,
            Tab::Settings => 6,
        }
    }

    pub open spec fn title_spec(self) -> Seq<char> {
        match self {
            Tab::Profiles => "Profiles"@,
            Tab::Skills => "Skills"@,
            Tab::Mcp => "MCP"@,
            Tab::Rules => "Rules"@,
            Tab::Plugins => "Plugins"@,
            Tab::Backup => "Backup"@,
            Tab::Sessions => "Sessions"@,
            Tab::Settings => "Settings"@,
        }
    }

    /// The shown tabs in display order.
    pub fn all() -> (r: Vec<Tab>)
        ensures
            r@.len() == tab_count(),
            forall|i: int| 0 <= i < tab_count() ==> #[trigger] r@[i] == tab_at(i),
    {
        let mut v: Vec<Tab> = Vec::new();
        v.push(Tab::Profiles);
        v.push(Tab::Skills);
        v.push(Tab::Mcp);
        v.push(Tab::Rules);
        v.push(Tab::Plugins);
        v.push(Tab::Backup);
        v.push(Tab::Settings);
        v
    }

    /// Title shown in the strip.
    pub fn title(self) -> (r: &'static str)
        ensures
            r@ == self.title_spec(),
    {
        match self {
            Tab::Profiles => "Profiles",
            Tab::Skills => "Skills",
            Tab::Mcp => "MCP",
            Tab::Rules => "Rules",
            Tab::Plugins => "Plugins",
            Tab::Backup => "Backup",
            Tab::Sessions => "Sessions",
            Tab::Settings => "Settings",
        }
    }

    /// Position of the tab in the strip; a tab that is not shown gives 0.
    pub fn index(self) -> (r: usize)
        ensures
            r == self.pos(),
            r < tab_count(),
    {
        match self {
            Tab::Profiles => 0,
            Tab::Skills => 1,
            Tab::Mcp => 2,
            Tab::Rules => 3,
            Tab::Plugins => 4,
            Tab::Backup => 5,
            Tab::Sessions => 0,
            Tab::Settings => 6,
        }
    }

    /// The tab at position `i` of the strip, if there is one.
    pub fn from_index(i: usize) -> (r: Option<Tab>)
        ensures
            i < tab_count() ==> r == Some(tab_at(i as int)),
            i >= tab_count() ==> r is None,
    {
        if i == 0 {
            Some(Tab::Profiles)
        } else if i == 1 {
            Some(Tab::Skills)
        } else if i == 2 {
            Some(Tab::Mcp)
        } else if i == 3 {
            Some(Tab::Rules)
        } else if i == 4 {
            Some(Tab::Plugins)
        } else if i == 5 {
            Some(Tab::Backup)
        } else if i == 6 {
            Some(Tab::Settings)
        } else {
            None
        }
    }
}

/// Every shown tab sits at its own position: `tab_at(t.pos()) == t`.
pub proof fn lemma_tab_positions(t: Tab)
    requires
        t != Tab::Sessions,
    ensures
        tab_at(t.pos() as int) == t,
{
}

/// The tab after `t` in the strip, wrapping from the last to the first.
pub open spec fn next_tab_spec(t: Tab) -> Tab {
    tab_at((t.pos() + 1) % tab_count())
}

/// The tab before `t` in the strip, wrapping from the first to the last.
pub open spec fn prev_tab_spec(t: Tab) -> Tab {
    tab_at((t.pos() + tab_count() - 1) % tab_count())
}

/// Going forward then back returns to the same shown tab, and so does
/// going back then forward.
pub proof fn lemma_next_prev_inverse(t: Tab)
    requires
        t != Tab::Sessions,
    ensures
        prev_tab_spec(next_tab_spec(t)) == t,
        next_tab_spec(prev_tab_spec(t)) == t,
{
}

/// Seven steps forward visit every shown tab once and come back.
pub proof fn lemma_next_cycles(t: Tab)
    requires
        t != Tab::Sessions,
    ensures
        next_tab_spec(next_tab_spec(next_tab_spec(next_tab_spec(next_tab_spec(next_tab_spec(
            next_tab_spec(t),
        )))))) == t,
{
}

/// Going back moves one position left, from the first tab to the last,
/// and seven steps back visit every shown tab once and come back.
pub proof fn lemma_prev_cycles(t: Tab)
    requires
        t != Tab::Sessions,
    ensures
        prev_tab_spec(t) == tab_at((t.pos() + 6) % 7),
        prev_tab_spec(tab_at(0)) == Tab::Settings,
        prev_tab_spec(prev_tab_spec(prev_tab_spec(prev_tab_spec(prev_tab_spec(prev_tab_spec(
            prev_tab_spec(t),
        )))))) == t,
{
}

/// A rectangle in terminal cells.
#[derive(Debug, Clone, Copy, PartialEq, Eq, Structural)]
pub struct Rect {
    pub x: u16,
    pub y: u16,
    pub width: u16,
    pub height: u16,
}

/// One tab label's clickable rectangle and the tab it activates.
#[derive(Debug, Clone, Copy, PartialEq, Eq, Structural)]
pub struct TabHit {
    pub tab: Tab,
    pub x: u16,
    pub y: u16,
    pub w: u16,
    pub h: u16,
}

impl TabHit {
    pub open spec fn contains_spec(self, col: u16, row: u16) -> bool {
        col >= self.x && col < self.x + self.w && row >= self.y && row < self.y + self.h
    }

    /// Whether the cell at `(col, row)` lies inside the rectangle.
    pub fn contains(self, col: u16, row: u16) -> (b: bool)
        requires
            self.x + self.w <= u16::MAX,
            self.y + self.h <= u16::MAX,
        ensures
            b == self.contains_spec(col, row),
    {
        col >= self.x && col < self.x + self.w && row >= self.y && row < self.y + self.h
    }
}

/// `a + b`, capped at `u16::MAX`.
pub open spec fn sat_add(a: int, b: int) -> u16 {
    if a + b > u16::MAX {
        u16::MAX
    } else {
        (a + b) as u16
    }
}

/// `a - b`, floored at 0.
pub open spec fn sat_sub(a: int, b: int) -> u16 {
    if a - b < 0 {
        0
    } else {
        (a - b) as u16
    }
}

/// Label text of the tab at position `i`: ` N Title `.
pub open spec fn tab_label(i: int) -> Seq<char> {
    seq![' '] + decimal((i + 1) as nat) + seq![' '] + tab_at(i).title_spec() + seq![' ']
}

/// Label width in cells, as the 16-bit value the layout uses.
pub open spec fn tab_label_width(i: int) -> u16 {
    tab_label(i).len() as u16
}

/// The rectangles of the labels from position `i` on, the first starting at
/// column `col` on `row`; labels are `3` cells apart (a space, the divider
/// and a space), none starts at or past `right_edge`, and each is clipped
/// to end there.
pub open spec fn tab_hits_from(i: int, col: u16, row: u16, right_edge: u16) -> Seq<TabHit>
    decreases tab_count() - i,
{
    if i < 0 || i >= tab_count() || col >= right_edge {
        Seq::empty()
    } else {
        let w = tab_label_width(i);
        let clamped = if w < right_edge - col { w } else { (right_edge - col) as u16 };
        let hit = TabHit { tab: tab_at(i), x: col, y: row, w: clamped, h: 1 };
        let after = sat_add(col as int, w as int);
        let next_col = if i != tab_count() - 1 { sat_add(after as int, 3) } else { after };
        seq![hit] + tab_hits_from(i + 1, next_col, row, right_edge)
    }
}

/// Click rectangles of the tab labels drawn inside the bordered strip
/// `area`: labels sit on the row below the top border, starting one cell
/// in from the left border and staying inside the right border.
pub open spec fn tab_bar_hits_spec(area: Rect) -> Seq<TabHit> {
    tab_hits_from(
        0,
        (area.x + 1) as u16,
        (area.y + 1) as u16,
        (area.x + sat_sub(area.width as int, 1)) as u16,
    )
}

/// Every label rectangle from position `i` on starts at or after `col`, lies
/// on `row`, is one cell high and ends at or before `right_edge`.
proof fn lemma_tab_hits_from_inside(i: int, col: u16, row: u16, right_edge: u16)
    ensures
        forall|k: int|
            0 <= k < tab_hits_from(i, col, row, right_edge).len() ==> {
                let h = #[trigger] tab_hits_from(i, col, row, right_edge)[k];
                &&& col <= h.x
                &&& h.x + h.w <= right_edge
                &&& h.y == row
                &&& h.h == 1
            },
    decreases tab_count() - i,
{
    if i < 0 || i >= tab_count() || col >= right_edge {
    } else {
        let w = tab_label_width(i);
        let after = sat_add(col as int, w as int);
        let next_col = if i != tab_count() - 1 { sat_add(after as int, 3) } else { after };
        lemma_tab_hits_from_inside(i + 1, next_col, row, right_edge);
        let rest = tab_hits_from(i + 1, next_col, row, right_edge);
        assert forall|k: int| 1 <= k < tab_hits_from(i, col, row, right_edge).len() implies
            #[trigger] tab_hits_from(i, col, row, right_edge)[k] == rest[k - 1] by {}
    }
}

/// The clickable label rectangles all lie inside the strip drawn in `area`:
/// on the row below its top border, between its left and right borders.
pub proof fn lemma_tab_hits_inside(area: Rect)
    requires
        area.x < u16::MAX,
        area.y < u16::MAX,
        area.x + area.width <= u16::MAX + 1,
    ensures
        forall|k: int|
            0 <= k < tab_bar_hits_spec(area).len() ==> {
                let h = #[trigger] tab_bar_hits_spec(area)[k];
                &&& area.x + 1 <= h.x
                &&& h.x + h.w < area.x + area.width
                &&& h.y == area.y + 1
                &&& h.h == 1
            },
{
    lemma_tab_hits_from_inside(
        0,
        (area.x + 1) as u16,
        (area.y + 1) as u16,
        (area.x + sat_sub(area.width as int, 1)) as u16,
    );
}

/// Cells taken by the `k` labels from position `i` on, each followed by
/// the 3-cell gap (a space, the divider and a space).
pub open spec fn labels_span(i: int, k: nat) -> int
    decreases k,
{
    if k == 0 {
        0
    } else {
        labels_span(i, (k - 1) as nat) + tab_label_width(i + k - 1) + 3
    }
}

/// The span of `k + 1` labels from `i` is the first label and its gap,
/// then the span of `k` labels from `i + 1`.
proof fn lemma_labels_span_front(i: int, k: nat)
    ensures
        labels_span(i, k + 1) == tab_label_width(i) + 3 + labels_span(i + 1, k),
    decreases k,
{
    assert(labels_span(i, k + 1) == labels_span(i, k) + tab_label_width(i + k) + 3);
    if k > 0 {
        lemma_labels_span_front(i, (k - 1) as nat);
        assert(labels_span(i + 1, k) == labels_span(i + 1, (k - 1) as nat) + tab_label_width(i + k) + 3);
    } else {
        assert(labels_span(i, 0) == 0);
        assert(labels_span(i + 1, 0) == 0);
    }
}

/// Every label of a shown tab is at least three cells wide (its spaces
/// alone).
proof fn lemma_label_width_positive(i: int)
    requires
        0 <= i < tab_count(),
    ensures
        tab_label_width(i) >= 3,
{
    reveal_strlit("Profiles");
    reveal_strlit("Skills");
    reveal_strlit("MCP");
    reveal_strlit("Rules");
    reveal_strlit("Plugins");
    reveal_strlit("Backup");
    reveal_strlit("Settings");
    assert(decimal((i + 1) as nat).len() == 1);
    assert(tab_at(i).title_spec().len() <= 8);
    assert(tab_label(i).len() <= 12);
}

/// The rectangles from position `i` on, starting at column `col`: the
/// `k`-th one is the label of the tab at `i + k`, starts `labels_span(i, k)`
/// cells after `col`, and is as wide as its label unless clipped at
/// `right_edge`; it ends before the next one starts.
proof fn lemma_tab_hits_from_layout(i: int, col: u16, row: u16, right_edge: u16)
    requires
        0 <= i,
    ensures
        forall|k: int|
            0 <= k < tab_hits_from(i, col, row, right_edge).len() ==> {
                let h = #[trigger] tab_hits_from(i, col, row, right_edge)[k];
                &&& h.tab == tab_at(i + k)
                &&& h.x == col + labels_span(i, k as nat)
                &&& 1 <= h.w <= tab_label_width(i + k)
                &&& (h.w == tab_label_width(i + k) || h.x + h.w == right_edge)
            },
    decreases tab_count() - i,
{
    if i < 0 || i >= tab_count() || col >= right_edge {
    } else {
        let w = tab_label_width(i);
        lemma_label_width_positive(i);
        let after = sat_add(col as int, w as int);
        let next_col = if i != tab_count() - 1 { sat_add(after as int, 3) } else { after };
        lemma_tab_hits_from_layout(i + 1, next_col, row, right_edge);
        let all = tab_hits_from(i, col, row, right_edge);
        let rest = tab_hits_from(i + 1, next_col, row, right_edge);
        assert forall|k: int| 0 <= k < all.len() implies {
            let h = #[trigger] all[k];
            &&& h.tab == tab_at(i + k)
            &&& h.x == col + labels_span(i, k as nat)
            &&& 1 <= h.w <= tab_label_width(i + k)
            &&& (h.w == tab_label_width(i + k) || h.x + h.w == right_edge)
        } by {
            if k > 0 {
                assert(all[k] == rest[k - 1]);
                assert(rest.len() > 0);
                assert(next_col < right_edge);
                assert(next_col == col + w + 3);
                lemma_labels_span_front(i, (k - 1) as nat);
            }
        }
    }
}

/// Where the tab labels sit in a strip drawn in `area`: label `k` is the
/// `k`-th tab's, starts one cell in from the left border plus the widths of
/// the earlier labels and 3 cells after each, is as wide as its label
/// unless clipped at the right border, and ends before the next begins, so
/// no two rectangles overlap.
pub proof fn lemma_tab_hits_layout(area: Rect)
    requires
        area.x < u16::MAX,
        area.y < u16::MAX,
        area.x + area.width <= u16::MAX + 1,
    ensures
        tab_bar_hits_spec(area).len() <= tab_count(),
        forall|k: int|
            0 <= k < tab_bar_hits_spec(area).len() ==> {
                let h = #[trigger] tab_bar_hits_spec(area)[k];
                &&& h.tab == tab_at(k)
                &&& h.x == area.x + 1 + labels_span(0, k as nat)
                &&& 1 <= h.w <= tab_label_width(k)
                &&& h.y == area.y + 1
                &&& h.h == 1
            },
        forall|k: int|
            0 <= k < tab_bar_hits_spec(area).len() - 1 ==> #[trigger] tab_bar_hits_spec(area)[k].x
                + tab_bar_hits_spec(area)[k].w < tab_bar_hits_spec(area)[k + 1].x,
{
    let col = (area.x + 1) as u16;
    let row = (area.y + 1) as u16;
    let re = (area.x + sat_sub(area.width as int, 1)) as u16;
    lemma_tab_hits_from_layout(0, col, row, re);
    lemma_tab_hits_from_inside(0, col, row, re);
    lemma_tab_hits_len(0, col, row, re);
    let hits = tab_bar_hits_spec(area);
    assert forall|k: int| 0 <= k < hits.len() - 1 implies #[trigger] hits[k].x + hits[k].w < hits[k + 1].x by {
        assert(hits[k].x == col + labels_span(0, k as nat));
        assert(hits[k + 1].x == col + labels_span(0, (k + 1) as nat));
        assert(hits[k].w <= tab_label_width(k));
    }
}

/// At most one rectangle per tab from position `i` on.
proof fn lemma_tab_hits_len(i: int, col: u16, row: u16, right_edge: u16)
    requires
        0 <= i,
    ensures
        tab_hits_from(i, col, row, right_edge).len() <= if i < tab_count() { tab_count() - i } else { 0 },
    decreases tab_count() - i,
{
    if i < 0 || i >= tab_count() || col >= right_edge {
    } else {
        let w = tab_label_width(i);
        let after = sat_add(col as int, w as int);
        let next_col = if i != tab_count() - 1 { sat_add(after as int, 3) } else { after };
        lemma_tab_hits_len(i + 1, next_col, row, right_edge);
    }
}

fn tab_label_text(i: usize) -> (r: String)
    requires
        i < tab_count(),
    ensures
        r@ == tab_label(i as int),
{
    let t = Tab::from_index(i).unwrap();
    let num = fmt_u64((i + 1) as u64);
    let mut s = cat3(" ", num.as_str(), " ");
    s.append(t.title());
    s.append(" ");
    proof {
        reveal_strlit(" ");
        assert(s@ =~= tab_label(i as int));
    }
    s
}

/// Click rectangles of the tab labels for a strip drawn in `area`.
pub fn tab_bar_hits(area: Rect) -> (r: Vec<TabHit>)
    requires
        area.x < u16::MAX,
        area.y < u16::MAX,
        area.x + area.width <= u16::MAX + 1,
    ensures
        r@ == tab_bar_hits_spec(area),
{
    let row = area.y + 1;
    let mut col = area.x + 1;
    let right_edge = area.x + area.width.saturating_sub(1);
    let mut hits: Vec<TabHit> = Vec::new();
    let mut i: usize = 0;
    while i < 7
        invariant
            i <= 7,
            row == (area.y + 1) as u16,
            right_edge == (area.x + sat_sub(area.width as int, 1)) as u16,
            hits@ + tab_hits_from(i as int, col, row, right_edge) == tab_bar_hits_spec(area),
        decreases 7 - i,
    {
        if col >= right_edge {
            assert(tab_hits_from(i as int, col, row, right_edge) =~= Seq::<TabHit>::empty());
            assert(hits@ =~= hits@ + Seq::<TabHit>::empty());
            return hits;
        }
        let label = tab_label_text(i);
        let w = chars_of(label.as_str()).len() as u16;
        let room = right_edge - col;
        let clamped = if w < room { w } else { room };
        let t = Tab::from_index(i).unwrap();
        let ghost old_hits = hits@;
        let ghost old_col = col;
        hits.push(TabHit { tab: t, x: col, y: row, w: clamped, h: 1 });
        col = col.saturating_add(w);
        if i != 6 {
            col = col.saturating_add(3);
        }
        proof {
            assert(hits@ + tab_hits_from(i + 1, col, row, right_edge) =~= old_hits + tab_hits_from(
                i as int,
                old_col,
                row,
                right_edge,
            ));
        }
        i = i + 1;
    }
    assert(hits@ =~= hits@ + tab_hits_from(7, col, row, right_edge));
    hits
}

} // verus!
