//! The `/` filters of the Skills, MCP and Rules tabs: a case-insensitive
//! substring match of the trimmed filter text against a few fields of each
//! row. An empty (or all-blank) filter shows every row.

use vstd::prelude::*;
use crate::model::{McpServer, Rule, Skill};
use crate::text::{chars_of, contains_chars, has_substring, is_blank, lemma_blank_trims_to_empty, lowercase, to_lower, trim, trimmed};

verus! {

/// The indices `i < n` for which `pred(i)` holds, in increasing order.
pub open spec fn matching_indices(n: nat, pred: spec_fn(int) -> bool) -> Seq<usize>
    decreases n,
{
    if n == 0 {
        Seq::empty()
    } else {
        let prev = matching_indices((n - 1) as nat, pred);
        if pred(n - 1) {
            prev.push((n - 1) as usize)
        } else {
            prev
        }
    }
}

/// The predicate that keeps every index.
pub open spec fn keep_all() -> spec_fn(int) -> bool {
    |i: int| true
}

/// The text the rows are searched for: the filter, trimmed, in lower case.
pub open spec fn needle_of(filter: Seq<char>) -> Seq<char> {
    lowercase(trimmed(filter))
}

/// `field`, lower-cased, contains `needle`.
pub open spec fn field_hit(field: Seq<char>, needle: Seq<char>) -> bool {
    has_substring(lowercase(field), needle)
}

pub open spec fn skill_hit(s: Skill, needle: Seq<char>) -> bool {
    field_hit(s.name@, needle) || match s.description {
        Some(d) => field_hit(d@, needle),
        None => false,
    }
}

pub open spec fn mcp_hit(s: McpServer, needle: Seq<char>) -> bool {
    field_hit(s.name@, needle) || field_hit(s.command@, needle)
}

pub open spec fn rule_hit(r: Rule, needle: Seq<char>) -> bool {
    field_hit(r.name@, needle) || field_hit(r.body@, needle)
}

/// Rows of `skills` shown under `filter`: every row when the needle is
/// empty, otherwise those whose name or description contains it.
pub open spec fn skill_filter_spec(skills: Seq<Skill>, filter: Seq<char>) -> Seq<usize> {
    let needle = needle_of(filter);
    if needle.len() == 0 {
        matching_indices(skills.len(), keep_all())
    } else {
        matching_indices(skills.len(), |i: int| skill_hit(skills[i], needle))
    }
}

/// Rows of `servers` shown under `filter`: name or command contains the needle.
pub open spec fn mcp_filter_spec(servers: Seq<McpServer>, filter: Seq<char>) -> Seq<usize> {
    let needle = needle_of(filter);
    if needle.len() == 0 {
        matching_indices(servers.len(), keep_all())
    } else {
        matching_indices(servers.len(), |i: int| mcp_hit(servers[i], needle))
    }
}

/// Rows of `rules` shown under `filter`: name or body contains the needle.
pub open spec fn rule_filter_spec(rules: Seq<Rule>, filter: Seq<char>) -> Seq<usize> {
    let needle = needle_of(filter);
    if needle.len() == 0 {
        matching_indices(rules.len(), keep_all())
    } else {
        matching_indices(rules.len(), |i: int| rule_hit(rules[i], needle))
    }
}

/// Every index of `matching_indices(n, p)` is below `n`, satisfies `p`, and
/// the indices strictly increase.
pub proof fn lemma_matching_indices(n: nat, pred: spec_fn(int) -> bool)
    requires
        n <= usize::MAX,
    ensures
        matching_indices(n, pred).len() <= n,
        forall|k: int|
            0 <= k < matching_indices(n, pred).len() ==> (#[trigger] matching_indices(n, pred)[k])
                < n && pred(matching_indices(n, pred)[k] as int),
        forall|k: int, l: int|
            0 <= k < l < matching_indices(n, pred).len() ==> #[trigger] matching_indices(n, pred)[k]
                < #[trigger] matching_indices(n, pred)[l],
    decreases n,
{
    if n > 0 {
        let prev = matching_indices((n - 1) as nat, pred);
        lemma_matching_indices((n - 1) as nat, pred);
        let cur = matching_indices(n, pred);
        assert(cur == if pred(n - 1) { prev.push((n - 1) as usize) } else { prev });
        assert forall|k: int| 0 <= k < cur.len() implies (#[trigger] cur[k]) < n && pred(
            cur[k] as int,
        ) by {
            if k < prev.len() {
                assert(cur[k] == prev[k]);
            }
        }
        assert forall|k: int, l: int| 0 <= k < l < cur.len() implies #[trigger] cur[k]
            < #[trigger] cur[l] by {
            assert(cur[k] == prev[k]);
            if l < prev.len() {
                assert(cur[l] == prev[l]);
            }
        }
    }
}

/// With an always-true predicate every index is kept.
pub proof fn lemma_matching_all(n: nat)
    requires
        n <= usize::MAX,
    ensures
        matching_indices(n, keep_all()).len() == n,
        forall|k: int| 0 <= k < n ==> #[trigger] matching_indices(n, keep_all())[k] == k,
    decreases n,
{
    if n > 0 {
        lemma_matching_all((n - 1) as nat);
        let prev = matching_indices((n - 1) as nat, keep_all());
        let cur = matching_indices(n, keep_all());
        assert(cur == prev.push((n - 1) as usize));
        assert forall|k: int| 0 <= k < n implies #[trigger] cur[k] == k by {
            if k < n - 1 {
                assert(cur[k] == prev[k]);
            }
        }
    }
}

/// The lower-cased needle for a filter string.
pub fn needle(filter: &String) -> (r: Vec<char>)
    ensures
        r@ == needle_of(filter@),
        is_blank(filter@) ==> r@.len() == 0,
{
    let t = trim(filter.as_str());
    proof {
        if is_blank(filter@) {
            lemma_blank_trims_to_empty(filter@);
        }
    }
    let l = to_lower(t.as_str());
    chars_of(l.as_str())
}

/// Whether the lower-cased `field` contains `needle`.
pub fn field_matches(field: &String, needle: &Vec<char>) -> (b: bool)
    ensures
        b == field_hit(field@, needle@),
{
    let l = to_lower(field.as_str());
    let lc = chars_of(l.as_str());
    contains_chars(&lc, needle)
}

/// Indices of the skills shown under `filter`.
pub fn skill_indices(skills: &Vec<Skill>, filter: &String) -> (r: Vec<usize>)
    ensures
        r@ == skill_filter_spec(skills@, filter@),
        is_blank(filter@) ==> r@.len() == skills@.len() && forall|k: int| 0 <= k < r@.len() ==> #[trigger] r@[k] == k,
{
    let nd = needle(filter);
    let all = nd.len() == 0;
    let ghost pred = if all { keep_all() } else { |i: int| skill_hit(skills@[i], nd@) };
    let mut out: Vec<usize> = Vec::new();
    let n = skills.len();
    for i in 0..n
        invariant
            n == skills@.len(),
            nd@ == needle_of(filter@),
            all == (nd@.len() == 0),
            pred == (if all { keep_all() } else { |i: int| skill_hit(skills@[i], nd@) }),
            out@ == matching_indices(i as nat, pred),
    {
        let keep = if all {
            true
        } else {
            let s = &skills[i];
            let by_name = field_matches(&s.name, &nd);
            if by_name {
                true
            } else {
                match &s.description {
                    Some(d) => field_matches(d, &nd),
                    None => false,
                }
            }
        };
        assert(keep == pred(i as int));
        if keep {
            out.push(i);
        }
    }
    proof {
        if all {
            lemma_matching_all(n as nat);
        }
        if !all {
            assert(pred =~= |i: int| skill_hit(skills@[i], needle_of(filter@)));
        }
    }
    out
}

/// Indices of the MCP servers shown under `filter`.
pub fn mcp_indices(servers: &Vec<McpServer>, filter: &String) -> (r: Vec<usize>)
    ensures
        r@ == mcp_filter_spec(servers@, filter@),
        is_blank(filter@) ==> r@.len() == servers@.len() && forall|k: int| 0 <= k < r@.len() ==> #[trigger] r@[k] == k,
{
    let nd = needle(filter);
    let all = nd.len() == 0;
    let ghost pred = if all { keep_all() } else { |i: int| mcp_hit(servers@[i], nd@) };
    let mut out: Vec<usize> = Vec::new();
    let n = servers.len();
    for i in 0..n
        invariant
            n == servers@.len(),
            nd@ == needle_of(filter@),
            all == (nd@.len() == 0),
            pred == (if all { keep_all() } else { |i: int| mcp_hit(servers@[i], nd@) }),
            out@ == matching_indices(i as nat, pred),
    {
        let keep = if all {
            true
        } else {
            let s = &servers[i];
            field_matches(&s.name, &nd) || field_matches(&s.command, &nd)
        };
        assert(keep == pred(i as int));
        if keep {
            out.push(i);
        }
    }
    proof {
        if all {
            lemma_matching_all(n as nat);
        }
        if !all {
            assert(pred =~= |i: int| mcp_hit(servers@[i], needle_of(filter@)));
        }
    }
    out
}

/// Indices of the rules shown under `filter`.
pub fn rule_indices(rules: &Vec<Rule>, filter: &String) -> (r: Vec<usize>)
    ensures
        r@ == rule_filter_spec(rules@, filter@),
        is_blank(filter@) ==> r@.len() == rules@.len() && forall|k: int| 0 <= k < r@.len() ==> #[trigger] r@[k] == k,
{
    let nd = needle(filter);
    let all = nd.len() == 0;
    let ghost pred = if all { keep_all() } else { |i: int| rule_hit(rules@[i], nd@) };
    let mut out: Vec<usize> = Vec::new();
    let n = rules.len();
    for i in 0..n
        invariant
            n == rules@.len(),
            nd@ == needle_of(filter@),
            all == (nd@.len() == 0),
            pred == (if all { keep_all() } else { |i: int| rule_hit(rules@[i], nd@) }),
            out@ == matching_indices(i as nat, pred),
    {
        let keep = if all {
            true
        } else {
            let r = &rules[i];
            field_matches(&r.name, &nd) || field_matches(&r.body, &nd)
        };
        assert(keep == pred(i as int));
        if keep {
            out.push(i);
        }
    }
    proof {
        if all {
            lemma_matching_all(n as nat);
        }
        if !all {
            assert(pred =~= |i: int| rule_hit(rules@[i], needle_of(filter@)));
        }
    }
    out
}

} // verus!
