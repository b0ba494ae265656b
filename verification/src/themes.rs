//! Colour themes: the built-in slugs, the list the Settings tab cycles
//! through, and the palette used when no theme file can be read.

use vstd::prelude::*;
use crate::sort::{key_le, lemma_lex_total, lemma_lex_trans, lex_le};
use crate::text::{chars_of, same_text};

verus! {

/// The built-in theme slugs in their defined order.
pub open spec fn builtin_names_spec() -> Seq<Seq<char>> {
    seq![
        "dark"@,
        "light"@,
        "dracula"@,
        "nord"@,
        "gruvbox"@,
        "monokai"@,
        "solarized"@,
        "catppuccin-mocha"@,
        "catppuccin-macchiato"@,
        "catppuccin-frappe"@,
        "catppuccin-latte"@,
        "vesper"@,
        "noir-berry"@,
        "velvet-ember"@,
        "slater"@,
        "cardinal"@,
        "abyss"@,
    ]
}

/// Views of a list of strings.
pub open spec fn names_view(v: Seq<String>) -> Seq<Seq<char>> {
    v.map_values(|s: String| s@)
}

/// All built-in theme slugs in their defined order.
pub fn all_builtin_names() -> (r: Vec<String>)
    ensures
        names_view(r@) == builtin_names_spec(),
{
    let lits: [&'static str; 17] = [
        "dark",
        "light",
        "dracula",
        "nord",
        "gruvbox",
        "monokai",
        "solarized",
        "catppuccin-mocha",
        "catppuccin-macchiato",
        "catppuccin-frappe",
        "catppuccin-latte",
        "vesper",
        "noir-berry",
        "velvet-ember",
        "slater",
        "cardinal",
        "abyss",
    ];
    let mut r: Vec<String> = Vec::new();
    for i in 0..17
        invariant
            names_view(r@) == builtin_names_spec().take(i as int),
            forall|k: int| 0 <= k < 17 ==> (#[trigger] lits@[k])@ == builtin_names_spec()[k],
    {
        let ghost before = r@;
        let name = String::from_str(lits[i]);
        assert(name@ == builtin_names_spec()[i as int]);
        r.push(name);
        assert(names_view(r@) =~= names_view(before).push(name@));
        assert(builtin_names_spec().take(i + 1) =~= builtin_names_spec().take(i as int).push(
            builtin_names_spec()[i as int],
        ));
    }
    assert(builtin_names_spec().take(17) =~= builtin_names_spec());
    r
}

/// `names` followed by the user slugs not already among them, in order.
pub open spec fn theme_list_spec(names: Seq<Seq<char>>, user: Seq<Seq<char>>) -> Seq<Seq<char>>
    decreases user.len(),
{
    if user.len() == 0 {
        names
    } else {
        let prev = theme_list_spec(names, user.drop_last());
        if prev.contains(user.last()) {
            prev
        } else {
            prev.push(user.last())
        }
    }
}

fn contains_name(v: &Vec<String>, s: &String) -> (b: bool)
    ensures
        b == names_view(v@).contains(s@),
{
    let mut i: usize = 0;
    while i < v.len()
        invariant
            i <= v@.len(),
            forall|k: int| 0 <= k < i ==> (#[trigger] v@[k])@ != s@,
        decreases v@.len() - i,
    {
        if same_text(v[i].as_str(), s.as_str()) {
            assert(names_view(v@)[i as int] == s@);
            return true;
        }
        i = i + 1;
    }
    proof {
        if names_view(v@).contains(s@) {
            let k = choose|k: int| 0 <= k < names_view(v@).len() && names_view(v@)[k] == s@;
            assert(v@[k]@ == s@);
        }
    }
    false
}

/// The themes to cycle through: the built-in slugs, then the user's theme
/// slugs (`user`, as found on disk) that are not built in. A user theme
/// with a built-in slug keeps that slot.
pub fn build_theme_list(user: &Vec<String>) -> (r: Vec<String>)
    ensures
        names_view(r@) == theme_list_spec(builtin_names_spec(), names_view(user@)),
{
    let mut names = all_builtin_names();
    let mut i: usize = 0;
    while i < user.len()
        invariant
            i <= user@.len(),
            names_view(names@) == theme_list_spec(builtin_names_spec(), names_view(user@).take(i as int)),
        decreases user@.len() - i,
    {
        let s = &user[i];
        proof {
            assert(names_view(user@).take(i + 1).drop_last() =~= names_view(user@).take(i as int));
            assert(names_view(user@).take(i + 1).last() == s@);
        }
        if !contains_name(&names, s) {
            let ghost before = names@;
            names.push(s.clone());
            assert(names_view(names@) =~= names_view(before).push(s@));
        }
        i = i + 1;
    }
    assert(names_view(user@).take(i as int) =~= names_view(user@));
    names
}

/// A colour as red, green and blue.
#[derive(Debug, Clone, Copy, PartialEq, Eq, Structural)]
pub struct Rgb {
    pub r: u8,
    pub g: u8,
    pub b: u8,
}

/// The named colours of a theme.
#[derive(Debug, Clone, Copy, PartialEq, Eq, Structural)]
pub struct Palette {
    pub surface: Rgb,
    pub surface_alt: Rgb,
    pub primary: Rgb,
    pub secondary: Rgb,
    pub accent: Rgb,
    pub muted: Rgb,
    pub border: Rgb,
    pub border_focus: Rgb,
    pub text: Rgb,
    pub text_dim: Rgb,
    pub success: Rgb,
    pub warning: Rgb,
    pub danger: Rgb,
    pub selection_bg: Rgb,
    pub selection_fg: Rgb,
}

pub open spec fn rgb(r: u8, g: u8, b: u8) -> Rgb {
    Rgb { r, g, b }
}

/// The dark palette built into the program, used when no theme file parses.
pub open spec fn dark_fallback_spec() -> Palette {
    Palette {
        surface: rgb(18, 18, 24),
        surface_alt: rgb(30, 30, 40),
        primary: rgb(135, 180, 255),
        secondary: rgb(200, 170, 255),
        accent: rgb(255, 200, 120),
        muted: rgb(130, 130, 140),
        border: rgb(60, 60, 75),
        border_focus: rgb(135, 180, 255),
        text: rgb(230, 230, 240),
        text_dim: rgb(170, 170, 180),
        success: rgb(130, 210, 160),
        warning: rgb(255, 200, 120),
        danger: rgb(255, 120, 140),
        selection_bg: rgb(50, 60, 90),
        selection_fg: rgb(255, 255, 255),
    }
}

pub fn dark_fallback() -> (p: Palette)
    ensures
        p == dark_fallback_spec(),
{
    Palette {
        surface: Rgb { r: 18, g: 18, b: 24 },
        surface_alt: Rgb { r: 30, g: 30, b: 40 },
        primary: Rgb { r: 135, g: 180, b: 255 },
        secondary: Rgb { r: 200, g: 170, b: 255 },
        accent: Rgb { r: 255, g: 200, b: 120 },
        muted: Rgb { r: 130, g: 130, b: 140 },
        border: Rgb { r: 60, g: 60, b: 75 },
        border_focus: Rgb { r: 135, g: 180, b: 255 },
        text: Rgb { r: 230, g: 230, b: 240 },
        text_dim: Rgb { r: 170, g: 170, b: 180 },
        success: Rgb { r: 130, g: 210, b: 160 },
        warning: Rgb { r: 255, g: 200, b: 120 },
        danger: Rgb { r: 255, g: 120, b: 140 },
        selection_bg: Rgb { r: 50, g: 60, b: 90 },
        selection_fg: Rgb { r: 255, g: 255, b: 255 },
    }
}

} // verus!

verus! {

/// The palette of the first entry of `known` from `k` on named `slug`.
pub open spec fn first_palette(known: Seq<(String, Palette)>, slug: Seq<char>, k: int) -> Option<Palette>
    decreases known.len() - k,
{
    if k < 0 || k >= known.len() {
        None
    } else if known[k].0@ == slug {
        Some(known[k].1)
    } else {
        first_palette(known, slug, k + 1)
    }
}

/// The palette a theme name selects among the `known` parsed themes: the
/// first one of that name, else the first one named `dark`, else the
/// palette built into the program.
pub open spec fn palette_for_spec(known: Seq<(String, Palette)>, slug: Seq<char>) -> Palette {
    match first_palette(known, slug, 0) {
        Some(p) => p,
        None => match first_palette(known, "dark"@, 0) {
            Some(p) => p,
            None => dark_fallback_spec(),
        },
    }
}

fn find_palette(known: &Vec<(String, Palette)>, slug: &str) -> (r: Option<Palette>)
    ensures
        r == first_palette(known@, slug@, 0),
{
    let n = known.len();
    let mut k: usize = 0;
    while k < n
        invariant
            n == known@.len(),
            k <= n,
            first_palette(known@, slug@, 0) == first_palette(known@, slug@, k as int),
        decreases n - k,
    {
        if same_text(known[k].0.as_str(), slug) {
            return Some(known[k].1);
        }
        k = k + 1;
    }
    None
}

/// Looks a theme name up among the `known` parsed themes (see
/// `palette_for_spec`): an unknown name falls back to `dark`.
pub fn palette_for(known: &Vec<(String, Palette)>, slug: &str) -> (r: Palette)
    ensures
        r == palette_for_spec(known@, slug@),
{
    match find_palette(known, slug) {
        Some(p) => p,
        None => match find_palette(known, "dark") {
            Some(p) => p,
            None => dark_fallback(),
        },
    }
}

} // verus!

verus! {

/// `c` is the lower-case ASCII letter `lower` in either case (`upper`
/// being its capital).
pub open spec fn either_case(c: char, lower: char, upper: char) -> bool {
    c == lower || c == upper
}

/// A file extension that marks a theme file: `json` in any ASCII case.
pub open spec fn is_theme_ext(ext: Seq<char>) -> bool {
    &&& ext.len() == 4
    &&& either_case(ext[0], 'j', 'J')
    &&& either_case(ext[1], 's', 'S')
    &&& either_case(ext[2], 'o', 'O')
    &&& either_case(ext[3], 'n', 'N')
}

/// Whether a file with extension `ext` is read as a theme: `json` in any
/// ASCII case.
pub fn is_theme_file(ext: &str) -> (r: bool)
    ensures
        r == is_theme_ext(ext@),
{
    let cs = chars_of(ext);
    if cs.len() != 4 {
        return false;
    }
    (cs[0] == 'j' || cs[0] == 'J') && (cs[1] == 's' || cs[1] == 'S') && (cs[2] == 'o' || cs[2] == 'O') && (cs[3]
        == 'n' || cs[3] == 'N')
}

/// The themes are in increasing order of their names.
pub open spec fn sorted_by_slug(v: Seq<(String, Palette)>) -> bool {
    forall|i: int, j: int| 0 <= i < j < v.len() ==> lex_le(#[trigger] v[i].0@, #[trigger] v[j].0@)
}

/// Sorts parsed themes by name (the order of `String`), for the theme list.
pub fn sort_by_slug(v: Vec<(String, Palette)>) -> (r: Vec<(String, Palette)>)
    ensures
        sorted_by_slug(r@),
        r@.to_multiset() == v@.to_multiset(),
        r@.len() == v@.len(),
{
    broadcast use vstd::seq_lib::group_seq_properties;
    broadcast use vstd::multiset::group_multiset_axioms;
    let mut input = v;
    let mut out: Vec<(String, Palette)> = Vec::new();
    let ghost orig = input@;
    proof {
        assert(orig.to_multiset() =~= out@.to_multiset().add(input@.to_multiset()));
    }
    while input.len() > 0
        invariant
            sorted_by_slug(out@),
            orig.to_multiset() == out@.to_multiset().add(input@.to_multiset()),
            out@.len() + input@.len() == orig.len(),
        decreases input@.len(),
    {
        let ghost before_in = input@;
        let x = input.pop().unwrap();
        proof {
            assert(before_in =~= input@.push(x));
        }
        let kx = chars_of(x.0.as_str());
        let mut p = out.len();
        while p > 0 && !key_le(&chars_of(out[p - 1].0.as_str()), &kx)
            invariant
                p <= out@.len(),
                kx@ == x.0@,
                sorted_by_slug(out@),
                forall|j: int| p <= j < out@.len() ==> !lex_le(#[trigger] out@[j].0@, x.0@),
            decreases p,
        {
            p = p - 1;
        }
        let ghost old_out = out@;
        proof {
            assert forall|j: int| p <= j < old_out.len() implies lex_le(x.0@, #[trigger] old_out[j].0@) by {
                lemma_lex_total(x.0@, old_out[j].0@, 0);
            }
            if p > 0 {
                assert(lex_le(old_out[p - 1].0@, x.0@));
                assert forall|i: int| 0 <= i < p implies lex_le(#[trigger] old_out[i].0@, x.0@) by {
                    if i < p - 1 {
                        lemma_lex_trans(old_out[i].0@, old_out[p - 1].0@, x.0@, 0);
                    }
                }
            }
        }
        out.insert(p, x);
        proof {
            let n = out@;
            assert(n =~= old_out.insert(p as int, x));
            assert forall|i: int, j: int| 0 <= i < j < n.len() implies lex_le(#[trigger] n[i].0@, #[trigger] n[j].0@) by {
                if j < p {
                    assert(n[i] == old_out[i] && n[j] == old_out[j]);
                } else if j == p {
                    assert(n[i] == old_out[i]);
                } else if i == p {
                    assert(n[j] == old_out[j - 1]);
                } else if i < p {
                    assert(n[i] == old_out[i] && n[j] == old_out[j - 1]);
                    lemma_lex_trans(old_out[i].0@, x.0@, old_out[j - 1].0@, 0);
                } else {
                    assert(n[i] == old_out[i - 1] && n[j] == old_out[j - 1]);
                }
            }
            vstd::seq_lib::to_multiset_insert(old_out, p as int, x);
            vstd::seq_lib::to_multiset_build(input@, x);
            assert(before_in.to_multiset() =~= input@.to_multiset().insert(x));
            assert(out@.to_multiset() =~= old_out.to_multiset().insert(x));
            assert(orig.to_multiset() =~= out@.to_multiset().add(input@.to_multiset()));
        }
    }
    proof {
        assert(input@.to_multiset() =~= vstd::multiset::Multiset::empty());
        assert(out@.to_multiset().add(vstd::multiset::Multiset::empty()) =~= out@.to_multiset());
    }
    out
}

} // verus!
