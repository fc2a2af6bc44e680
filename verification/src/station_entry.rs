//! The logic of the entry for a station: when typing asks for suggestions,
//! which suggestion is taken as typed, and how the arrow keys move through
//! the suggestions.

use vstd::prelude::*;

use crate::place::Place;
use crate::text::{replace_all, replaced, text_eq};

verus! {

/// How many bytes must be typed before suggestions are asked for.
pub const MIN_REQUEST_LEN: usize = 3;

/// The number of bytes UTF-8 takes for a character.
pub open spec fn utf8_width(c: char) -> nat {
    if (c as u32) < 0x80 {
        1
    } else if (c as u32) < 0x800 {
        2
    } else if (c as u32) < 0x10000 {
        3
    } else {
        4
    }
}

/// The number of bytes UTF-8 takes for a text, as `str::len` counts them.
pub open spec fn utf8_len(s: Seq<char>) -> nat
    decreases s.len(),
{
    if s.len() == 0 {
        0
    } else {
        utf8_len(s.drop_last()) + utf8_width(s.last())
    }
}

/// Whether typed text is too short to ask for suggestions: fewer than
/// `MIN_REQUEST_LEN` bytes.
pub fn too_short(text: &str) -> (r: bool)
    ensures
        r == (utf8_len(text@) < MIN_REQUEST_LEN),
{
    let n = text.unicode_len();
    let mut bytes: usize = 0;
    let mut i: usize = 0;
    while i < n
        invariant
            n == text@.len(),
            i <= n,
            bytes == utf8_len(text@.subrange(0, i as int)),
            bytes < MIN_REQUEST_LEN,
        decreases n - i,
    {
        let c = text.get_char(i);
        let w: usize = if (c as u32) < 0x80 {
            1
        } else if (c as u32) < 0x800 {
            2
        } else if (c as u32) < 0x10000 {
            3
        } else {
            4
        };
        proof {
            let p = text@.subrange(0, i + 1);
            assert(p.drop_last() =~= text@.subrange(0, i as int));
            assert(p.last() == c);
        }
        bytes = bytes + w;
        i += 1;
        if bytes >= MIN_REQUEST_LEN {
            proof {
                lemma_utf8_len_prefix(text@, i as int);
            }
            return false;
        }
    }
    assert(text@.subrange(0, n as int) =~= text@);
    true
}

/// The bytes of a prefix are at most those of the whole text.
proof fn lemma_utf8_len_prefix(s: Seq<char>, i: int)
    requires
        0 <= i <= s.len(),
    ensures
        utf8_len(s.subrange(0, i)) <= utf8_len(s),
    decreases s.len() - i,
{
    if i < s.len() {
        lemma_utf8_len_prefix(s, i + 1);
        let p = s.subrange(0, i + 1);
        assert(p.drop_last() =~= s.subrange(0, i));
    } else {
        assert(s.subrange(0, i) =~= s);
    }
}

/// The position of the first place named exactly `name`.
pub open spec fn is_first_named(places: Seq<Place>, name: Seq<char>, r: Option<usize>) -> bool {
    match r {
        Some(i) => i < places.len() && places[i as int].named() && places[i as int].name_view() == name
            && forall|j: int| 0 <= j < i ==> !(places[j].named() && places[j].name_view() == name),
        None => forall|j: int| 0 <= j < places.len() ==> !(places[j].named() && places[j].name_view() == name),
    }
}

/// The first place named exactly `name`, if any.
pub fn exact_match(places: &Vec<Place>, name: &str) -> (r: Option<usize>)
    ensures
        is_first_named(places@, name@, r),
{
    let n = places.len();
    let mut i: usize = 0;
    while i < n
        invariant
            n == places@.len(),
            i <= n,
            forall|j: int| 0 <= j < i ==> !(places@[j].named() && places@[j].name_view() == name@),
        decreases n - i,
    {
        match places[i].name() {
            Some(p) => {
                if text_eq(p.as_str(), name) {
                    return Some(i);
                }
            },
            None => {},
        }
        i += 1;
    }
    None
}

/// The places suggested: those with an id, in order.
pub open spec fn with_id(places: Seq<Place>) -> Seq<Place>
    decreases places.len(),
{
    if places.len() == 0 {
        Seq::empty()
    } else if places.last().id_view() is Some {
        with_id(places.drop_last()).push(places.last())
    } else {
        with_id(places.drop_last())
    }
}

/// Keeps the places that have an id, in order.
pub fn keep_with_id(places: Vec<Place>) -> (r: Vec<Place>)
    ensures
        r@ == with_id(places@),
{
    let mut rest = places;
    let mut kept_rev: Vec<Place> = Vec::new();
    let ghost all = rest@;
    while rest.len() > 0
        invariant
            rest@ == all.subrange(0, rest@.len() as int),
            rest@.len() <= all.len(),
            with_id(all) == with_id(rest@) + kept_rev@.reverse(),
        decreases rest@.len(),
    {
        let ghost before = rest@;
        let p = rest.pop().unwrap();
        proof {
            assert(before.drop_last() =~= rest@);
            assert(before.last() == p);
            assert(rest@ =~= all.subrange(0, rest@.len() as int));
        }
        let has_id = p.id().is_some();
        if has_id {
            let ghost k = kept_rev@;
            kept_rev.push(p);
            proof {
                assert(kept_rev@.reverse() =~= seq![p] + k.reverse());
                assert(with_id(before) == with_id(rest@).push(p));
                assert(with_id(rest@).push(p) + k.reverse() =~= with_id(rest@) + (seq![p] + k.reverse()));
            }
        }
    }
    assert(with_id(rest@) =~= Seq::<Place>::empty());
    let mut out: Vec<Place> = Vec::new();
    let ghost target = kept_rev@.reverse();
    while kept_rev.len() > 0
        invariant
            out@ + kept_rev@.reverse() == target,
        decreases kept_rev@.len(),
    {
        let ghost before = kept_rev@;
        let p = kept_rev.pop().unwrap();
        proof {
            assert(before.reverse() =~= seq![p] + kept_rev@.reverse());
        }
        out.push(p);
        assert(out@ + kept_rev@.reverse() =~= target);
    }
    assert(out@ + Seq::<Place>::empty() =~= out@);
    out
}

/// The arrow keys, and any other key.
#[derive(Debug, Clone, Copy, PartialEq, Eq, Structural)]
pub enum NavKey {
    /// Up, on the main keys or the keypad.
    Up,
    /// Down, on the main keys or the keypad.
    Down,
    /// Any other key.
    Other,
}

/// What a key press does to the suggestions.
#[derive(Debug, Clone, Copy, PartialEq, Eq, Structural)]
pub enum KeyNav {
    /// The key is left to others.
    Proceed,
    /// The key is taken, and nothing changes.
    Stop,
    /// The key is taken, and the suggestion at this position is selected
    /// (none: no suggestion).
    Select(Option<u32>),
}

/// What a key press does: keys with a modifier and keys other than the
/// arrows are left to others; with no suggestions nothing changes; up
/// moves to the previous suggestion (from none to the last, from the first
/// to none), down to the next (from none to the first, from the last to
/// none).
pub open spec fn key_nav_spec(modified: bool, key: NavKey, selected: Option<u32>, matches: u32) -> KeyNav {
    if modified || key == NavKey::Other {
        KeyNav::Proceed
    } else if matches == 0 {
        KeyNav::Stop
    } else if key == NavKey::Up {
        match selected {
            None => KeyNav::Select(Some((matches - 1) as u32)),
            Some(s) => if s == 0 {
                KeyNav::Select(None)
            } else {
                KeyNav::Select(Some((s - 1) as u32))
            },
        }
    } else {
        match selected {
            None => KeyNav::Select(Some(0)),
            Some(s) => if s == matches - 1 {
                KeyNav::Select(None)
            } else {
                KeyNav::Select(Some((s + 1) as u32))
            },
        }
    }
}

/// What a key press does to the suggestions.
pub fn key_nav(modified: bool, key: NavKey, selected: Option<u32>, matches: u32) -> (r: KeyNav)
    requires
        selected matches Some(s) ==> s < matches,
    ensures
        r == key_nav_spec(modified, key, selected, matches),
        r matches KeyNav::Select(Some(i)) ==> i < matches,
{
    if modified {
        return KeyNav::Proceed;
    }
    match key {
        NavKey::Other => KeyNav::Proceed,
        NavKey::Up => {
            if matches == 0 {
                KeyNav::Stop
            } else {
                match selected {
                    None => KeyNav::Select(Some(matches - 1)),
                    Some(s) => if s == 0 {
                        KeyNav::Select(None)
                    } else {
                        KeyNav::Select(Some(s - 1))
                    },
                }
            }
        },
        NavKey::Down => {
            if matches == 0 {
                KeyNav::Stop
            } else {
                match selected {
                    None => KeyNav::Select(Some(0)),
                    Some(s) => if s == matches - 1 {
                        KeyNav::Select(None)
                    } else {
                        KeyNav::Select(Some(s + 1))
                    },
                }
            }
        },
    }
}

/// The announcement when the selection moved: the name of the suggestion
/// selected filled into the first template, or the second template when
/// none is selected.
pub open spec fn announcement(selected_template: Seq<char>, none_template: Seq<char>, name: Option<Seq<char>>) -> Seq<char> {
    match name {
        Some(n) => replaced(selected_template, "{}"@, n),
        None => none_template,
    }
}

/// Fills the announcement into the given templates.
pub fn fill_announcement(selected_template: &str, none_template: &str, name: Option<&str>) -> (r: String)
    ensures
        r@ == announcement(
            selected_template@,
            none_template@,
            match name {
                Some(n) => Some(n@),
                None => None,
            },
        ),
{
    proof {
        reveal_strlit("{}");
    }
    match name {
        Some(n) => replace_all(selected_template, "{}", n),
        None => String::from_str(none_template),
    }
}

/// Whether the suggestions pop up: when there are some, the entry has the
/// focus and no place is chosen.
pub fn popover_visible(suggestions: usize, focused: bool, place_chosen: bool) -> (r: bool)
    ensures
        r == (suggestions != 0 && focused && !place_chosen),
{
    suggestions != 0 && focused && !place_chosen
}

/// Moving down from no selection through every suggestion comes back to no
/// selection: the selection cycles.
pub proof fn lemma_down_cycles(matches: u32, s: u32)
    requires
        matches > 0,
        s < matches,
    ensures
        key_nav_spec(false, NavKey::Down, Some(s), matches) == if s == matches - 1 {
            KeyNav::Select(None)
        } else {
            KeyNav::Select(Some((s + 1) as u32))
        },
        key_nav_spec(false, NavKey::Down, None, matches) == KeyNav::Select(Some(0u32)),
{
}

/// Up undoes down: after moving down from a selection, moving up returns
/// to it.
pub proof fn lemma_up_undoes_down(matches: u32, selected: Option<u32>)
    requires
        matches > 0,
        selected matches Some(s) ==> s < matches,
    ensures
        key_nav_spec(false, NavKey::Down, selected, matches) matches KeyNav::Select(next) ==> key_nav_spec(
            false,
            NavKey::Up,
            next,
            matches,
        ) == KeyNav::Select(selected),
{
}

/// Down undoes up: after moving up from a selection, moving down returns
/// to it.
pub proof fn lemma_down_undoes_up(matches: u32, selected: Option<u32>)
    requires
        matches > 0,
        selected matches Some(s) ==> s < matches,
    ensures
        key_nav_spec(false, NavKey::Up, selected, matches) matches KeyNav::Select(next) ==> key_nav_spec(
            false,
            NavKey::Down,
            next,
            matches,
        ) == KeyNav::Select(selected),
{
}

/// The selection after moving down once.
pub open spec fn down_once(selected: Option<u32>, matches: u32) -> Option<u32> {
    match key_nav_spec(false, NavKey::Down, selected, matches) {
        KeyNav::Select(next) => next,
        _ => selected,
    }
}

/// The selection after moving down `k` times.
pub open spec fn down_times(selected: Option<u32>, matches: u32, k: nat) -> Option<u32>
    decreases k,
{
    if k == 0 {
        selected
    } else {
        down_once(down_times(selected, matches, (k - 1) as nat), matches)
    }
}

/// The place of a selection in the cycle of moving down: a suggestion at its
/// position, no selection after the last.
spec fn cycle_position(selected: Option<u32>, matches: u32) -> int {
    match selected {
        Some(s) => s as int,
        None => matches as int,
    }
}

/// Moving down `k` times advances the place in the cycle by `k`, round the
/// cycle of the suggestions and no selection.
proof fn lemma_down_times_position(selected: Option<u32>, matches: u32, k: nat)
    requires
        matches > 0,
        selected matches Some(s) ==> s < matches,
    ensures
        down_times(selected, matches, k) matches Some(s) ==> s < matches,
        cycle_position(down_times(selected, matches, k), matches) == (cycle_position(selected, matches) + k)
            % (matches + 1),
    decreases k,
{
    let m = matches + 1;
    if k == 0 {
        vstd::arithmetic::div_mod::lemma_small_mod(cycle_position(selected, matches) as nat, m as nat);
    } else {
        lemma_down_times_position(selected, matches, (k - 1) as nat);
        let before = down_times(selected, matches, (k - 1) as nat);
        let p = cycle_position(before, matches);
        assert(cycle_position(down_once(before, matches), matches) == (p + 1) % m) by {
            if p + 1 < m {
                vstd::arithmetic::div_mod::lemma_small_mod((p + 1) as nat, m as nat);
            } else {
                vstd::arithmetic::div_mod::lemma_mod_self_0(m);
            }
        }
        vstd::arithmetic::div_mod::lemma_add_mod_noop(cycle_position(selected, matches) + k - 1, 1, m);
        vstd::arithmetic::div_mod::lemma_small_mod(1, m as nat);
    }
}

/// Moving down once for each suggestion and once more comes back to the
/// selection moved from, whatever it was.
pub proof fn lemma_downs_restore(selected: Option<u32>, matches: u32)
    requires
        matches > 0,
        selected matches Some(s) ==> s < matches,
    ensures
        down_times(selected, matches, (matches + 1) as nat) == selected,
{
    let m = matches + 1;
    lemma_down_times_position(selected, matches, (matches + 1) as nat);
    let p = cycle_position(selected, matches);
    vstd::arithmetic::div_mod::lemma_add_mod_noop(p, m, m);
    vstd::arithmetic::div_mod::lemma_mod_self_0(m);
    vstd::arithmetic::div_mod::lemma_small_mod(p as nat, m as nat);
    assert((p + m) % m == p);
    let after = down_times(selected, matches, (matches + 1) as nat);
    assert(cycle_position(after, matches) == p);
}

} // verus!
