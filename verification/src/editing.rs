use vstd::prelude::*;

use crate::text::{copy_str, str_eq, views};

verus! {

// ---------------------------------------------------------------------------
// Ordered lists the designers edit: module slots, card lists, fastfetch
// modules. Each row has ▲, ▼ and ✖ buttons.
// ---------------------------------------------------------------------------

/// `s` with the items at `i` and `i + 1` traded.
pub open spec fn swapped<T>(s: Seq<T>, i: int) -> Seq<T> {
    s.update(i, s[i + 1]).update(i + 1, s[i])
}

/// The list after ▲ on row `idx`: the item trades places with the one before
/// it; on the first row, or past the end, nothing changes.
pub open spec fn moved_up<T>(s: Seq<T>, idx: int) -> Seq<T> {
    if 0 < idx < s.len() {
        swapped(s, idx - 1)
    } else {
        s
    }
}

/// The list after ▼ on row `idx`: the item trades places with the one after
/// it; on the last row, or past the end, nothing changes.
pub open spec fn moved_down<T>(s: Seq<T>, idx: int) -> Seq<T> {
    if 0 <= idx && idx + 1 < s.len() {
        swapped(s, idx)
    } else {
        s
    }
}

/// The list after ✖ on row `idx`: that item leaves; past the end nothing
/// changes.
pub open spec fn removed_at<T>(s: Seq<T>, idx: int) -> Seq<T> {
    if 0 <= idx < s.len() {
        s.remove(idx)
    } else {
        s
    }
}

/// Moves the item on row `idx` one place up.
pub fn move_up<T>(list: &mut Vec<T>, idx: usize)
    ensures
        final(list)@ == moved_up(old(list)@, idx as int),
{
    if idx > 0 && idx < list.len() {
        let x = list.remove(idx);
        list.insert(idx - 1, x);
        proof {
            assert(list@ =~= swapped(old(list)@, idx - 1));
        }
    }
}

/// Moves the item on row `idx` one place down.
pub fn move_down<T>(list: &mut Vec<T>, idx: usize)
    ensures
        final(list)@ == moved_down(old(list)@, idx as int),
{
    if idx < list.len() && idx + 1 < list.len() {
        let x = list.remove(idx + 1);
        list.insert(idx, x);
        proof {
            assert(list@ =~= swapped(old(list)@, idx as int));
        }
    }
}

/// Removes the item on row `idx`.
pub fn remove_at<T>(list: &mut Vec<T>, idx: usize)
    ensures
        final(list)@ == removed_at(old(list)@, idx as int),
{
    if idx < list.len() {
        list.remove(idx);
    }
}

/// Moving an item up and then down again from its new row gives the list
/// back, and so does moving it down and then up again.
pub proof fn law_move_up_then_down<T>(s: Seq<T>, idx: int)
    ensures
        0 < idx < s.len() ==> moved_down(moved_up(s, idx), idx - 1) == s,
        0 <= idx && idx + 1 < s.len() ==> moved_up(moved_down(s, idx), idx + 1) == s,
{
    if 0 < idx < s.len() {
        assert(moved_down(moved_up(s, idx), idx - 1) =~= s);
    }
    if 0 <= idx && idx + 1 < s.len() {
        assert(moved_up(moved_down(s, idx), idx + 1) =~= s);
    }
}

/// Moving rows keeps the items: the same number of each.
pub proof fn law_moves_keep_items<T>(s: Seq<T>, idx: int)
    ensures
        moved_up(s, idx).to_multiset() == s.to_multiset(),
        moved_down(s, idx).to_multiset() == s.to_multiset(),
{
    if 0 < idx < s.len() {
        lemma_swap_keeps_items(s, idx - 1);
    }
    if 0 <= idx && idx + 1 < s.len() {
        lemma_swap_keeps_items(s, idx);
    }
}

proof fn lemma_swap_keeps_items<T>(s: Seq<T>, i: int)
    requires
        0 <= i && i + 1 < s.len(),
    ensures
        swapped(s, i).to_multiset() == s.to_multiset(),
{
    let t = swapped(s, i);
    // Both are the part before `i`, the pair, and the part after it.
    let pre = s.take(i);
    let post = s.skip(i + 2);
    assert(s =~= pre + seq![s[i], s[i + 1]] + post);
    assert(t =~= pre + seq![s[i + 1], s[i]] + post);
    vstd::seq_lib::lemma_multiset_commutative(pre + seq![s[i], s[i + 1]], post);
    vstd::seq_lib::lemma_multiset_commutative(pre + seq![s[i + 1], s[i]], post);
    vstd::seq_lib::lemma_multiset_commutative(pre, seq![s[i], s[i + 1]]);
    vstd::seq_lib::lemma_multiset_commutative(pre, seq![s[i + 1], s[i]]);
    vstd::seq_lib::lemma_multiset_commutative(seq![s[i]], seq![s[i + 1]]);
    vstd::seq_lib::lemma_multiset_commutative(seq![s[i + 1]], seq![s[i]]);
    assert(seq![s[i]] + seq![s[i + 1]] =~= seq![s[i], s[i + 1]]);
    assert(seq![s[i + 1]] + seq![s[i]] =~= seq![s[i + 1], s[i]]);
    assert(seq![s[i], s[i + 1]].to_multiset() =~= seq![s[i + 1], s[i]].to_multiset());
}

// ---------------------------------------------------------------------------
// Sets of names kept as lists (which hardware the OSD reacts to).
// ---------------------------------------------------------------------------

/// Whether a name differs from `name`.
pub open spec fn other_than(name: Seq<char>) -> spec_fn(Seq<char>) -> bool {
    |x: Seq<char>| x != name
}

/// The list after switching `name` on or off: switched on, it is added at the
/// end unless it is there already; switched off, every occurrence leaves.
pub open spec fn switched(s: Seq<Seq<char>>, name: Seq<char>, on: bool) -> Seq<Seq<char>> {
    if on {
        if s.contains(name) {
            s
        } else {
            s.push(name)
        }
    } else {
        s.filter(other_than(name))
    }
}

/// Whether the list holds `name`.
pub fn holds_name(list: &Vec<String>, name: &str) -> (r: bool)
    ensures
        r == views(list@).contains(name@),
{
    let mut i: usize = 0;
    while i < list.len()
        invariant
            i <= list@.len(),
            forall|k: int| 0 <= k < i ==> list@[k]@ != name@,
        decreases list.len() - i,
    {
        if str_eq(list[i].as_str(), name) {
            proof {
                assert(views(list@)[i as int] == name@);
            }
            return true;
        }
        i = i + 1;
    }
    proof {
        if views(list@).contains(name@) {
            let k = choose|k: int| 0 <= k < views(list@).len() && views(list@)[k] == name@;
            assert(list@[k]@ == name@);
        }
    }
    false
}

/// Switches `name` on or off in the list.
pub fn switch_name(list: &mut Vec<String>, name: &str, on: bool)
    ensures
        views(final(list)@) == switched(views(old(list)@), name@, on),
{
    let ghost before = views(list@);
    if on {
        if !holds_name(list, name) {
            list.push(copy_str(name));
            proof {
                assert(views(list@) =~= before.push(name@));
            }
        }
    } else {
        let mut kept: Vec<String> = Vec::new();
        let mut i: usize = 0;
        while i < list.len()
            invariant
                i <= list@.len(),
                views(list@) == before,
                views(kept@) == before.take(i as int).filter(other_than(name@)),
            decreases list.len() - i,
        {
            let ghost k0 = views(kept@);
            proof {
                reveal(Seq::filter);
                assert(before.take(i + 1).drop_last() =~= before.take(i as int));
                assert(before.take(i + 1).last() == list@[i as int]@);
            }
            if !str_eq(list[i].as_str(), name) {
                kept.push(copy_str(list[i].as_str()));
                proof {
                    assert(views(kept@) =~= k0.push(list@[i as int]@));
                }
            }
            i = i + 1;
        }
        proof {
            assert(before.take(before.len() as int) =~= before);
        }
        *list = kept;
    }
}

proof fn lemma_filter_twice(s: Seq<Seq<char>>, name: Seq<char>)
    ensures
        s.filter(other_than(name)).filter(other_than(name)) == s.filter(other_than(name)),
    decreases s.len(),
{
    reveal(Seq::filter);
    let f = other_than(name);
    if s.len() > 0 {
        lemma_filter_twice(s.drop_last(), name);
        let u = s.drop_last().filter(f);
        if f(s.last()) {
            assert(u.push(s.last()).drop_last() =~= u);
            assert(u.push(s.last()).last() == s.last());
        }
    } else {
        assert(s.filter(f) =~= s);
    }
}

/// After switching a name on it is in the list, after switching it off it is
/// not; and switching it the same way again changes nothing.
pub proof fn law_switch_name(s: Seq<Seq<char>>, name: Seq<char>, on: bool)
    ensures
        switched(s, name, on).contains(name) == on,
        switched(switched(s, name, on), name, on) == switched(s, name, on),
{
    if on {
        if !s.contains(name) {
            assert(s.push(name)[s.len() as int] == name);
            assert(s.push(name).contains(name));
        }
    } else {
        let f = other_than(name);
        let t = s.filter(f);
        if t.contains(name) {
            let k = choose|k: int| 0 <= k < t.len() && t[k] == name;
            s.lemma_filter_pred(f, k);
        }
        lemma_filter_twice(s, name);
    }
}

} // verus!
