use vstd::prelude::*;

use crate::ansi::digits_value;
use crate::config::lemma_dec_digits;
use crate::editing::{
    law_switch_name, move_down, move_up, moved_down, moved_up, remove_at, removed_at, switch_name,
    switched, swapped,
};
use crate::shell_config::{lit_views, strings_of, CustomScriptModule, ModuleInfo, ModuleInfoView, ShellLayout, ShellModules};
use crate::text::{
    copy_str, dec, is_alphanumeric, lemma_dec_len_pos, lowercase_text, push_char, push_dec,
    str_eq, to_chars, to_lowercase, trim, trimmed, unicode_alphanumeric, views,
};

verus! {

// ---------------------------------------------------------------------------
// Editing the rows of a list: add at the end, ▲, ▼, ✖.
// ---------------------------------------------------------------------------

/// What a button does to a list of ids.
pub enum RowEdit {
    Add(String),
    Up(usize),
    Down(usize),
    Remove(usize),
}

pub enum RowEditView {
    Add(Seq<char>),
    Up(int),
    Down(int),
    Remove(int),
}

impl View for RowEdit {
    type V = RowEditView;

    open spec fn view(&self) -> RowEditView {
        match self {
            RowEdit::Add(x) => RowEditView::Add(x@),
            RowEdit::Up(i) => RowEditView::Up(*i as int),
            RowEdit::Down(i) => RowEditView::Down(*i as int),
            RowEdit::Remove(i) => RowEditView::Remove(*i as int),
        }
    }
}

/// A list of ids after an edit.
pub open spec fn edited(s: Seq<Seq<char>>, e: RowEditView) -> Seq<Seq<char>> {
    match e {
        RowEditView::Add(x) => s.push(x),
        RowEditView::Up(i) => moved_up(s, i),
        RowEditView::Down(i) => moved_down(s, i),
        RowEditView::Remove(i) => removed_at(s, i),
    }
}

/// Applies an edit to a list of ids.
pub fn edit_rows(list: &mut Vec<String>, e: RowEdit)
    ensures
        views(final(list)@) == edited(views(old(list)@), e@),
{
    let ghost before = list@;
    match e {
        RowEdit::Add(x) => {
            let ghost xv = x@;
            list.push(x);
            proof {
                assert(views(list@) =~= views(before).push(xv));
            }
        },
        RowEdit::Up(i) => {
            move_up(list, i);
            proof {
                if 0 < i < before.len() {
                    assert(views(list@) =~= swapped(views(before), i - 1));
                }
            }
        },
        RowEdit::Down(i) => {
            move_down(list, i);
            proof {
                if i + 1 < before.len() {
                    assert(views(list@) =~= swapped(views(before), i as int));
                }
            }
        },
        RowEdit::Remove(i) => {
            remove_at(list, i);
            proof {
                if i < before.len() {
                    assert(views(list@) =~= views(before).remove(i as int));
                }
            }
        },
    }
}

/// Applies an edit to one zone of the bar, named "left", "center" or
/// "right"; another name changes nothing.
pub fn edit_slot(modules: &mut ShellModules, slot: &str, e: RowEdit)
    ensures
        views(final(modules).left@) == (if slot@ == "left"@ {
            edited(views(old(modules).left@), e@)
        } else {
            views(old(modules).left@)
        }),
        views(final(modules).center@) == (if slot@ == "center"@ {
            edited(views(old(modules).center@), e@)
        } else {
            views(old(modules).center@)
        }),
        views(final(modules).right@) == (if slot@ == "right"@ {
            edited(views(old(modules).right@), e@)
        } else {
            views(old(modules).right@)
        }),
{
    proof {
        reveal_strlit("left");
        reveal_strlit("center");
        reveal_strlit("right");
        assert("left"@.len() != "center"@.len() && "left"@.len() != "right"@.len()
            && "center"@.len() != "right"@.len());
    }
    if str_eq(slot, "left") {
        edit_rows(&mut modules.left, e);
    } else if str_eq(slot, "center") {
        edit_rows(&mut modules.center, e);
    } else if str_eq(slot, "right") {
        edit_rows(&mut modules.right, e);
    }
}

/// The id a custom script module has on the bar.
pub open spec fn script_slot_id(script_id: Seq<char>) -> Seq<char> {
    "script:"@ + script_id
}

/// Deletes the custom script module on row `idx` and takes every instance
/// of the script `script_id` (the one the row showed) off the bar.
pub fn remove_script(
    scripts: &mut Vec<CustomScriptModule>,
    modules: &mut ShellModules,
    idx: usize,
    script_id: &str,
)
    ensures
        final(scripts)@ == removed_at(old(scripts)@, idx as int),
        views(final(modules).left@) == switched(views(old(modules).left@), script_slot_id(script_id@), false),
        views(final(modules).center@) == switched(views(old(modules).center@), script_slot_id(script_id@), false),
        views(final(modules).right@) == switched(views(old(modules).right@), script_slot_id(script_id@), false),
        !views(final(modules).left@).contains(script_slot_id(script_id@)),
        !views(final(modules).center@).contains(script_slot_id(script_id@)),
        !views(final(modules).right@).contains(script_slot_id(script_id@)),
{
    remove_at(scripts, idx);
    let mut full = copy_str("script:");
    full.append(script_id);
    switch_name(&mut modules.left, full.as_str(), false);
    switch_name(&mut modules.center, full.as_str(), false);
    switch_name(&mut modules.right, full.as_str(), false);
    proof {
        law_switch_name(views(old(modules).left@), full@, false);
        law_switch_name(views(old(modules).center@), full@, false);
        law_switch_name(views(old(modules).right@), full@, false);
    }
}

// ---------------------------------------------------------------------------
// New custom script modules.
// ---------------------------------------------------------------------------

/// A character of a module id made from a name: letters and digits stay,
/// anything else becomes `_`.
pub open spec fn id_char(c: char) -> char {
    if unicode_alphanumeric(c) {
        c
    } else {
        '_'
    }
}

/// `s` without leading occurrences of `c`.
pub open spec fn strip_front(s: Seq<char>, c: char) -> Seq<char>
    decreases s.len(),
{
    if s.len() > 0 && s[0] == c {
        strip_front(s.drop_first(), c)
    } else {
        s
    }
}

/// `s` without trailing occurrences of `c`.
pub open spec fn strip_back(s: Seq<char>, c: char) -> Seq<char>
    decreases s.len(),
{
    if s.len() > 0 && s.last() == c {
        strip_back(s.drop_last(), c)
    } else {
        s
    }
}

/// `str::trim_matches(c)`: `s` without `c` at either end.
pub open spec fn trim_char(s: Seq<char>, c: char) -> Seq<char> {
    strip_back(strip_front(s, c), c)
}

/// The id a bar script module's name suggests: the name in small letters,
/// every character but letters and digits made `_`, without `_` at the
/// ends; `custom_script` when nothing is left.
pub open spec fn script_base(name: Seq<char>) -> Seq<char> {
    let t = trim_char(lowercase_text(name).map_values(|c: char| id_char(c)), '_');
    if t.len() == 0 {
        "custom_script"@
    } else {
        t
    }
}

/// The `k`-th id tried for a base: the base itself, then `base_1`, `base_2`, ...
pub open spec fn candidate(base: Seq<char>, k: nat) -> Seq<char> {
    if k == 0 {
        base
    } else {
        base + "_"@ + dec(k)
    }
}

/// Whether `id` is the first id tried for `base` that `ids` does not hold.
pub open spec fn is_first_free(ids: Seq<Seq<char>>, base: Seq<char>, id: Seq<char>) -> bool {
    exists|k: nat|
        #![trigger candidate(base, k)]
        id == candidate(base, k) && !ids.contains(id) && forall|j: nat|
            j < k ==> ids.contains(#[trigger] candidate(base, j))
}

/// The ids of a list of script modules.
pub open spec fn script_ids(s: Seq<CustomScriptModule>) -> Seq<Seq<char>> {
    s.map_values(|m: CustomScriptModule| m.id@)
}

proof fn lemma_strip_front_skip(s: Seq<char>, c: char, i: int)
    requires
        0 <= i <= s.len(),
        forall|k: int| 0 <= k < i ==> s[k] == c,
    ensures
        strip_front(s, c) == strip_front(s.skip(i), c),
    decreases i,
{
    if i > 0 {
        assert(s.drop_first().skip(i - 1) =~= s.skip(i));
        assert forall|k: int| 0 <= k < i - 1 implies #[trigger] s.drop_first()[k] == c by {
            assert(s.drop_first()[k] == s[k + 1]);
        }
        lemma_strip_front_skip(s.drop_first(), c, i - 1);
    } else {
        assert(s.skip(0) =~= s);
    }
}

proof fn lemma_strip_back_take(s: Seq<char>, c: char, j: int)
    requires
        0 <= j <= s.len(),
        forall|k: int| j <= k < s.len() ==> s[k] == c,
    ensures
        strip_back(s, c) == strip_back(s.take(j), c),
    decreases s.len() - j,
{
    if j < s.len() {
        assert(s.drop_last().take(j) =~= s.take(j));
        assert forall|k: int| j <= k < s.drop_last().len() implies #[trigger] s.drop_last()[k] == c by {
            assert(s.drop_last()[k] == s[k]);
        }
        lemma_strip_back_take(s.drop_last(), c, j);
    } else {
        assert(s.take(j) =~= s);
    }
}

/// The characters of `v` from `a` to `b`, as a text.
fn text_of_range(v: &Vec<char>, a: usize, b: usize) -> (r: String)
    requires
        a <= b <= v@.len(),
    ensures
        r@ == v@.subrange(a as int, b as int),
{
    let mut r = String::new();
    let mut i = a;
    while i < b
        invariant
            a <= i <= b <= v@.len(),
            r@ == v@.subrange(a as int, i as int),
        decreases b - i,
    {
        push_char(&mut r, v[i]);
        proof {
            assert(v@.subrange(a as int, i + 1) =~= v@.subrange(a as int, i as int).push(v@[i as int]));
        }
        i = i + 1;
    }
    r
}

/// `str::trim_matches(c)` on a list of characters.
fn trim_char_text(v: &Vec<char>, c: char) -> (r: String)
    ensures
        r@ == trim_char(v@, c),
{
    let ghost s = v@;
    let mut a: usize = 0;
    while a < v.len() && v[a] == c
        invariant
            a <= s.len(),
            v@ == s,
            forall|k: int| 0 <= k < a ==> s[k] == c,
        decreases v.len() - a,
    {
        a = a + 1;
    }
    proof {
        lemma_strip_front_skip(s, c, a as int);
        if a < s.len() {
            assert(s.skip(a as int)[0] == s[a as int]);
        } else {
            assert(s.skip(a as int).len() == 0);
        }
    }
    let ghost f = s.skip(a as int);
    let mut b: usize = v.len();
    while b > a && v[b - 1] == c
        invariant
            a <= b <= s.len(),
            v@ == s,
            f == s.skip(a as int),
            forall|k: int| b - a <= k < f.len() ==> f[k] == c,
        decreases b,
    {
        b = b - 1;
    }
    proof {
        lemma_strip_back_take(f, c, b - a);
        assert(f.take(b - a) =~= s.subrange(a as int, b as int));
        if b > a {
            assert(f.take(b - a).last() == s[b - 1]);
        }
    }
    text_of_range(v, a, b)
}

/// The id a bar script module's name suggests.
pub fn script_base_of(name: &str) -> (r: String)
    ensures
        r@ == script_base(name@),
{
    let low = to_lowercase(name);
    let v = to_chars(low.as_str());
    let mut mapped: Vec<char> = Vec::new();
    let mut i: usize = 0;
    while i < v.len()
        invariant
            i <= v@.len(),
            mapped@ == v@.take(i as int).map_values(|c: char| id_char(c)),
        decreases v.len() - i,
    {
        let c = v[i];
        let m = if is_alphanumeric(c) { c } else { '_' };
        proof {
            assert(m == id_char(c));
            assert(v@.take(i + 1) =~= v@.take(i as int).push(c));
        }
        mapped.push(m);
        proof {
            assert(mapped@ =~= v@.take(i + 1).map_values(|c: char| id_char(c)));
        }
        i = i + 1;
    }
    proof {
        assert(v@.take(v@.len() as int) =~= v@);
    }
    let t = trim_char_text(&mapped, '_');
    if t.unicode_len() == 0 {
        copy_str("custom_script")
    } else {
        t
    }
}

proof fn lemma_candidates_apart(base: Seq<char>, a: nat, b: nat)
    requires
        candidate(base, a) == candidate(base, b),
    ensures
        a == b,
{
    if a != b {
        reveal_strlit("_");
        lemma_dec_len_pos(a);
        lemma_dec_len_pos(b);
        if a == 0 {
            assert(candidate(base, b).len() > base.len());
        } else if b == 0 {
            assert(candidate(base, a).len() > base.len());
        } else {
            let n: int = base.len() + 1int;
            assert(candidate(base, a).skip(n) =~= dec(a));
            assert(candidate(base, b).skip(n) =~= dec(b));
            lemma_dec_digits(a);
            lemma_dec_digits(b);
        }
    }
}

/// Among the first `k + 1` ids tried for a base, one is not in a list of
/// `k` ids or fewer.
proof fn lemma_some_candidate_free(ids: Seq<Seq<char>>, base: Seq<char>, k: nat)
    requires
        forall|j: nat| j <= k ==> ids.contains(#[trigger] candidate(base, j)),
    ensures
        k < ids.len(),
{
    let x = vstd::set_lib::set_int_range(0, k + 1 as int);
    let f = |j: int| candidate(base, j as nat);
    vstd::set_lib::lemma_int_range(0, k + 1 as int);
    assert(vstd::relations::injective_on(f, x)) by {
        assert forall|p: int, q: int| x.contains(p) && x.contains(q) && #[trigger] f(p) == #[trigger] f(q)
            implies p == q by {
            lemma_candidates_apart(base, p as nat, q as nat);
        }
    }
    let y = x.map(f);
    vstd::set_lib::lemma_map_size(x, y, f);
    assert(y.subset_of(ids.to_set())) by {
        assert forall|z: Seq<char>| #[trigger] y.contains(z) implies ids.to_set().contains(z) by {
            let j = choose|j: int| x.contains(j) && f(j) == z;
            assert(ids.contains(candidate(base, j as nat)));
        }
    }
    ids.lemma_cardinality_of_set();
    vstd::set_lib::lemma_len_subset(y, ids.to_set());
}

/// Whether a script module in the list has this id.
fn has_script_id(scripts: &Vec<CustomScriptModule>, id: &str) -> (r: bool)
    ensures
        r == script_ids(scripts@).contains(id@),
{
    let mut i: usize = 0;
    while i < scripts.len()
        invariant
            i <= scripts@.len(),
            forall|k: int| 0 <= k < i ==> scripts@[k].id@ != id@,
        decreases scripts.len() - i,
    {
        if str_eq(scripts[i].id.as_str(), id) {
            proof {
                assert(script_ids(scripts@)[i as int] == id@);
            }
            return true;
        }
        i = i + 1;
    }
    proof {
        if script_ids(scripts@).contains(id@) {
            let k = choose|k: int| 0 <= k < script_ids(scripts@).len() && script_ids(scripts@)[k] == id@;
            assert(scripts@[k].id@ == id@);
        }
    }
    false
}

/// The first id tried for `base` that no script module in the list has.
pub fn first_free_script_id(scripts: &Vec<CustomScriptModule>, base: &str) -> (r: String)
    ensures
        is_first_free(script_ids(scripts@), base@, r@),
{
    let ghost ids = script_ids(scripts@);
    let mut id = copy_str(base);
    let mut k: usize = 0;
    while has_script_id(scripts, id.as_str())
        invariant
            ids == script_ids(scripts@),
            ids.len() == scripts.len(),
            id@ == candidate(base@, k as nat),
            k <= ids.len(),
            forall|j: nat| j < k ==> ids.contains(#[trigger] candidate(base@, j)),
        decreases ids.len() - k,
    {
        proof {
            assert forall|j: nat| j <= k implies ids.contains(#[trigger] candidate(base@, j)) by {
                if j == k {
                    assert(candidate(base@, j) == id@);
                }
            }
            lemma_some_candidate_free(ids, base@, k as nat);
        }
        k = k + 1;
        let mut next = copy_str(base);
        next.append("_");
        push_dec(&mut next, k as u64);
        proof {
            reveal_strlit("_");
        }
        id = next;
    }
    proof {
        assert(id@ == candidate(base@, k as nat));
    }
    id
}

/// What the form for a new bar script module holds.
pub struct ScriptForm {
    pub name: String,
    pub icon: String,
    pub command: String,
    pub interval_seconds: u32,
    pub on_click: String,
}

/// A text, or `fallback` when it is empty.
pub open spec fn or_default(t: Seq<char>, fallback: Seq<char>) -> Seq<char> {
    if t.len() == 0 {
        fallback
    } else {
        t
    }
}

/// Whether `m` is the bar script module the form makes next to `existing`:
/// the fields trimmed, the name `Custom Script` and the icon 💻 when left
/// empty, no click action when that field is empty, and the first free id
/// that the name suggests.
pub open spec fn is_new_bar_script(
    existing: Seq<CustomScriptModule>,
    f: ScriptForm,
    m: CustomScriptModule,
) -> bool {
    let name = or_default(trimmed(f.name@), "Custom Script"@);
    &&& is_first_free(script_ids(existing), script_base(name), m.id@)
    &&& m.name@ == name
    &&& m.icon@ == or_default(trimmed(f.icon@), "💻"@)
    &&& m.command@ == trimmed(f.command@)
    &&& m.interval_seconds == f.interval_seconds
    &&& match m.on_click {
        Some(x) => trimmed(f.on_click@).len() > 0 && x@ == trimmed(f.on_click@),
        None => trimmed(f.on_click@).len() == 0,
    }
}

/// A text field's value: trimmed, or `fallback` when nothing is left (the
/// lock screen's clock format and lock icon, a script's name and icon).
pub fn trimmed_or(t: &str, fallback: &str) -> (r: String)
    ensures
        r@ == or_default(trimmed(t@), fallback@),
{
    let x = trim(t);
    if x.unicode_len() == 0 {
        copy_str(fallback)
    } else {
        x
    }
}

/// The bar script module the form makes, or none when its command is empty.
pub fn new_bar_script(existing: &Vec<CustomScriptModule>, form: &ScriptForm) -> (r: Option<CustomScriptModule>)
    ensures
        r is None <==> trimmed(form.command@).len() == 0,
        r matches Some(m) ==> is_new_bar_script(existing@, *form, m),
{
    let command = trim(form.command.as_str());
    if command.unicode_len() == 0 {
        return None;
    }
    let name = trimmed_or(form.name.as_str(), "Custom Script");
    let icon = trimmed_or(form.icon.as_str(), "💻");
    let base = script_base_of(name.as_str());
    let id = first_free_script_id(existing, base.as_str());
    let click = trim(form.on_click.as_str());
    let on_click = if click.unicode_len() == 0 { None } else { Some(click) };
    Some(CustomScriptModule { id, name, icon, command, interval_seconds: form.interval_seconds, on_click })
}

/// A new bar script module's id is held by no other: added to a list whose
/// ids are all different, the ids stay all different.
pub proof fn law_new_script_id_is_fresh(existing: Seq<CustomScriptModule>, f: ScriptForm, m: CustomScriptModule)
    requires
        is_new_bar_script(existing, f, m),
        script_ids(existing).no_duplicates(),
    ensures
        !script_ids(existing).contains(m.id@),
        script_ids(existing.push(m)).no_duplicates(),
{
    let ids = script_ids(existing);
    assert(script_ids(existing.push(m)) =~= ids.push(m.id@));
    assert forall|i: int, j: int|
        0 <= i < ids.len() + 1 && 0 <= j < ids.len() + 1 && i != j implies #[trigger] ids.push(m.id@)[i]
        != #[trigger] ids.push(m.id@)[j] by {
        if i == ids.len() {
            assert(ids.contains(ids[j]));
        } else if j == ids.len() {
            assert(ids.contains(ids[i]));
        }
    }
}

// ---------------------------------------------------------------------------
// Script cards of the control center and the lock screen.
// ---------------------------------------------------------------------------

/// Whether a character stays in a card script's id: letters, digits and `_`.
pub open spec fn keeps_in_card_id() -> spec_fn(char) -> bool {
    |c: char| unicode_alphanumeric(c) || c == '_'
}

/// The id of a card script made at `secs` seconds after the epoch: the name
/// in small letters with only letters, digits and `_` kept, `_`, and the
/// seconds.
pub open spec fn card_script_id(name: Seq<char>, secs: nat) -> Seq<char> {
    lowercase_text(name).filter(keeps_in_card_id()) + "_"@ + dec(secs)
}

/// Whether `m` is the card script the form makes at `secs`, and `card` the
/// card that shows it: name and command trimmed, the icon 💻 when left
/// empty, no click action when that field is empty.
pub open spec fn is_new_card_script(f: ScriptForm, secs: nat, m: CustomScriptModule, card: Seq<char>) -> bool {
    &&& m.id@ == card_script_id(trimmed(f.name@), secs)
    &&& m.name@ == trimmed(f.name@)
    &&& m.icon@ == or_default(trimmed(f.icon@), "💻"@)
    &&& m.command@ == trimmed(f.command@)
    &&& m.interval_seconds == f.interval_seconds
    &&& match m.on_click {
        Some(x) => trimmed(f.on_click@).len() > 0 && x@ == trimmed(f.on_click@),
        None => trimmed(f.on_click@).len() == 0,
    }
    &&& card == script_slot_id(m.id@)
}

/// The card script the form makes at `now_secs`, and the card to add, or
/// none when the name or the command is empty.
pub fn new_card_script(form: &ScriptForm, now_secs: u64) -> (r: Option<(CustomScriptModule, String)>)
    ensures
        r is None <==> (trimmed(form.name@).len() == 0 || trimmed(form.command@).len() == 0),
        r matches Some((m, card)) ==> is_new_card_script(*form, now_secs as nat, m, card@),
{
    let name = trim(form.name.as_str());
    let command = trim(form.command.as_str());
    if name.unicode_len() == 0 || command.unicode_len() == 0 {
        return None;
    }
    let icon = trimmed_or(form.icon.as_str(), "💻");
    let low = to_lowercase(name.as_str());
    let v = to_chars(low.as_str());
    let mut id = String::new();
    let mut i: usize = 0;
    while i < v.len()
        invariant
            i <= v@.len(),
            id@ == v@.take(i as int).filter(keeps_in_card_id()),
        decreases v.len() - i,
    {
        let c = v[i];
        let ghost before = id@;
        proof {
            reveal(Seq::filter);
            assert(v@.take(i + 1).drop_last() =~= v@.take(i as int));
            assert(v@.take(i + 1).last() == c);
        }
        if is_alphanumeric(c) || c == '_' {
            push_char(&mut id, c);
        }
        i = i + 1;
    }
    proof {
        assert(v@.take(v@.len() as int) =~= v@);
        reveal_strlit("_");
    }
    id.append("_");
    push_dec(&mut id, now_secs);
    let mut card = copy_str("script:");
    card.append(id.as_str());
    let click = trim(form.on_click.as_str());
    let on_click = if click.unicode_len() == 0 { None } else { Some(click) };
    let m = CustomScriptModule { id, name, icon, command, interval_seconds: form.interval_seconds, on_click };
    Some((m, card))
}

// ---------------------------------------------------------------------------
// The texts of the rows.
// ---------------------------------------------------------------------------

/// How a module or card is named in a picker: its icon, a space, its name.
pub open spec fn picker_label(m: ModuleInfoView) -> Seq<char> {
    m.icon + " "@ + m.name
}

/// The picker labels of a list of modules or cards.
pub fn picker_labels(list: &Vec<ModuleInfo>) -> (r: Vec<String>)
    ensures
        views(r@) == list@.map_values(|m: ModuleInfo| picker_label(m@)),
{
    let mut out: Vec<String> = Vec::new();
    let mut i: usize = 0;
    while i < list.len()
        invariant
            i <= list@.len(),
            views(out@) == list@.take(i as int).map_values(|m: ModuleInfo| picker_label(m@)),
        decreases list.len() - i,
    {
        let mut label = copy_str(list[i].icon.as_str());
        label.append(" ");
        label.append(list[i].name.as_str());
        let ghost before = views(out@);
        out.push(label);
        proof {
            assert(list@.take(i + 1) =~= list@.take(i as int).push(list@[i as int]));
            assert(views(out@) =~= before.push(picker_label(list@[i as int]@)));
            assert(list@.take(i + 1).map_values(|m: ModuleInfo| picker_label(m@)) =~= list@.take(
                i as int,
            ).map_values(|m: ModuleInfo| picker_label(m@)).push(picker_label(list@[i as int]@)));
        }
        i = i + 1;
    }
    proof {
        assert(list@.take(list@.len() as int) =~= list@);
    }
    out
}

/// Whether an entry describes the id on a row; on the lock screen an entry
/// also describes the instances `<id>:...` of it.
pub open spec fn describes(m: ModuleInfoView, id: Seq<char>, by_prefix: bool) -> bool {
    m.id == id || (by_prefix && crate::text::is_prefix(m.id + ":"@, id))
}

/// The first entry that describes the id on a row.
pub open spec fn first_describing(all: Seq<ModuleInfoView>, id: Seq<char>, by_prefix: bool) -> Option<ModuleInfoView>
    decreases all.len(),
{
    if all.len() == 0 {
        None
    } else if describes(all[0], id, by_prefix) {
        Some(all[0])
    } else {
        first_describing(all.drop_first(), id, by_prefix)
    }
}

/// The title and subtitle of the row for an id: the picker label and the
/// description of the first entry that describes it, or else the icon for
/// unknown ids with the id, and the caption with the id.
pub open spec fn row_text_of(
    all: Seq<ModuleInfoView>,
    id: Seq<char>,
    by_prefix: bool,
    unknown_icon: Seq<char>,
    caption: Seq<char>,
) -> (Seq<char>, Seq<char>) {
    match first_describing(all, id, by_prefix) {
        Some(m) => (picker_label(m), m.description),
        None => (unknown_icon + " "@ + id, caption + ": "@ + id),
    }
}

/// The views of a list of modules or cards.
pub open spec fn info_views(s: Seq<ModuleInfo>) -> Seq<ModuleInfoView> {
    s.map_values(|m: ModuleInfo| m@)
}

/// The title and subtitle of the row for an id.
pub fn row_text(all: &Vec<ModuleInfo>, id: &str, by_prefix: bool, unknown_icon: &str, caption: &str) -> (r: (
    String,
    String,
))
    ensures
        (r.0@, r.1@) == row_text_of(info_views(all@), id@, by_prefix, unknown_icon@, caption@),
{
    let ghost vs = info_views(all@);
    proof {
        assert(vs.skip(0) =~= vs);
    }
    let mut i: usize = 0;
    while i < all.len()
        invariant
            i <= all@.len(),
            vs == info_views(all@),
            first_describing(vs, id@, by_prefix) == first_describing(vs.skip(i as int), id@, by_prefix),
        decreases all.len() - i,
    {
        let m = &all[i];
        let mut with_colon = copy_str(m.id.as_str());
        with_colon.append(":");
        let hit = str_eq(m.id.as_str(), id) || (by_prefix && crate::text::starts_with(id, with_colon.as_str()));
        proof {
            assert(vs.skip(i as int)[0] == all@[i as int]@);
            assert(vs.skip(i as int).drop_first() =~= vs.skip(i + 1));
        }
        if hit {
            let mut title = copy_str(m.icon.as_str());
            title.append(" ");
            title.append(m.name.as_str());
            return (title, copy_str(m.description.as_str()));
        }
        i = i + 1;
    }
    proof {
        assert(vs.skip(i as int).len() == 0);
    }
    let mut title = copy_str(unknown_icon);
    title.append(" ");
    title.append(id);
    let mut sub = copy_str(caption);
    sub.append(": ");
    sub.append(id);
    (title, sub)
}

/// The title and subtitle of a script module's row: icon, name and
/// `[script:<id>]`; the command, the polling interval in seconds and, when
/// it has one that is not blank, the click action.
pub open spec fn script_row_of(m: CustomScriptModule) -> (Seq<char>, Seq<char>) {
    let click = match m.on_click {
        Some(c) => if trimmed(c@).len() > 0 {
            " | Klik: `"@ + c@ + "`"@
        } else {
            Seq::empty()
        },
        None => Seq::empty(),
    };
    (
        m.icon@ + " "@ + m.name@ + " [script:"@ + m.id@ + "]"@,
        "Commando: `"@ + m.command@ + "` | Polling: "@ + dec(m.interval_seconds as nat) + "s"@ + click,
    )
}

/// The title and subtitle of a script module's row.
pub fn script_row_text(m: &CustomScriptModule) -> (r: (String, String))
    ensures
        (r.0@, r.1@) == script_row_of(*m),
{
    let mut title = copy_str(m.icon.as_str());
    title.append(" ");
    title.append(m.name.as_str());
    title.append(" [script:");
    title.append(m.id.as_str());
    title.append("]");
    let mut sub = copy_str("Commando: `");
    sub.append(m.command.as_str());
    sub.append("` | Polling: ");
    push_dec(&mut sub, m.interval_seconds as u64);
    sub.append("s");
    match &m.on_click {
        Some(c) => {
            let t = trim(c.as_str());
            if t.unicode_len() > 0 {
                sub.append(" | Klik: `");
                sub.append(c.as_str());
                sub.append("`");
            }
        },
        None => {},
    }
    (title, sub)
}


// ---------------------------------------------------------------------------
// Ready-made looks for the Quickshell bar.
// ---------------------------------------------------------------------------

/// A ready-made look for the Quickshell bar: its layout, colours, sizes,
/// opacities (in percent) and modules.
pub struct BarPreset {
    pub layout: ShellLayout,
    pub background: String,
    pub accent: String,
    pub pill_bg: String,
    pub text_color: String,
    pub border_color: String,
    pub rounding: i32,
    pub pill_rounding: i32,
    pub margin_h: i32,
    pub margin_v: i32,
    pub border_width: i32,
    pub font_size: i32,
    pub module_spacing: i32,
    pub opacity_percent: u32,
    pub pill_opacity_percent: u32,
    pub modules: ShellModules,
}

#[verifier::ext_equal]
pub struct BarPresetView {
    pub bar_style: Seq<char>,
    pub position: Seq<char>,
    pub height: i32,
    pub floating: bool,
    pub background: Seq<char>,
    pub accent: Seq<char>,
    pub pill_bg: Seq<char>,
    pub text_color: Seq<char>,
    pub border_color: Seq<char>,
    pub rounding: i32,
    pub pill_rounding: i32,
    pub margin_h: i32,
    pub margin_v: i32,
    pub border_width: i32,
    pub font_size: i32,
    pub module_spacing: i32,
    pub opacity_percent: u32,
    pub pill_opacity_percent: u32,
    pub left: Seq<Seq<char>>,
    pub center: Seq<Seq<char>>,
    pub right: Seq<Seq<char>>,
}

impl View for BarPreset {
    type V = BarPresetView;

    open spec fn view(&self) -> BarPresetView {
        BarPresetView {
            bar_style: self.layout.bar_style@,
            position: self.layout.position@,
            height: self.layout.height,
            floating: self.layout.floating,
            background: self.background@,
            accent: self.accent@,
            pill_bg: self.pill_bg@,
            text_color: self.text_color@,
            border_color: self.border_color@,
            rounding: self.rounding,
            pill_rounding: self.pill_rounding,
            margin_h: self.margin_h,
            margin_v: self.margin_v,
            border_width: self.border_width,
            font_size: self.font_size,
            module_spacing: self.module_spacing,
            opacity_percent: self.opacity_percent,
            pill_opacity_percent: self.pill_opacity_percent,
            left: views(self.modules.left@),
            center: views(self.modules.center@),
            right: views(self.modules.right@),
        }
    }
}

/// The look on each row of the preset menu: Zenith Modern, Dynamic Islands,
/// Cyber Neon, Nord Frost, Cupertino Dock and Compact Edge; any other row
/// stands for Zenith Modern.
pub open spec fn bar_preset_of(row: int) -> BarPresetView {
    if row == 1 {
        BarPresetView {
            bar_style: "islands"@,
            position: "top"@,
            height: 38,
            floating: true,
            background: "#1e1e2e"@,
            accent: "#cba6f7"@,
            pill_bg: "#11111b"@,
            text_color: "#cdd6f4"@,
            border_color: "#585b70"@,
            rounding: 14,
            pill_rounding: 10,
            margin_h: 10,
            margin_v: 8,
            border_width: 1,
            font_size: 11,
            module_spacing: 10,
            opacity_percent: 80,
            pill_opacity_percent: 88,
            left: lit_views(seq!["launcher", "workspaces"]),
            center: lit_views(seq!["active_window", "media"]),
            right: lit_views(seq!["volume", "brightness", "network", "battery", "systray", "clock", "power"]),
        }
    } else if row == 2 {
        BarPresetView {
            bar_style: "islands"@,
            position: "top"@,
            height: 40,
            floating: true,
            background: "#0a0a14"@,
            accent: "#00ffff"@,
            pill_bg: "#101026"@,
            text_color: "#00ffcc"@,
            border_color: "#ff007f"@,
            rounding: 16,
            pill_rounding: 10,
            margin_h: 12,
            margin_v: 8,
            border_width: 2,
            font_size: 12,
            module_spacing: 12,
            opacity_percent: 92,
            pill_opacity_percent: 90,
            left: lit_views(seq!["launcher", "brand", "workspaces"]),
            center: lit_views(seq!["active_window", "media"]),
            right: lit_views(seq!["cpu", "ram", "volume", "network", "clock", "power"]),
        }
    } else if row == 3 {
        BarPresetView {
            bar_style: "unified"@,
            position: "top"@,
            height: 36,
            floating: true,
            background: "#2e3440"@,
            accent: "#88c0d0"@,
            pill_bg: "#3b4252"@,
            text_color: "#eceff4"@,
            border_color: "#4c566a"@,
            rounding: 10,
            pill_rounding: 8,
            margin_h: 8,
            margin_v: 6,
            border_width: 1,
            font_size: 11,
            module_spacing: 8,
            opacity_percent: 95,
            pill_opacity_percent: 90,
            left: lit_views(seq!["workspaces"]),
            center: lit_views(seq!["active_window"]),
            right: lit_views(seq!["volume", "brightness", "network", "battery", "clock", "power"]),
        }
    } else if row == 4 {
        BarPresetView {
            bar_style: "unified"@,
            position: "bottom"@,
            height: 44,
            floating: true,
            background: "#1c1c1e"@,
            accent: "#0a84ff"@,
            pill_bg: "#2c2c2e"@,
            text_color: "#ffffff"@,
            border_color: "#3a3a3c"@,
            rounding: 20,
            pill_rounding: 12,
            margin_h: 18,
            margin_v: 10,
            border_width: 1,
            font_size: 12,
            module_spacing: 10,
            opacity_percent: 75,
            pill_opacity_percent: 80,
            left: lit_views(seq!["launcher", "brand"]),
            center: lit_views(seq!["workspaces", "active_window"]),
            right: lit_views(seq!["volume", "brightness", "systray", "clock", "power"]),
        }
    } else if row == 5 {
        BarPresetView {
            bar_style: "unified"@,
            position: "top"@,
            height: 28,
            floating: false,
            background: "#181825"@,
            accent: "#89dceb"@,
            pill_bg: "#11111b"@,
            text_color: "#cdd6f4"@,
            border_color: "#313244"@,
            rounding: 0,
            pill_rounding: 4,
            margin_h: 0,
            margin_v: 0,
            border_width: 0,
            font_size: 10,
            module_spacing: 6,
            opacity_percent: 100,
            pill_opacity_percent: 100,
            left: lit_views(seq!["workspaces"]),
            center: lit_views(seq!["active_window"]),
            right: lit_views(seq!["cpu", "ram", "volume", "clock", "power"]),
        }
    } else {
        BarPresetView {
            bar_style: "unified"@,
            position: "top"@,
            height: 38,
            floating: true,
            background: "#1e1e2e"@,
            accent: "#89b4fa"@,
            pill_bg: "#181825"@,
            text_color: "#cdd6f4"@,
            border_color: "#45475a"@,
            rounding: 12,
            pill_rounding: 8,
            margin_h: 8,
            margin_v: 6,
            border_width: 1,
            font_size: 11,
            module_spacing: 8,
            opacity_percent: 90,
            pill_opacity_percent: 85,
            left: lit_views(seq!["launcher", "brand", "workspaces"]),
            center: lit_views(seq!["active_window", "media"]),
            right: lit_views(seq!["cpu", "ram", "battery", "volume", "brightness", "network", "bluetooth", "systray", "clock", "power"]),
        }
    }
}

/// The look on a row of the preset menu.
pub fn bar_preset(row: u32) -> (p: BarPreset)
    ensures
        p@ == bar_preset_of(row as int),
{
    match row {
        1 => BarPreset {
            layout: ShellLayout { position: copy_str("top"), height: 38, floating: true, bar_style: copy_str("islands") },
            background: copy_str("#1e1e2e"),
            accent: copy_str("#cba6f7"),
            pill_bg: copy_str("#11111b"),
            text_color: copy_str("#cdd6f4"),
            border_color: copy_str("#585b70"),
            rounding: 14,
            pill_rounding: 10,
            margin_h: 10,
            margin_v: 8,
            border_width: 1,
            font_size: 11,
            module_spacing: 10,
            opacity_percent: 80,
            pill_opacity_percent: 88,
            modules: ShellModules { left: strings_of(&["launcher", "workspaces"]), center: strings_of(&["active_window", "media"]), right: strings_of(&["volume", "brightness", "network", "battery", "systray", "clock", "power"]) },
        },
        2 => BarPreset {
            layout: ShellLayout { position: copy_str("top"), height: 40, floating: true, bar_style: copy_str("islands") },
            background: copy_str("#0a0a14"),
            accent: copy_str("#00ffff"),
            pill_bg: copy_str("#101026"),
            text_color: copy_str("#00ffcc"),
            border_color: copy_str("#ff007f"),
            rounding: 16,
            pill_rounding: 10,
            margin_h: 12,
            margin_v: 8,
            border_width: 2,
            font_size: 12,
            module_spacing: 12,
            opacity_percent: 92,
            pill_opacity_percent: 90,
            modules: ShellModules { left: strings_of(&["launcher", "brand", "workspaces"]), center: strings_of(&["active_window", "media"]), right: strings_of(&["cpu", "ram", "volume", "network", "clock", "power"]) },
        },
        3 => BarPreset {
            layout: ShellLayout { position: copy_str("top"), height: 36, floating: true, bar_style: copy_str("unified") },
            background: copy_str("#2e3440"),
            accent: copy_str("#88c0d0"),
            pill_bg: copy_str("#3b4252"),
            text_color: copy_str("#eceff4"),
            border_color: copy_str("#4c566a"),
            rounding: 10,
            pill_rounding: 8,
            margin_h: 8,
            margin_v: 6,
            border_width: 1,
            font_size: 11,
            module_spacing: 8,
            opacity_percent: 95,
            pill_opacity_percent: 90,
            modules: ShellModules { left: strings_of(&["workspaces"]), center: strings_of(&["active_window"]), right: strings_of(&["volume", "brightness", "network", "battery", "clock", "power"]) },
        },
        4 => BarPreset {
            layout: ShellLayout { position: copy_str("bottom"), height: 44, floating: true, bar_style: copy_str("unified") },
            background: copy_str("#1c1c1e"),
            accent: copy_str("#0a84ff"),
            pill_bg: copy_str("#2c2c2e"),
            text_color: copy_str("#ffffff"),
            border_color: copy_str("#3a3a3c"),
            rounding: 20,
            pill_rounding: 12,
            margin_h: 18,
            margin_v: 10,
            border_width: 1,
            font_size: 12,
            module_spacing: 10,
            opacity_percent: 75,
            pill_opacity_percent: 80,
            modules: ShellModules { left: strings_of(&["launcher", "brand"]), center: strings_of(&["workspaces", "active_window"]), right: strings_of(&["volume", "brightness", "systray", "clock", "power"]) },
        },
        5 => BarPreset {
            layout: ShellLayout { position: copy_str("top"), height: 28, floating: false, bar_style: copy_str("unified") },
            background: copy_str("#181825"),
            accent: copy_str("#89dceb"),
            pill_bg: copy_str("#11111b"),
            text_color: copy_str("#cdd6f4"),
            border_color: copy_str("#313244"),
            rounding: 0,
            pill_rounding: 4,
            margin_h: 0,
            margin_v: 0,
            border_width: 0,
            font_size: 10,
            module_spacing: 6,
            opacity_percent: 100,
            pill_opacity_percent: 100,
            modules: ShellModules { left: strings_of(&["workspaces"]), center: strings_of(&["active_window"]), right: strings_of(&["cpu", "ram", "volume", "clock", "power"]) },
        },
        _ => BarPreset {
            layout: ShellLayout { position: copy_str("top"), height: 38, floating: true, bar_style: copy_str("unified") },
            background: copy_str("#1e1e2e"),
            accent: copy_str("#89b4fa"),
            pill_bg: copy_str("#181825"),
            text_color: copy_str("#cdd6f4"),
            border_color: copy_str("#45475a"),
            rounding: 12,
            pill_rounding: 8,
            margin_h: 8,
            margin_v: 6,
            border_width: 1,
            font_size: 11,
            module_spacing: 8,
            opacity_percent: 90,
            pill_opacity_percent: 85,
            modules: ShellModules { left: strings_of(&["launcher", "brand", "workspaces"]), center: strings_of(&["active_window", "media"]), right: strings_of(&["cpu", "ram", "battery", "volume", "brightness", "network", "bluetooth", "systray", "clock", "power"]) },
        },
    }
}


// ---------------------------------------------------------------------------
// Small texts of the pages.
// ---------------------------------------------------------------------------

/// An optional text field's value: trimmed, and none when nothing is left
/// (a click action, the lock screen's avatar, a logo source).
pub fn optional_text(t: &str) -> (r: Option<String>)
    ensures
        match r {
            Some(x) => trimmed(t@).len() > 0 && x@ == trimmed(t@),
            None => trimmed(t@).len() == 0,
        },
{
    let x = trim(t);
    if x.unicode_len() == 0 {
        None
    } else {
        Some(x)
    }
}

/// A whole number with its unit, as a slider's row shows it (`12 px`).
pub fn value_with_unit(v: i64, unit: &str) -> (r: String)
    ensures
        r@ == crate::text::dec_signed_padded(v as int, 0) + " "@ + unit@,
{
    let mut r = String::new();
    crate::text::push_signed_padded(&mut r, v, 0);
    r.append(" ");
    r.append(unit);
    r
}

/// The colour of the text on a colour swatch: light on colours whose hex
/// code starts with 0 to 3, dark on the others.
pub open spec fn swatch_text_color_of(hex: Seq<char>) -> Seq<char> {
    if crate::text::is_prefix("#1"@, hex) || crate::text::is_prefix("#2"@, hex) || crate::text::is_prefix("#0"@, hex)
        || crate::text::is_prefix("#3"@, hex) {
        "#cdd6f4"@
    } else {
        "#11111b"@
    }
}

/// The colour of the text on a colour swatch.
pub fn swatch_text_color(hex: &str) -> (r: &'static str)
    ensures
        r@ == swatch_text_color_of(hex@),
{
    if crate::text::starts_with(hex, "#1") || crate::text::starts_with(hex, "#2") || crate::text::starts_with(hex, "#0")
        || crate::text::starts_with(hex, "#3") {
        "#cdd6f4"
    } else {
        "#11111b"
    }
}

/// The label of a status pill: a filled dot with the word for running, or
/// an open dot with the word for stopped.
pub fn status_label(running: bool, active_word: &str, inactive_word: &str) -> (r: String)
    ensures
        r@ == (if running {
            "● "@ + active_word@
        } else {
            "○ "@ + inactive_word@
        }),
{
    if running {
        let mut r = copy_str("● ");
        r.append(active_word);
        r
    } else {
        let mut r = copy_str("○ ");
        r.append(inactive_word);
        r
    }
}

/// The time the lock screen preview shows: with seconds when the clock
/// format holds `ss`.
pub fn preview_clock_text(format: &str) -> (r: &'static str)
    ensures
        r@ == (if crate::text::contains_seq(format@, "ss"@) {
            "14:35:09"@
        } else {
            "14:35"@
        }),
{
    if crate::text::contains(format, "ss") {
        "14:35:09"
    } else {
        "14:35"
    }
}

/// The value `gsettings get` printed: trimmed, without the quotes around a
/// text value.
pub fn gsettings_value(output: &str) -> (r: String)
    ensures
        r@ == trim_char(trimmed(output@), '\''),
{
    let t = trim(output);
    let v = to_chars(t.as_str());
    trim_char_text(&v, '\'')
}

/// The arguments of `gsettings` that read a key of the desktop interface.
pub fn gsettings_get_args(key: &str) -> (r: Vec<String>)
    ensures
        views(r@) == seq!["get"@, "org.gnome.desktop.interface"@, key@],
{
    let mut r: Vec<String> = Vec::new();
    r.push(copy_str("get"));
    r.push(copy_str("org.gnome.desktop.interface"));
    r.push(copy_str(key));
    proof {
        assert(views(r@) =~= seq!["get"@, "org.gnome.desktop.interface"@, key@]);
    }
    r
}

/// The arguments of `gsettings` that write a key of the desktop interface.
pub fn gsettings_set_args(key: &str, value: &str) -> (r: Vec<String>)
    ensures
        views(r@) == seq!["set"@, "org.gnome.desktop.interface"@, key@, value@],
{
    let mut r: Vec<String> = Vec::new();
    r.push(copy_str("set"));
    r.push(copy_str("org.gnome.desktop.interface"));
    r.push(copy_str(key));
    r.push(copy_str(value));
    proof {
        assert(views(r@) =~= seq!["set"@, "org.gnome.desktop.interface"@, key@, value@]);
    }
    r
}


// ---------------------------------------------------------------------------
// Finding the wallpaper in use.
// ---------------------------------------------------------------------------

/// The first index from `i` on at which `p` occurs in `s`, or -1.
pub open spec fn first_from(s: Seq<char>, p: Seq<char>, i: int) -> int
    decreases s.len() + 1 - i,
{
    if i < 0 || i + p.len() > s.len() {
        -1
    } else if crate::text::occurs_at(p, s, i) {
        i
    } else {
        first_from(s, p, i + 1)
    }
}

/// The image a line of `pgrep -a swaybg` names: the first word after the
/// first `-i ` (empty when there is none), if the line holds `-i `.
pub open spec fn swaybg_image_of(line: Seq<char>) -> Option<Seq<char>> {
    let i = first_from(line, "-i "@, 0);
    if i < 0 {
        None
    } else {
        let ws = crate::text::words(line.skip(i + 3));
        Some(if ws.len() > 0 { ws[0] } else { Seq::empty() })
    }
}

/// The image a line of `pgrep -a swaybg` names.
pub fn swaybg_image(line: &str) -> (r: Option<String>)
    ensures
        match r {
            Some(x) => swaybg_image_of(line@) == Some(x@),
            None => swaybg_image_of(line@) is None,
        },
{
    proof {
        reveal_strlit("-i ");
    }
    let v = to_chars(line);
    let p = to_chars("-i ");
    let mut i: usize = 0;
    while i < v.len() && v.len() - i >= 3
        invariant
            i <= v@.len(),
            v@ == line@,
            p@ == "-i "@,
            first_from(line@, "-i "@, 0) == first_from(line@, "-i "@, i as int),
        decreases v.len() - i,
    {
        if crate::text::matches_at(&v, &p, i) {
            let rest = text_of_range(&v, i + 3, v.len());
            proof {
                assert(rest@ =~= line@.skip(i + 3));
            }
            let ws = crate::text::split_words(rest.as_str());
            if ws.len() > 0 {
                return Some(copy_str(ws[0].as_str()));
            } else {
                return Some(String::new());
            }
        }
        i = i + 1;
    }
    None
}

/// The images on offer before anything else is known: the wallpaper of
/// the Hyprland setup, from the newest to the oldest.
pub open spec fn system_wallpapers() -> Seq<Seq<char>> {
    seq!["/usr/share/hypr/wall2.png"@, "/usr/share/hypr/wall1.png"@, "/usr/share/hypr/wall0.png"@]
}

/// The images named by the lines of `pgrep -a swaybg`, in order.
pub open spec fn swaybg_images(lines: Seq<Seq<char>>) -> Seq<Seq<char>>
    decreases lines.len(),
{
    if lines.len() == 0 {
        Seq::empty()
    } else {
        let before = swaybg_images(lines.drop_last());
        match swaybg_image_of(lines.last()) {
            Some(x) => before.push(x),
            None => before,
        }
    }
}

/// Where the wallpaper in use may be, in the order to try them (the first
/// that is a readable image wins): the saved wallpaper when one is set, the
/// images running `swaybg` processes show, the files of the wallpaper
/// folder, and the system's wallpapers.
pub fn wallpaper_candidates(saved: &str, swaybg_output: &str, folder: &Vec<String>) -> (r: Vec<String>)
    ensures
        views(r@) == (if saved@.len() > 0 {
            seq![saved@]
        } else {
            Seq::empty()
        }) + swaybg_images(crate::text::split_char(swaybg_output@, '\n')) + views(folder@)
            + system_wallpapers(),
{
    let mut r: Vec<String> = Vec::new();
    if saved.unicode_len() > 0 {
        r.push(copy_str(saved));
    }
    let ghost head = views(r@);
    let lines = crate::text::split_at_char(swaybg_output, '\n');
    let ghost ls = views(lines@);
    let mut i: usize = 0;
    while i < lines.len()
        invariant
            i <= lines@.len(),
            ls == views(lines@),
            views(r@) == head + swaybg_images(ls.take(i as int)),
        decreases lines.len() - i,
    {
        let ghost before = views(r@);
        proof {
            assert(ls.take(i + 1).drop_last() =~= ls.take(i as int));
            assert(ls.take(i + 1).last() == lines@[i as int]@);
        }
        match swaybg_image(lines[i].as_str()) {
            Some(x) => {
                let ghost xv = x@;
                r.push(x);
                proof {
                    assert(views(r@) =~= before.push(xv));
                    assert(head + swaybg_images(ls.take(i as int)).push(xv) =~= (head + swaybg_images(
                        ls.take(i as int),
                    )).push(xv));
                }
            },
            None => {},
        }
        i = i + 1;
    }
    proof {
        assert(ls.take(ls.len() as int) =~= ls);
    }
    let ghost mid = views(r@);
    let mut k: usize = 0;
    while k < folder.len()
        invariant
            k <= folder@.len(),
            views(r@) == mid + views(folder@.take(k as int)),
        decreases folder.len() - k,
    {
        let ghost before = views(r@);
        r.push(copy_str(folder[k].as_str()));
        proof {
            assert(views(r@) =~= before.push(folder@[k as int]@));
            assert(views(folder@.take(k + 1)) =~= views(folder@.take(k as int)).push(folder@[k as int]@));
        }
        k = k + 1;
    }
    proof {
        assert(folder@.take(folder@.len() as int) =~= folder@);
    }
    let ghost last = views(r@);
    r.push(copy_str("/usr/share/hypr/wall2.png"));
    r.push(copy_str("/usr/share/hypr/wall1.png"));
    r.push(copy_str("/usr/share/hypr/wall0.png"));
    proof {
        assert(views(r@) =~= last + system_wallpapers());
        if saved@.len() > 0 {
            assert(head =~= seq![saved@]);
        } else {
            assert(head =~= Seq::<Seq<char>>::empty());
        }
    }
    r
}


// ---------------------------------------------------------------------------
// Templates for new modules and cards.
// ---------------------------------------------------------------------------

/// What the "new template" buttons do before opening the file.
#[derive(Clone, Copy, Debug, PartialEq, Eq, Structural)]
pub enum TemplateAction {
    /// The file is there: it is opened as it is.
    Keep,
    /// The example next to it is copied into place.
    CopyExample,
    /// The built-in template is written.
    WriteTemplate,
}

/// What to do for a template file: keep one that exists, else copy the
/// example when there is one, else write the built-in template.
pub fn template_action(file_exists: bool, example_exists: bool) -> (r: TemplateAction)
    ensures
        r == (if file_exists {
            TemplateAction::Keep
        } else if example_exists {
            TemplateAction::CopyExample
        } else {
            TemplateAction::WriteTemplate
        }),
{
    if file_exists {
        TemplateAction::Keep
    } else if example_exists {
        TemplateAction::CopyExample
    } else {
        TemplateAction::WriteTemplate
    }
}

/// The path of the custom bar module template, and of its example.
pub fn widget_template_paths(home: &str) -> (r: (String, String))
    ensures
        r.0@ == home@ + "/.config/quickshell/modules/CustomWidget.qml"@,
        r.1@ == home@ + "/.config/quickshell/modules/CustomWidget.qml.example"@,
{
    let mut a = copy_str(home);
    a.append("/.config/quickshell/modules/CustomWidget.qml");
    let mut b = copy_str(home);
    b.append("/.config/quickshell/modules/CustomWidget.qml.example");
    (a, b)
}

/// The path of the custom card template.
pub fn card_template_path(home: &str) -> (r: String)
    ensures
        r@ == home@ + "/.config/quickshell/cards/CustomCard.qml"@,
{
    let mut a = copy_str(home);
    a.append("/.config/quickshell/cards/CustomCard.qml");
    a
}

} // verus!
