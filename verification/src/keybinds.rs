use vstd::prelude::*;

use crate::text::{
    contains, contains_seq, copy_str, join, join_strings, split_at_char, split_char, split_words,
    str_eq, strip_prefix, views, words, is_prefix, occurs_at,
};

verus! {

// ---------------------------------------------------------------------------
// The keybind model.
// ---------------------------------------------------------------------------

/// One keyboard shortcut.
#[derive(Clone, Debug, PartialEq)]
pub struct Keybind {
    pub id: String,
    /// Modifiers (e.g. `["SUPER", "SHIFT"]`) followed by the key.
    pub keys: Vec<String>,
    pub description: String,
    pub group: String,
}

/// A keybind as plain values.
pub struct KeybindView {
    pub id: Seq<char>,
    pub keys: Seq<Seq<char>>,
    pub description: Seq<char>,
    pub group: Seq<char>,
}

impl View for Keybind {
    type V = KeybindView;

    open spec fn view(&self) -> KeybindView {
        KeybindView {
            id: self.id@,
            keys: views(self.keys@),
            description: self.description@,
            group: self.group@,
        }
    }
}

/// All keys but the last are modifiers.
pub open spec fn modifiers_of(keys: Seq<Seq<char>>) -> Seq<Seq<char>> {
    if keys.len() <= 1 {
        Seq::empty()
    } else {
        keys.drop_last()
    }
}

/// The last key is the key pressed (empty when there is none).
pub open spec fn key_of(keys: Seq<Seq<char>>) -> Seq<char> {
    if keys.len() == 0 {
        Seq::empty()
    } else {
        keys.last()
    }
}

fn clone_strings(v: &Vec<String>, n: usize) -> (out: Vec<String>)
    requires
        n <= v@.len(),
    ensures
        out@ == v@.take(n as int),
{
    let mut out: Vec<String> = Vec::new();
    let mut i: usize = 0;
    while i < n
        invariant
            i <= n <= v@.len(),
            out@ == v@.take(i as int),
        decreases n - i,
    {
        out.push(v[i].clone());
        proof {
            assert(out@ =~= v@.take(i + 1));
        }
        i = i + 1;
    }
    out
}

impl Keybind {
    /// All keys but the last are modifiers.
    pub fn modifiers(&self) -> (out: Vec<String>)
        ensures
            views(out@) == modifiers_of(self@.keys),
    {
        let len = self.keys.len();
        if len <= 1 {
            let out: Vec<String> = Vec::new();
            proof {
                assert(views(out@) =~= Seq::<Seq<char>>::empty());
            }
            return out;
        }
        let out = clone_strings(&self.keys, len - 1);
        proof {
            assert(views(out@) =~= views(self.keys@).drop_last());
        }
        out
    }

    /// The last key is the key pressed (empty when there is none).
    pub fn key(&self) -> (out: String)
        ensures
            out@ == key_of(self@.keys),
    {
        let len = self.keys.len();
        if len == 0 {
            String::new()
        } else {
            self.keys[len - 1].clone()
        }
    }
}

/// A keybind view made of literal parts.
pub open spec fn bind_view(id: &str, keys: Seq<&str>, desc: &str, group: &str) -> KeybindView {
    KeybindView {
        id: id@,
        keys: keys.map_values(|k: &str| k@),
        description: desc@,
        group: group@,
    }
}

/// Appends a keybind made of the given texts.
pub fn push_bind(list: &mut Vec<Keybind>, id: &str, keys: &[&str], desc: &str, group: &str)
    ensures
        final(list)@.len() == old(list)@.len() + 1,
        final(list)@.take(old(list)@.len() as int) == old(list)@,
        final(list)@.drop_last() == old(list)@,
        final(list)@.last()@ == bind_view(id, keys@, desc, group),
{
    let mut ks: Vec<String> = Vec::new();
    let mut i: usize = 0;
    while i < keys.len()
        invariant
            i <= keys@.len(),
            ks@.len() == i,
            views(ks@) == keys@.take(i as int).map_values(|k: &str| k@),
        decreases keys.len() - i,
    {
        let ghost before = ks@;
        let k = copy_str(keys[i]);
        proof {
            assert(k@ == keys@[i as int]@);
        }
        ks.push(k);
        proof {
            assert(ks@ == before.push(k));
            assert forall|j: int| 0 <= j < i + 1 implies views(ks@)[j] == keys@.take(i + 1).map_values(|k: &str| k@)[j] by {
                if j < i {
                    assert(views(before)[j] == keys@.take(i as int).map_values(|k: &str| k@)[j]);
                }
            }
            assert(views(ks@) =~= keys@.take(i + 1).map_values(|k: &str| k@));
        }
        i = i + 1;
    }
    proof {
        assert(keys@.take(keys@.len() as int) =~= keys@);
    }
    let kb = Keybind { id: copy_str(id), keys: ks, description: copy_str(desc), group: copy_str(group) };
    list.push(kb);
    proof {
        assert(list@.take(old(list)@.len() as int) =~= old(list)@);
    }
}

/// The views of a list of keybinds.
pub open spec fn bind_views(s: Seq<Keybind>) -> Seq<KeybindView> {
    s.map_values(|b: Keybind| b@)
}

proof fn lemma_bind_views_push(s: Seq<Keybind>)
    requires
        s.len() > 0,
    ensures
        bind_views(s) == bind_views(s.drop_last()).push(s.last()@),
{
    assert(bind_views(s) =~= bind_views(s.drop_last()).push(s.last()@));
}

/// The default binds of group `Basis`.
pub open spec fn default_basis_binds() -> Seq<KeybindView> {
    seq![
        bind_view("terminal", seq!["SUPER", "Return"], "Terminal openen", "Basis"),
        bind_view("launcher", seq!["SUPER", "Space"], "Applicatie-launcher", "Basis"),
        bind_view("filemanager", seq!["SUPER", "E"], "Bestandsbeheer", "Basis"),
        bind_view("lock", seq!["SUPER", "L"], "Scherm vergrendelen", "Basis"),
        bind_view("control_center", seq!["SUPER", "Escape"], "Zenith Control Center openen", "Basis"),
    ]
}

fn push_basis_binds(list: &mut Vec<Keybind>)
    ensures
        bind_views(final(list)@) == bind_views(old(list)@) + default_basis_binds(),
{
    let ghost start = bind_views(list@);
    push_bind(list, "terminal", &["SUPER", "Return"], "Terminal openen", "Basis");
    proof { assert(list@.last()@.keys =~= seq!["SUPER", "Return"].map_values(|k: &str| k@)); lemma_bind_views_push(list@); assert(bind_views(list@) =~= start + default_basis_binds().take(1)); }
    push_bind(list, "launcher", &["SUPER", "Space"], "Applicatie-launcher", "Basis");
    proof { assert(list@.last()@.keys =~= seq!["SUPER", "Space"].map_values(|k: &str| k@)); lemma_bind_views_push(list@); assert(bind_views(list@) =~= start + default_basis_binds().take(2)); }
    push_bind(list, "filemanager", &["SUPER", "E"], "Bestandsbeheer", "Basis");
    proof { assert(list@.last()@.keys =~= seq!["SUPER", "E"].map_values(|k: &str| k@)); lemma_bind_views_push(list@); assert(bind_views(list@) =~= start + default_basis_binds().take(3)); }
    push_bind(list, "lock", &["SUPER", "L"], "Scherm vergrendelen", "Basis");
    proof { assert(list@.last()@.keys =~= seq!["SUPER", "L"].map_values(|k: &str| k@)); lemma_bind_views_push(list@); assert(bind_views(list@) =~= start + default_basis_binds().take(4)); }
    push_bind(list, "control_center", &["SUPER", "Escape"], "Zenith Control Center openen", "Basis");
    proof { assert(list@.last()@.keys =~= seq!["SUPER", "Escape"].map_values(|k: &str| k@)); lemma_bind_views_push(list@); assert(bind_views(list@) =~= start + default_basis_binds().take(5)); }
    proof { assert(default_basis_binds().take(5) =~= default_basis_binds()); }
}

/// The default binds of group `Focus`.
pub open spec fn default_focus_binds() -> Seq<KeybindView> {
    seq![
        bind_view("focus_left", seq!["SUPER", "Left"], "Focus naar links", "Focus"),
        bind_view("focus_right", seq!["SUPER", "Right"], "Focus naar rechts", "Focus"),
        bind_view("focus_up", seq!["SUPER", "Up"], "Focus naar boven", "Focus"),
        bind_view("focus_down", seq!["SUPER", "Down"], "Focus naar beneden", "Focus"),
        bind_view("move_left", seq!["SUPER", "SHIFT", "Left"], "Venster naar links verplaatsen", "Focus"),
        bind_view("move_right", seq!["SUPER", "SHIFT", "Right"], "Venster naar rechts verplaatsen", "Focus"),
        bind_view("move_up", seq!["SUPER", "SHIFT", "Up"], "Venster naar boven verplaatsen", "Focus"),
        bind_view("move_down", seq!["SUPER", "SHIFT", "Down"], "Venster naar beneden verplaatsen", "Focus"),
    ]
}

fn push_focus_binds(list: &mut Vec<Keybind>)
    ensures
        bind_views(final(list)@) == bind_views(old(list)@) + default_focus_binds(),
{
    let ghost start = bind_views(list@);
    push_bind(list, "focus_left", &["SUPER", "Left"], "Focus naar links", "Focus");
    proof { assert(list@.last()@.keys =~= seq!["SUPER", "Left"].map_values(|k: &str| k@)); lemma_bind_views_push(list@); assert(bind_views(list@) =~= start + default_focus_binds().take(1)); }
    push_bind(list, "focus_right", &["SUPER", "Right"], "Focus naar rechts", "Focus");
    proof { assert(list@.last()@.keys =~= seq!["SUPER", "Right"].map_values(|k: &str| k@)); lemma_bind_views_push(list@); assert(bind_views(list@) =~= start + default_focus_binds().take(2)); }
    push_bind(list, "focus_up", &["SUPER", "Up"], "Focus naar boven", "Focus");
    proof { assert(list@.last()@.keys =~= seq!["SUPER", "Up"].map_values(|k: &str| k@)); lemma_bind_views_push(list@); assert(bind_views(list@) =~= start + default_focus_binds().take(3)); }
    push_bind(list, "focus_down", &["SUPER", "Down"], "Focus naar beneden", "Focus");
    proof { assert(list@.last()@.keys =~= seq!["SUPER", "Down"].map_values(|k: &str| k@)); lemma_bind_views_push(list@); assert(bind_views(list@) =~= start + default_focus_binds().take(4)); }
    push_bind(list, "move_left", &["SUPER", "SHIFT", "Left"], "Venster naar links verplaatsen", "Focus");
    proof { assert(list@.last()@.keys =~= seq!["SUPER", "SHIFT", "Left"].map_values(|k: &str| k@)); lemma_bind_views_push(list@); assert(bind_views(list@) =~= start + default_focus_binds().take(5)); }
    push_bind(list, "move_right", &["SUPER", "SHIFT", "Right"], "Venster naar rechts verplaatsen", "Focus");
    proof { assert(list@.last()@.keys =~= seq!["SUPER", "SHIFT", "Right"].map_values(|k: &str| k@)); lemma_bind_views_push(list@); assert(bind_views(list@) =~= start + default_focus_binds().take(6)); }
    push_bind(list, "move_up", &["SUPER", "SHIFT", "Up"], "Venster naar boven verplaatsen", "Focus");
    proof { assert(list@.last()@.keys =~= seq!["SUPER", "SHIFT", "Up"].map_values(|k: &str| k@)); lemma_bind_views_push(list@); assert(bind_views(list@) =~= start + default_focus_binds().take(7)); }
    push_bind(list, "move_down", &["SUPER", "SHIFT", "Down"], "Venster naar beneden verplaatsen", "Focus");
    proof { assert(list@.last()@.keys =~= seq!["SUPER", "SHIFT", "Down"].map_values(|k: &str| k@)); lemma_bind_views_push(list@); assert(bind_views(list@) =~= start + default_focus_binds().take(8)); }
    proof { assert(default_focus_binds().take(8) =~= default_focus_binds()); }
}

/// The default binds of group `Werkruimten`.
pub open spec fn default_workspaces_binds() -> Seq<KeybindView> {
    seq![
        bind_view("workspace_1", seq!["SUPER", "1"], "Naar werkruimte 1", "Werkruimten"),
        bind_view("workspace_2", seq!["SUPER", "2"], "Naar werkruimte 2", "Werkruimten"),
        bind_view("workspace_3", seq!["SUPER", "3"], "Naar werkruimte 3", "Werkruimten"),
        bind_view("workspace_4", seq!["SUPER", "4"], "Naar werkruimte 4", "Werkruimten"),
        bind_view("workspace_5", seq!["SUPER", "5"], "Naar werkruimte 5", "Werkruimten"),
        bind_view("workspace_6", seq!["SUPER", "6"], "Naar werkruimte 6", "Werkruimten"),
        bind_view("workspace_7", seq!["SUPER", "7"], "Naar werkruimte 7", "Werkruimten"),
        bind_view("workspace_8", seq!["SUPER", "8"], "Naar werkruimte 8", "Werkruimten"),
        bind_view("workspace_9", seq!["SUPER", "9"], "Naar werkruimte 9", "Werkruimten"),
        bind_view("move_to_workspace_1", seq!["SUPER", "SHIFT", "1"], "Venster naar werkruimte 1", "Werkruimten"),
        bind_view("move_to_workspace_2", seq!["SUPER", "SHIFT", "2"], "Venster naar werkruimte 2", "Werkruimten"),
        bind_view("move_to_workspace_3", seq!["SUPER", "SHIFT", "3"], "Venster naar werkruimte 3", "Werkruimten"),
        bind_view("move_to_workspace_4", seq!["SUPER", "SHIFT", "4"], "Venster naar werkruimte 4", "Werkruimten"),
        bind_view("move_to_workspace_5", seq!["SUPER", "SHIFT", "5"], "Venster naar werkruimte 5", "Werkruimten"),
        bind_view("move_to_workspace_6", seq!["SUPER", "SHIFT", "6"], "Venster naar werkruimte 6", "Werkruimten"),
        bind_view("move_to_workspace_7", seq!["SUPER", "SHIFT", "7"], "Venster naar werkruimte 7", "Werkruimten"),
        bind_view("move_to_workspace_8", seq!["SUPER", "SHIFT", "8"], "Venster naar werkruimte 8", "Werkruimten"),
        bind_view("move_to_workspace_9", seq!["SUPER", "SHIFT", "9"], "Venster naar werkruimte 9", "Werkruimten"),
    ]
}

fn push_workspaces_binds(list: &mut Vec<Keybind>)
    ensures
        bind_views(final(list)@) == bind_views(old(list)@) + default_workspaces_binds(),
{
    let ghost start = bind_views(list@);
    push_bind(list, "workspace_1", &["SUPER", "1"], "Naar werkruimte 1", "Werkruimten");
    proof { assert(list@.last()@.keys =~= seq!["SUPER", "1"].map_values(|k: &str| k@)); lemma_bind_views_push(list@); assert(bind_views(list@) =~= start + default_workspaces_binds().take(1)); }
    push_bind(list, "workspace_2", &["SUPER", "2"], "Naar werkruimte 2", "Werkruimten");
    proof { assert(list@.last()@.keys =~= seq!["SUPER", "2"].map_values(|k: &str| k@)); lemma_bind_views_push(list@); assert(bind_views(list@) =~= start + default_workspaces_binds().take(2)); }
    push_bind(list, "workspace_3", &["SUPER", "3"], "Naar werkruimte 3", "Werkruimten");
    proof { assert(list@.last()@.keys =~= seq!["SUPER", "3"].map_values(|k: &str| k@)); lemma_bind_views_push(list@); assert(bind_views(list@) =~= start + default_workspaces_binds().take(3)); }
    push_bind(list, "workspace_4", &["SUPER", "4"], "Naar werkruimte 4", "Werkruimten");
    proof { assert(list@.last()@.keys =~= seq!["SUPER", "4"].map_values(|k: &str| k@)); lemma_bind_views_push(list@); assert(bind_views(list@) =~= start + default_workspaces_binds().take(4)); }
    push_bind(list, "workspace_5", &["SUPER", "5"], "Naar werkruimte 5", "Werkruimten");
    proof { assert(list@.last()@.keys =~= seq!["SUPER", "5"].map_values(|k: &str| k@)); lemma_bind_views_push(list@); assert(bind_views(list@) =~= start + default_workspaces_binds().take(5)); }
    push_bind(list, "workspace_6", &["SUPER", "6"], "Naar werkruimte 6", "Werkruimten");
    proof { assert(list@.last()@.keys =~= seq!["SUPER", "6"].map_values(|k: &str| k@)); lemma_bind_views_push(list@); assert(bind_views(list@) =~= start + default_workspaces_binds().take(6)); }
    push_bind(list, "workspace_7", &["SUPER", "7"], "Naar werkruimte 7", "Werkruimten");
    proof { assert(list@.last()@.keys =~= seq!["SUPER", "7"].map_values(|k: &str| k@)); lemma_bind_views_push(list@); assert(bind_views(list@) =~= start + default_workspaces_binds().take(7)); }
    push_bind(list, "workspace_8", &["SUPER", "8"], "Naar werkruimte 8", "Werkruimten");
    proof { assert(list@.last()@.keys =~= seq!["SUPER", "8"].map_values(|k: &str| k@)); lemma_bind_views_push(list@); assert(bind_views(list@) =~= start + default_workspaces_binds().take(8)); }
    push_bind(list, "workspace_9", &["SUPER", "9"], "Naar werkruimte 9", "Werkruimten");
    proof { assert(list@.last()@.keys =~= seq!["SUPER", "9"].map_values(|k: &str| k@)); lemma_bind_views_push(list@); assert(bind_views(list@) =~= start + default_workspaces_binds().take(9)); }
    push_bind(list, "move_to_workspace_1", &["SUPER", "SHIFT", "1"], "Venster naar werkruimte 1", "Werkruimten");
    proof { assert(list@.last()@.keys =~= seq!["SUPER", "SHIFT", "1"].map_values(|k: &str| k@)); lemma_bind_views_push(list@); assert(bind_views(list@) =~= start + default_workspaces_binds().take(10)); }
    push_bind(list, "move_to_workspace_2", &["SUPER", "SHIFT", "2"], "Venster naar werkruimte 2", "Werkruimten");
    proof { assert(list@.last()@.keys =~= seq!["SUPER", "SHIFT", "2"].map_values(|k: &str| k@)); lemma_bind_views_push(list@); assert(bind_views(list@) =~= start + default_workspaces_binds().take(11)); }
    push_bind(list, "move_to_workspace_3", &["SUPER", "SHIFT", "3"], "Venster naar werkruimte 3", "Werkruimten");
    proof { assert(list@.last()@.keys =~= seq!["SUPER", "SHIFT", "3"].map_values(|k: &str| k@)); lemma_bind_views_push(list@); assert(bind_views(list@) =~= start + default_workspaces_binds().take(12)); }
    push_bind(list, "move_to_workspace_4", &["SUPER", "SHIFT", "4"], "Venster naar werkruimte 4", "Werkruimten");
    proof { assert(list@.last()@.keys =~= seq!["SUPER", "SHIFT", "4"].map_values(|k: &str| k@)); lemma_bind_views_push(list@); assert(bind_views(list@) =~= start + default_workspaces_binds().take(13)); }
    push_bind(list, "move_to_workspace_5", &["SUPER", "SHIFT", "5"], "Venster naar werkruimte 5", "Werkruimten");
    proof { assert(list@.last()@.keys =~= seq!["SUPER", "SHIFT", "5"].map_values(|k: &str| k@)); lemma_bind_views_push(list@); assert(bind_views(list@) =~= start + default_workspaces_binds().take(14)); }
    push_bind(list, "move_to_workspace_6", &["SUPER", "SHIFT", "6"], "Venster naar werkruimte 6", "Werkruimten");
    proof { assert(list@.last()@.keys =~= seq!["SUPER", "SHIFT", "6"].map_values(|k: &str| k@)); lemma_bind_views_push(list@); assert(bind_views(list@) =~= start + default_workspaces_binds().take(15)); }
    push_bind(list, "move_to_workspace_7", &["SUPER", "SHIFT", "7"], "Venster naar werkruimte 7", "Werkruimten");
    proof { assert(list@.last()@.keys =~= seq!["SUPER", "SHIFT", "7"].map_values(|k: &str| k@)); lemma_bind_views_push(list@); assert(bind_views(list@) =~= start + default_workspaces_binds().take(16)); }
    push_bind(list, "move_to_workspace_8", &["SUPER", "SHIFT", "8"], "Venster naar werkruimte 8", "Werkruimten");
    proof { assert(list@.last()@.keys =~= seq!["SUPER", "SHIFT", "8"].map_values(|k: &str| k@)); lemma_bind_views_push(list@); assert(bind_views(list@) =~= start + default_workspaces_binds().take(17)); }
    push_bind(list, "move_to_workspace_9", &["SUPER", "SHIFT", "9"], "Venster naar werkruimte 9", "Werkruimten");
    proof { assert(list@.last()@.keys =~= seq!["SUPER", "SHIFT", "9"].map_values(|k: &str| k@)); lemma_bind_views_push(list@); assert(bind_views(list@) =~= start + default_workspaces_binds().take(18)); }
    proof { assert(default_workspaces_binds().take(18) =~= default_workspaces_binds()); }
}

/// The default binds of group `Venster`.
pub open spec fn default_window_binds() -> Seq<KeybindView> {
    seq![
        bind_view("toggle_floating", seq!["SUPER", "F"], "Floating venster schakelen", "Venster"),
        bind_view("toggle_fullscreen", seq!["SUPER", "M"], "Volledig scherm schakelen", "Venster"),
        bind_view("kill_active", seq!["SUPER", "C"], "Actief venster sluiten", "Venster"),
        bind_view("toggle_group", seq!["SUPER", "G"], "Groeperen schakelen", "Venster"),
    ]
}

fn push_window_binds(list: &mut Vec<Keybind>)
    ensures
        bind_views(final(list)@) == bind_views(old(list)@) + default_window_binds(),
{
    let ghost start = bind_views(list@);
    push_bind(list, "toggle_floating", &["SUPER", "F"], "Floating venster schakelen", "Venster");
    proof { assert(list@.last()@.keys =~= seq!["SUPER", "F"].map_values(|k: &str| k@)); lemma_bind_views_push(list@); assert(bind_views(list@) =~= start + default_window_binds().take(1)); }
    push_bind(list, "toggle_fullscreen", &["SUPER", "M"], "Volledig scherm schakelen", "Venster");
    proof { assert(list@.last()@.keys =~= seq!["SUPER", "M"].map_values(|k: &str| k@)); lemma_bind_views_push(list@); assert(bind_views(list@) =~= start + default_window_binds().take(2)); }
    push_bind(list, "kill_active", &["SUPER", "C"], "Actief venster sluiten", "Venster");
    proof { assert(list@.last()@.keys =~= seq!["SUPER", "C"].map_values(|k: &str| k@)); lemma_bind_views_push(list@); assert(bind_views(list@) =~= start + default_window_binds().take(3)); }
    push_bind(list, "toggle_group", &["SUPER", "G"], "Groeperen schakelen", "Venster");
    proof { assert(list@.last()@.keys =~= seq!["SUPER", "G"].map_values(|k: &str| k@)); lemma_bind_views_push(list@); assert(bind_views(list@) =~= start + default_window_binds().take(4)); }
    proof { assert(default_window_binds().take(4) =~= default_window_binds()); }
}

/// The default binds of group `Multimedia`.
pub open spec fn default_media_binds() -> Seq<KeybindView> {
    seq![
        bind_view("volume_up", seq!["XF86AudioRaiseVolume"], "Volume omhoog", "Multimedia"),
        bind_view("volume_down", seq!["XF86AudioLowerVolume"], "Volume omlaag", "Multimedia"),
        bind_view("volume_mute", seq!["XF86AudioMute"], "Volume dempen", "Multimedia"),
        bind_view("brightness_up", seq!["XF86MonBrightnessUp"], "Helderheid omhoog", "Multimedia"),
        bind_view("brightness_down", seq!["XF86MonBrightnessDown"], "Helderheid omlaag", "Multimedia"),
        bind_view("media_play_pause", seq!["XF86AudioPlay"], "Media afspelen/pauzeren", "Multimedia"),
        bind_view("media_next", seq!["XF86AudioNext"], "Volgende media", "Multimedia"),
        bind_view("media_prev", seq!["XF86AudioPrev"], "Vorige media", "Multimedia"),
    ]
}

fn push_media_binds(list: &mut Vec<Keybind>)
    ensures
        bind_views(final(list)@) == bind_views(old(list)@) + default_media_binds(),
{
    let ghost start = bind_views(list@);
    push_bind(list, "volume_up", &["XF86AudioRaiseVolume"], "Volume omhoog", "Multimedia");
    proof { assert(list@.last()@.keys =~= seq!["XF86AudioRaiseVolume"].map_values(|k: &str| k@)); lemma_bind_views_push(list@); assert(bind_views(list@) =~= start + default_media_binds().take(1)); }
    push_bind(list, "volume_down", &["XF86AudioLowerVolume"], "Volume omlaag", "Multimedia");
    proof { assert(list@.last()@.keys =~= seq!["XF86AudioLowerVolume"].map_values(|k: &str| k@)); lemma_bind_views_push(list@); assert(bind_views(list@) =~= start + default_media_binds().take(2)); }
    push_bind(list, "volume_mute", &["XF86AudioMute"], "Volume dempen", "Multimedia");
    proof { assert(list@.last()@.keys =~= seq!["XF86AudioMute"].map_values(|k: &str| k@)); lemma_bind_views_push(list@); assert(bind_views(list@) =~= start + default_media_binds().take(3)); }
    push_bind(list, "brightness_up", &["XF86MonBrightnessUp"], "Helderheid omhoog", "Multimedia");
    proof { assert(list@.last()@.keys =~= seq!["XF86MonBrightnessUp"].map_values(|k: &str| k@)); lemma_bind_views_push(list@); assert(bind_views(list@) =~= start + default_media_binds().take(4)); }
    push_bind(list, "brightness_down", &["XF86MonBrightnessDown"], "Helderheid omlaag", "Multimedia");
    proof { assert(list@.last()@.keys =~= seq!["XF86MonBrightnessDown"].map_values(|k: &str| k@)); lemma_bind_views_push(list@); assert(bind_views(list@) =~= start + default_media_binds().take(5)); }
    push_bind(list, "media_play_pause", &["XF86AudioPlay"], "Media afspelen/pauzeren", "Multimedia");
    proof { assert(list@.last()@.keys =~= seq!["XF86AudioPlay"].map_values(|k: &str| k@)); lemma_bind_views_push(list@); assert(bind_views(list@) =~= start + default_media_binds().take(6)); }
    push_bind(list, "media_next", &["XF86AudioNext"], "Volgende media", "Multimedia");
    proof { assert(list@.last()@.keys =~= seq!["XF86AudioNext"].map_values(|k: &str| k@)); lemma_bind_views_push(list@); assert(bind_views(list@) =~= start + default_media_binds().take(7)); }
    push_bind(list, "media_prev", &["XF86AudioPrev"], "Vorige media", "Multimedia");
    proof { assert(list@.last()@.keys =~= seq!["XF86AudioPrev"].map_values(|k: &str| k@)); lemma_bind_views_push(list@); assert(bind_views(list@) =~= start + default_media_binds().take(8)); }
    proof { assert(default_media_binds().take(8) =~= default_media_binds()); }
}

/// The default binds of group `Screenshots`.
pub open spec fn default_screenshots_binds() -> Seq<KeybindView> {
    seq![
        bind_view("screenshot", seq!["Print"], "Schermafbeelding volledig", "Screenshots"),
        bind_view("screenshot_region", seq!["SUPER", "SHIFT", "Print"], "Schermafbeelding selectie", "Screenshots"),
    ]
}

fn push_screenshots_binds(list: &mut Vec<Keybind>)
    ensures
        bind_views(final(list)@) == bind_views(old(list)@) + default_screenshots_binds(),
{
    let ghost start = bind_views(list@);
    push_bind(list, "screenshot", &["Print"], "Schermafbeelding volledig", "Screenshots");
    proof { assert(list@.last()@.keys =~= seq!["Print"].map_values(|k: &str| k@)); lemma_bind_views_push(list@); assert(bind_views(list@) =~= start + default_screenshots_binds().take(1)); }
    push_bind(list, "screenshot_region", &["SUPER", "SHIFT", "Print"], "Schermafbeelding selectie", "Screenshots");
    proof { assert(list@.last()@.keys =~= seq!["SUPER", "SHIFT", "Print"].map_values(|k: &str| k@)); lemma_bind_views_push(list@); assert(bind_views(list@) =~= start + default_screenshots_binds().take(2)); }
    proof { assert(default_screenshots_binds().take(2) =~= default_screenshots_binds()); }
}

/// The full default set of Arch/Hyprland shortcuts.
pub open spec fn default_bind_table() -> Seq<KeybindView> {
    default_basis_binds() + default_focus_binds() + default_workspaces_binds() + default_window_binds()
        + default_media_binds() + default_screenshots_binds()
}

/// The default Arch/Hyprland shortcuts (the full set).
pub fn default_keybinds() -> (list: Vec<Keybind>)
    ensures
        bind_views(list@) == default_bind_table(),
{
    let mut list: Vec<Keybind> = Vec::new();
    proof {
        assert(bind_views(list@) =~= Seq::<KeybindView>::empty());
    }
    push_basis_binds(&mut list);
    push_focus_binds(&mut list);
    push_workspaces_binds(&mut list);
    push_window_binds(&mut list);
    push_media_binds(&mut list);
    push_screenshots_binds(&mut list);
    proof {
        assert(bind_views(list@) =~= default_bind_table());
    }
    list
}

// ---------------------------------------------------------------------------
// Paths.
// ---------------------------------------------------------------------------

/// The Hyprland configuration directory of a home directory.
pub open spec fn config_dir_of(home: Seq<char>) -> Seq<char> {
    home + "/.config/hypr"@
}

/// Where the keybinds are stored as JSON.
pub fn json_path(home: &str) -> (p: String)
    ensures
        p@ == config_dir_of(home@) + "/zenith-keybinds.json"@,
{
    let mut p = copy_str(home);
    p.append("/.config/hypr");
    p.append("/zenith-keybinds.json");
    p
}

/// Where the generated Hyprland `.conf` with the binds is written.
pub fn conf_path(home: &str) -> (p: String)
    ensures
        p@ == config_dir_of(home@) + "/zenith-keybinds.conf"@,
{
    let mut p = copy_str(home);
    p.append("/.config/hypr");
    p.append("/zenith-keybinds.conf");
    p
}

// ---------------------------------------------------------------------------
// Hyprland dispatchers.
// ---------------------------------------------------------------------------

/// The dispatcher of a bind id that has no fixed command: workspace and
/// focus/move ids carry their argument in the id; a few window actions map
/// to a dispatcher; anything else does nothing (`pass`).
pub open spec fn default_dispatch_of(id: Seq<char>) -> Seq<char> {
    if is_prefix("move_to_workspace_"@, id) {
        "movetoworkspacesilent, "@ + id.skip("move_to_workspace_"@.len() as int)
    } else if is_prefix("workspace_"@, id) {
        "workspace, "@ + id.skip("workspace_"@.len() as int)
    } else if is_prefix("focus_"@, id) {
        "movefocus, "@ + id.skip("focus_"@.len() as int)
    } else if is_prefix("move_"@, id) {
        "movewindow, "@ + id.skip("move_"@.len() as int)
    } else if id == "toggle_floating"@ {
        "togglefloating"@
    } else if id == "toggle_fullscreen"@ {
        "fullscreen"@
    } else if id == "kill_active"@ {
        "killactive"@
    } else if id == "toggle_group"@ {
        "togglegroup"@
    } else {
        "pass"@
    }
}

/// The Hyprland dispatcher (with arguments) for a bind id.
pub open spec fn dispatch_of(id: Seq<char>) -> Seq<char> {
    if id == "terminal"@ {
        "exec, kitty"@
    } else if id == "launcher"@ {
        "exec, rofi -show drun"@
    } else if id == "filemanager"@ {
        "exec, dolphin"@
    } else if id == "lock"@ {
        "exec, hyprlock"@
    } else if id == "control_center"@ {
        "exec, zenith"@
    } else if id == "volume_up"@ {
        "exec, wpctl set-volume @DEFAULT_AUDIO_SINK@ 5%+"@
    } else if id == "volume_down"@ {
        "exec, wpctl set-volume @DEFAULT_AUDIO_SINK@ 5%-"@
    } else if id == "volume_mute"@ {
        "exec, wpctl set-mute @DEFAULT_AUDIO_SINK@ toggle"@
    } else if id == "brightness_up"@ {
        "exec, brightnessctl set +5%"@
    } else if id == "brightness_down"@ {
        "exec, brightnessctl set 5%-"@
    } else if id == "media_play_pause"@ {
        "exec, playerctl play-pause"@
    } else if id == "media_next"@ {
        "exec, playerctl next"@
    } else if id == "media_prev"@ {
        "exec, playerctl previous"@
    } else if id == "screenshot"@ {
        "exec, grimblast save active"@
    } else if id == "screenshot_region"@ {
        "exec, grimblast save area"@
    } else {
        default_dispatch_of(id)
    }
}

fn prefixed(head: &str, rest: String) -> (out: String)
    ensures
        out@ == head@ + rest@,
{
    let mut out = copy_str(head);
    out.append(rest.as_str());
    out
}

/// The dispatcher for ids without a fixed command.
pub fn default_dispatch(id: &str) -> (out: String)
    ensures
        out@ == default_dispatch_of(id@),
{
    if let Some(n) = strip_prefix(id, "move_to_workspace_") {
        return prefixed("movetoworkspacesilent, ", n);
    }
    if let Some(n) = strip_prefix(id, "workspace_") {
        return prefixed("workspace, ", n);
    }
    if let Some(d) = strip_prefix(id, "focus_") {
        return prefixed("movefocus, ", d);
    }
    if let Some(d) = strip_prefix(id, "move_") {
        return prefixed("movewindow, ", d);
    }
    if str_eq(id, "toggle_floating") {
        copy_str("togglefloating")
    } else if str_eq(id, "toggle_fullscreen") {
        copy_str("fullscreen")
    } else if str_eq(id, "kill_active") {
        copy_str("killactive")
    } else if str_eq(id, "toggle_group") {
        copy_str("togglegroup")
    } else {
        copy_str("pass")
    }
}

/// The Hyprland dispatcher for a keybind id.
pub fn dispatch_for(id: &str) -> (out: String)
    ensures
        out@ == dispatch_of(id@),
{
    if str_eq(id, "terminal") {
        copy_str("exec, kitty")
    } else if str_eq(id, "launcher") {
        copy_str("exec, rofi -show drun")
    } else if str_eq(id, "filemanager") {
        copy_str("exec, dolphin")
    } else if str_eq(id, "lock") {
        copy_str("exec, hyprlock")
    } else if str_eq(id, "control_center") {
        copy_str("exec, zenith")
    } else if str_eq(id, "volume_up") {
        copy_str("exec, wpctl set-volume @DEFAULT_AUDIO_SINK@ 5%+")
    } else if str_eq(id, "volume_down") {
        copy_str("exec, wpctl set-volume @DEFAULT_AUDIO_SINK@ 5%-")
    } else if str_eq(id, "volume_mute") {
        copy_str("exec, wpctl set-mute @DEFAULT_AUDIO_SINK@ toggle")
    } else if str_eq(id, "brightness_up") {
        copy_str("exec, brightnessctl set +5%")
    } else if str_eq(id, "brightness_down") {
        copy_str("exec, brightnessctl set 5%-")
    } else if str_eq(id, "media_play_pause") {
        copy_str("exec, playerctl play-pause")
    } else if str_eq(id, "media_next") {
        copy_str("exec, playerctl next")
    } else if str_eq(id, "media_prev") {
        copy_str("exec, playerctl previous")
    } else if str_eq(id, "screenshot") {
        copy_str("exec, grimblast save active")
    } else if str_eq(id, "screenshot_region") {
        copy_str("exec, grimblast save area")
    } else {
        default_dispatch(id)
    }
}

// ---------------------------------------------------------------------------
// The generated Hyprland file.
// ---------------------------------------------------------------------------

/// The first lines of the generated file.
pub open spec fn conf_header() -> Seq<char> {
    "# Generated by Zenith - wijzig je sneltoetsen via het Control Center.\n"@ + "$mainMod = SUPER\n\n"@
}

/// The `bind = ...` line of a keybind; binds without keys give no line.
pub open spec fn conf_line(b: KeybindView) -> Seq<char> {
    if b.keys.len() == 0 {
        Seq::empty()
    } else {
        let mods = join(modifiers_of(b.keys), ", "@);
        let keys = if mods.len() == 0 {
            key_of(b.keys)
        } else {
            mods + ", "@ + key_of(b.keys)
        };
        "bind = "@ + keys + ", "@ + dispatch_of(b.id) + "\n"@
    }
}

pub open spec fn conf_lines(bs: Seq<KeybindView>) -> Seq<char>
    decreases bs.len(),
{
    if bs.len() == 0 {
        Seq::empty()
    } else {
        conf_lines(bs.drop_last()) + conf_line(bs.last())
    }
}

/// The whole `.conf` text for a list of keybinds.
pub open spec fn conf_contents(bs: Seq<KeybindView>) -> Seq<char> {
    conf_header() + conf_lines(bs)
}

fn push_conf_line(out: &mut String, b: &Keybind)
    ensures
        final(out)@ == old(out)@ + conf_line(b@),
{
    if b.keys.len() == 0 {
        proof {
            assert(out@ =~= out@ + Seq::<char>::empty());
        }
        return;
    }
    let mods = b.modifiers();
    let mods_str = join_strings(&mods, ", ");
    let key = b.key();
    out.append("bind = ");
    if mods_str.unicode_len() == 0 {
        out.append(key.as_str());
    } else {
        out.append(mods_str.as_str());
        out.append(", ");
        out.append(key.as_str());
    }
    out.append(", ");
    let d = dispatch_for(b.id.as_str());
    out.append(d.as_str());
    out.append("\n");
    proof {
        assert(out@ =~= old(out)@ + conf_line(b@));
    }
}

/// Builds the whole `.conf` text for a list of keybinds.
pub fn build_conf_contents(binds: &[Keybind]) -> (out: String)
    ensures
        out@ == conf_contents(binds@.map_values(|b: Keybind| b@)),
{
    let mut out = String::new();
    out.append("# Generated by Zenith - wijzig je sneltoetsen via het Control Center.\n");
    out.append("$mainMod = SUPER\n\n");
    let mut i: usize = 0;
    while i < binds.len()
        invariant
            i <= binds@.len(),
            out@ == conf_header() + conf_lines(binds@.take(i as int).map_values(|b: Keybind| b@)),
        decreases binds.len() - i,
    {
        push_conf_line(&mut out, &binds[i]);
        proof {
            let t = binds@.take(i + 1).map_values(|b: Keybind| b@);
            assert(t.drop_last() =~= binds@.take(i as int).map_values(|b: Keybind| b@));
        }
        i = i + 1;
    }
    proof {
        assert(binds@.take(binds@.len() as int) =~= binds@);
    }
    out
}

// ---------------------------------------------------------------------------
// Sourcing the generated file from hyprland.conf.
// ---------------------------------------------------------------------------

/// The line that sources the generated file.
pub open spec fn source_line() -> Seq<char> {
    "source = ~/.config/hypr/zenith-keybinds.conf"@
}

/// The index of the first line that contains `pat`, or the number of lines.
pub open spec fn first_line_with(lines: Seq<Seq<char>>, pat: Seq<char>, from: int) -> int
    decreases lines.len() - from,
{
    if from < 0 || from >= lines.len() {
        lines.len() as int
    } else if contains_seq(lines[from], pat) {
        from
    } else {
        first_line_with(lines, pat, from + 1)
    }
}

/// What `hyprland.conf` becomes: unchanged (`None`) when a line already holds
/// the source line; otherwise the source line is inserted before the first
/// line with the marker `# Injected by Zenith`, or appended as the last line.
pub open spec fn sourced_conf(content: Seq<char>) -> Option<Seq<char>> {
    let lines = split_char(content, '\n');
    if exists|i: int| 0 <= i < lines.len() && contains_seq(#[trigger] lines[i], source_line()) {
        None
    } else {
        let at = first_line_with(lines, "# Injected by Zenith"@, 0);
        Some(join(lines.take(at) + seq![source_line()] + lines.skip(at), "\n"@))
    }
}

proof fn lemma_first_line_with_bounds(lines: Seq<Seq<char>>, pat: Seq<char>, from: int)
    requires
        0 <= from <= lines.len(),
    ensures
        from <= first_line_with(lines, pat, from) <= lines.len(),
        first_line_with(lines, pat, from) < lines.len() ==> contains_seq(lines[first_line_with(lines, pat, from)], pat),
        forall|k: int| from <= k < first_line_with(lines, pat, from) ==> !contains_seq(#[trigger] lines[k], pat),
    decreases lines.len() - from,
{
    if from < lines.len() && !contains_seq(lines[from], pat) {
        lemma_first_line_with_bounds(lines, pat, from + 1);
    }
}

/// Inserts the source line into `hyprland.conf` text when it is missing.
pub fn source_keybinds(content: &str) -> (r: Option<String>)
    ensures
        match r {
            Some(t) => sourced_conf(content@) == Some(t@),
            None => sourced_conf(content@).is_none(),
        },
{
    let lines = split_at_char(content, '\n');
    let ghost ls = views(lines@);
    let mut i: usize = 0;
    while i < lines.len()
        invariant
            ls == views(lines@),
            ls == split_char(content@, '\n'),
            i <= lines@.len(),
            forall|k: int| 0 <= k < i ==> !contains_seq(#[trigger] ls[k], source_line()),
        decreases lines.len() - i,
    {
        if contains(lines[i].as_str(), "source = ~/.config/hypr/zenith-keybinds.conf") {
            proof {
                assert(contains_seq(ls[i as int], source_line()));
            }
            return None;
        }
        i = i + 1;
    }
    let mut at: usize = lines.len();
    let mut j: usize = 0;
    while j < at
        invariant
            ls == views(lines@),
            j <= at <= lines@.len(),
            at < lines@.len() ==> at == j && contains_seq(ls[at as int], "# Injected by Zenith"@),
            forall|k: int| 0 <= k < j ==> !contains_seq(#[trigger] ls[k], "# Injected by Zenith"@),
        decreases at - j,
    {
        if contains(lines[j].as_str(), "# Injected by Zenith") {
            at = j;
        } else {
            j = j + 1;
        }
    }
    proof {
        lemma_first_line_with_bounds(ls, "# Injected by Zenith"@, 0);
        let f = first_line_with(ls, "# Injected by Zenith"@, 0);
        if f < at {
            assert(contains_seq(ls[f], "# Injected by Zenith"@));
        }
        if at < f {
            assert(!contains_seq(ls[at as int], "# Injected by Zenith"@));
        }
    }
    let mut new_lines: Vec<String> = Vec::new();
    let mut k: usize = 0;
    while k < at
        invariant
            ls == views(lines@),
            at <= lines@.len(),
            k <= at,
            views(new_lines@) == ls.take(k as int),
        decreases at - k,
    {
        let ghost before = new_lines@;
        let line = lines[k].clone();
        new_lines.push(line);
        proof {
            assert(line@ == ls[k as int]);
            assert(new_lines@ == before.push(line));
            assert(views(new_lines@) =~= views(before).push(line@));
            assert(views(new_lines@) =~= ls.take(k + 1));
        }
        k = k + 1;
    }
    new_lines.push(copy_str("source = ~/.config/hypr/zenith-keybinds.conf"));
    let mut k2: usize = at;
    proof {
        assert(views(new_lines@) =~= ls.take(at as int) + seq![source_line()] + ls.skip(at as int).take(0));
    }
    while k2 < lines.len()
        invariant
            ls == views(lines@),
            at <= k2 <= lines@.len(),
            views(new_lines@) == ls.take(at as int) + seq![source_line()] + ls.skip(at as int).take(k2 - at),
        decreases lines.len() - k2,
    {
        let ghost before = new_lines@;
        let line = lines[k2].clone();
        new_lines.push(line);
        proof {
            assert(line@ == ls[k2 as int]);
            assert(new_lines@ == before.push(line));
            assert(views(new_lines@) =~= views(before).push(line@));
            assert(ls.skip(at as int).take(k2 + 1 - at) =~= ls.skip(at as int).take(k2 - at).push(ls[k2 as int]));
            assert(views(new_lines@) =~= ls.take(at as int) + seq![source_line()] + ls.skip(at as int).take(k2 + 1 - at));
        }
        k2 = k2 + 1;
    }
    proof {
        assert(ls.skip(at as int).take(lines@.len() - at) =~= ls.skip(at as int));
    }
    Some(join_strings(&new_lines, "\n"))
}

/// What keeping the keybinds installed writes: the generated file when it does
/// not exist yet (from the default set), and `hyprland.conf` with the source
/// line when that file exists and lacks it.
pub fn ensure_installed(conf_exists: bool, hypr_conf: Option<&str>) -> (r: (Option<String>, Option<String>))
    ensures
        match r.0 {
            Some(c) => !conf_exists && c@ == conf_contents(default_bind_table()),
            None => conf_exists,
        },
        match hypr_conf {
            Some(h) => match r.1 {
                Some(t) => sourced_conf(h@) == Some(t@),
                None => sourced_conf(h@).is_none(),
            },
            None => r.1.is_none(),
        },
{
    let conf = if conf_exists {
        None
    } else {
        let binds = default_keybinds();
        let c = build_conf_contents(binds.as_slice());
        proof {
            assert(binds@.map_values(|b: Keybind| b@) =~= bind_views(binds@));
        }
        Some(c)
    };
    let hypr = match hypr_conf {
        Some(h) => source_keybinds(h),
        None => None,
    };
    (conf, hypr)
}

// ---------------------------------------------------------------------------
// Key combinations as the editor shows them.
// ---------------------------------------------------------------------------

/// The keys of a bind as one editable text: separated by single spaces.
pub fn key_combo_text(keys: &Vec<String>) -> (out: String)
    ensures
        out@ == join(views(keys@), seq![' ']),
{
    proof {
        reveal_strlit(" ");
    }
    let out = join_strings(keys, " ");
    proof {
        assert(" "@ =~= seq![' ']);
    }
    out
}

/// The keys typed in the editor: its white-space separated words.
pub fn parse_key_combo(text: &str) -> (keys: Vec<String>)
    ensures
        views(keys@) == words(text@),
{
    split_words(text)
}


/// The groups of a list of binds in the order they first appear, each once.
pub open spec fn groups_in_order(groups: Seq<Seq<char>>) -> Seq<Seq<char>>
    decreases groups.len(),
{
    if groups.len() == 0 {
        Seq::empty()
    } else {
        let before = groups_in_order(groups.drop_last());
        if before.contains(groups.last()) {
            before
        } else {
            before.push(groups.last())
        }
    }
}

/// The groups of a list of binds.
pub open spec fn groups_of(binds: Seq<Keybind>) -> Seq<Seq<char>> {
    binds.map_values(|k: Keybind| k.group@)
}

/// The groups the editor makes a section for, in the order they first
/// appear among the binds.
pub fn group_order(binds: &Vec<Keybind>) -> (r: Vec<String>)
    ensures
        views(r@) == groups_in_order(groups_of(binds@)),
{
    let ghost gs = groups_of(binds@);
    let mut out: Vec<String> = Vec::new();
    let mut i: usize = 0;
    while i < binds.len()
        invariant
            i <= binds@.len(),
            gs == groups_of(binds@),
            views(out@) == groups_in_order(gs.take(i as int)),
        decreases binds.len() - i,
    {
        let g = &binds[i].group;
        proof {
            assert(gs.take(i + 1).drop_last() =~= gs.take(i as int));
            assert(gs.take(i + 1).last() == g@);
        }
        if !crate::editing::holds_name(&out, g.as_str()) {
            let ghost before = views(out@);
            out.push(copy_str(g.as_str()));
            proof {
                assert(views(out@) =~= before.push(g@));
            }
        }
        i = i + 1;
    }
    proof {
        assert(gs.take(gs.len() as int) =~= gs);
    }
    out
}

/// Every group is listed once, and a group is listed exactly when some bind
/// has it.
pub proof fn law_group_order(groups: Seq<Seq<char>>)
    ensures
        groups_in_order(groups).no_duplicates(),
        forall|g: Seq<char>| groups_in_order(groups).contains(g) <==> groups.contains(g),
    decreases groups.len(),
{
    if groups.len() > 0 {
        let rest = groups.drop_last();
        let x = groups.last();
        law_group_order(rest);
        let before = groups_in_order(rest);
        assert forall|g: Seq<char>| groups_in_order(groups).contains(g) <==> groups.contains(g) by {
            let out = groups_in_order(groups);
            if groups.contains(g) {
                let k = choose|k: int| 0 <= k < groups.len() && groups[k] == g;
                if k < groups.len() - 1 {
                    assert(rest[k] == g);
                    assert(rest.contains(g));
                    assert(before.contains(g));
                    let m = choose|m: int| 0 <= m < before.len() && before[m] == g;
                    if !before.contains(x) {
                        assert(before.push(x)[m] == g);
                    }
                    assert(out.contains(g));
                } else {
                    assert(g == x);
                    if !before.contains(x) {
                        assert(before.push(x)[before.len() as int] == x);
                    }
                    assert(out.contains(g));
                }
            }
            if out.contains(g) {
                let m = choose|m: int| 0 <= m < out.len() && out[m] == g;
                if m < before.len() {
                    assert(before[m] == g);
                    assert(before.contains(g));
                    assert(rest.contains(g));
                    let k = choose|k: int| 0 <= k < rest.len() && rest[k] == g;
                    assert(groups[k] == g);
                } else {
                    assert(g == x);
                    assert(groups[groups.len() - 1] == g);
                }
            }
        }
        if !before.contains(x) {
            let t = before.push(x);
            assert forall|i: int, j: int| 0 <= i < t.len() && 0 <= j < t.len() && i != j implies #[trigger] t[i]
                != #[trigger] t[j] by {
                if i == before.len() {
                    assert(before.contains(t[j]));
                } else if j == before.len() {
                    assert(before.contains(t[i]));
                }
            }
        }
    }
}

/// The group a section is titled by: one of the six standard groups, and
/// `Basis` for any other.
pub fn section_group(group: &str) -> (r: &'static str)
    ensures
        r@ == (if group@ == "Focus"@ || group@ == "Venster"@ || group@ == "Werkruimten"@ || group@
            == "Multimedia"@ || group@ == "Screenshots"@ {
            group@
        } else {
            "Basis"@
        }),
{
    if str_eq(group, "Focus") {
        "Focus"
    } else if str_eq(group, "Venster") {
        "Venster"
    } else if str_eq(group, "Werkruimten") {
        "Werkruimten"
    } else if str_eq(group, "Multimedia") {
        "Multimedia"
    } else if str_eq(group, "Screenshots") {
        "Screenshots"
    } else {
        "Basis"
    }
}

/// The text the editor shows again for a shortcut after a reset: the keys,
/// separated by spaces, of the last bind with that id, if any.
pub open spec fn combo_text_for(binds: Seq<KeybindView>, id: Seq<char>) -> Option<Seq<char>>
    decreases binds.len(),
{
    if binds.len() == 0 {
        None
    } else if binds.last().id == id {
        Some(join(binds.last().keys, seq![' ']))
    } else {
        combo_text_for(binds.drop_last(), id)
    }
}

/// The text the editor shows again for a shortcut after a reset.
pub fn combo_for(binds: &Vec<Keybind>, id: &str) -> (r: Option<String>)
    ensures
        match r {
            Some(t) => combo_text_for(bind_views(binds@), id@) == Some(t@),
            None => combo_text_for(bind_views(binds@), id@) is None,
        },
{
    let ghost bs = bind_views(binds@);
    proof {
        assert(bs.take(bs.len() as int) =~= bs);
    }
    let mut i: usize = binds.len();
    while i > 0
        invariant
            i <= binds@.len(),
            bs == bind_views(binds@),
            combo_text_for(bs, id@) == combo_text_for(bs.take(i as int), id@),
        decreases i,
    {
        proof {
            assert(bs.take(i as int).drop_last() =~= bs.take(i - 1));
            assert(bs.take(i as int).last() == binds@[i - 1]@);
        }
        if str_eq(binds[i - 1].id.as_str(), id) {
            return Some(key_combo_text(&binds[i - 1].keys));
        }
        i = i - 1;
    }
    proof {
        assert(bs.take(0).len() == 0);
    }
    None
}


/// Sourcing the generated file is done once: once the source line has been
/// inserted, the file holds it and is left alone.
pub proof fn law_source_line_added_once(content: Seq<char>)
    requires
        sourced_conf(content) is Some,
    ensures
        sourced_conf(sourced_conf(content)->0) is None,
{
    reveal_strlit("\n");
    reveal_strlit("source = ~/.config/hypr/zenith-keybinds.conf");
    let lines = split_char(content, '\n');
    crate::text::lemma_split_pieces(content, '\n', Seq::empty());
    lemma_first_line_with_bounds(lines, "# Injected by Zenith"@, 0);
    let at = first_line_with(lines, "# Injected by Zenith"@, 0);
    let new_lines = lines.take(at) + seq![source_line()] + lines.skip(at);
    assert forall|k: int| 0 <= k < new_lines.len() implies !(#[trigger] new_lines[k]).contains('\n') by {
        if k < at {
            assert(new_lines[k] == lines[k]);
        } else if k == at {
            assert(new_lines[k] == source_line());
            if source_line().contains('\n') {
                let m = choose|m: int| 0 <= m < source_line().len() && source_line()[m] == '\n';
                assert(false);
            }
        } else {
            assert(new_lines[k] == lines[k - 1]);
        }
    }
    assert("\n"@ =~= seq!['\n']);
    crate::text::law_join_then_split(new_lines, '\n');
    let out = join(new_lines, "\n"@);
    assert(sourced_conf(content) == Some(out));
    assert(split_char(out, '\n') == new_lines);
    assert(new_lines[at] == source_line());
    assert(source_line().subrange(0, source_line().len() as int) =~= source_line());
    assert(contains_seq(new_lines[at], source_line())) by {
        assert(occurs_at(source_line(), source_line(), 0));
    }
}


/// The keybinds to use: those read from the saved file when there are any,
/// else the default set.
pub fn keybinds_or_default(loaded: Option<Vec<Keybind>>) -> (r: Vec<Keybind>)
    ensures
        match loaded {
            Some(b) => if b@.len() > 0 {
                r@ == b@
            } else {
                bind_views(r@) == default_bind_table()
            },
            None => bind_views(r@) == default_bind_table(),
        },
{
    match loaded {
        Some(b) => {
            if b.len() > 0 {
                b
            } else {
                default_keybinds()
            }
        },
        None => default_keybinds(),
    }
}

// ---------------------------------------------------------------------------
// What the default table promises.
// ---------------------------------------------------------------------------

/// The six groups the default binds are sorted into.
pub open spec fn is_default_group(g: Seq<char>) -> bool {
    ||| g == "Basis"@
    ||| g == "Focus"@
    ||| g == "Werkruimten"@
    ||| g == "Venster"@
    ||| g == "Multimedia"@
    ||| g == "Screenshots"@
}

/// An id reaches the `pass` dispatcher only when it is none of the ids with a
/// fixed command or a window action, and has none of the argument prefixes.
proof fn lemma_pass_only_for_unknown(id: Seq<char>)
    ensures
        dispatch_of(id) == "pass"@ ==> {
            &&& id != "terminal"@
            &&& id != "launcher"@
            &&& id != "filemanager"@
            &&& id != "lock"@
            &&& id != "control_center"@
            &&& id != "volume_up"@
            &&& id != "volume_down"@
            &&& id != "volume_mute"@
            &&& id != "brightness_up"@
            &&& id != "brightness_down"@
            &&& id != "media_play_pause"@
            &&& id != "media_next"@
            &&& id != "media_prev"@
            &&& id != "screenshot"@
            &&& id != "screenshot_region"@
            &&& id != "toggle_floating"@
            &&& id != "toggle_fullscreen"@
            &&& id != "kill_active"@
            &&& id != "toggle_group"@
            &&& !is_prefix("move_to_workspace_"@, id)
            &&& !is_prefix("workspace_"@, id)
            &&& !is_prefix("focus_"@, id)
            &&& !is_prefix("move_"@, id)
        },
{
    reveal_strlit("pass");
    reveal_strlit("exec, kitty");
    reveal_strlit("exec, rofi -show drun");
    reveal_strlit("exec, dolphin");
    reveal_strlit("exec, hyprlock");
    reveal_strlit("exec, zenith");
    reveal_strlit("exec, wpctl set-volume @DEFAULT_AUDIO_SINK@ 5%+");
    reveal_strlit("exec, wpctl set-volume @DEFAULT_AUDIO_SINK@ 5%-");
    reveal_strlit("exec, wpctl set-mute @DEFAULT_AUDIO_SINK@ toggle");
    reveal_strlit("exec, brightnessctl set +5%");
    reveal_strlit("exec, brightnessctl set 5%-");
    reveal_strlit("exec, playerctl play-pause");
    reveal_strlit("exec, playerctl next");
    reveal_strlit("exec, playerctl previous");
    reveal_strlit("exec, grimblast save active");
    reveal_strlit("exec, grimblast save area");
    reveal_strlit("togglefloating");
    reveal_strlit("fullscreen");
    reveal_strlit("killactive");
    reveal_strlit("togglegroup");
    reveal_strlit("movetoworkspacesilent, ");
    reveal_strlit("workspace, ");
    reveal_strlit("movefocus, ");
    reveal_strlit("movewindow, ");
    assert("pass"@.len() == 4);
    assert("exec, kitty"@.len() == 11);
    assert("exec, rofi -show drun"@.len() == 21);
    assert("exec, dolphin"@.len() == 13);
    assert("exec, hyprlock"@.len() == 14);
    assert("exec, zenith"@.len() == 12);
    assert("exec, wpctl set-volume @DEFAULT_AUDIO_SINK@ 5%+"@.len() == 47);
    assert("exec, wpctl set-volume @DEFAULT_AUDIO_SINK@ 5%-"@.len() == 47);
    assert("exec, wpctl set-mute @DEFAULT_AUDIO_SINK@ toggle"@.len() == 48);
    assert("exec, brightnessctl set +5%"@.len() == 27);
    assert("exec, brightnessctl set 5%-"@.len() == 27);
    assert("exec, playerctl play-pause"@.len() == 26);
    assert("exec, playerctl next"@.len() == 20);
    assert("exec, playerctl previous"@.len() == 24);
    assert("exec, grimblast save active"@.len() == 27);
    assert("exec, grimblast save area"@.len() == 25);
    assert("togglefloating"@.len() == 14);
    assert("fullscreen"@.len() == 10);
    assert("killactive"@.len() == 10);
    assert("togglegroup"@.len() == 11);
    assert("movetoworkspacesilent, "@.len() == 23);
    assert("workspace, "@.len() == 11);
    assert("movefocus, "@.len() == 11);
    assert("movewindow, "@.len() == 12);
    if is_prefix("move_to_workspace_"@, id) {
        assert(("movetoworkspacesilent, "@ + id.skip(18)).len() > 4);
    } else if is_prefix("workspace_"@, id) {
        assert(("workspace, "@ + id.skip(10)).len() > 4);
    } else if is_prefix("focus_"@, id) {
        assert(("movefocus, "@ + id.skip(6)).len() > 4);
    } else if is_prefix("move_"@, id) {
        assert(("movewindow, "@ + id.skip(5)).len() > 4);
    }
}

/// Length, first, last and middle character of an id.
spec fn id_sig(id: Seq<char>) -> (int, char, char, char) {
    (id.len() as int, id[0], id[id.len() - 1], id[(id.len() / 2) as int])
}

/// The position of an id in the default table, told by its signature.
spec fn default_position(id: Seq<char>) -> int {
    let k = id_sig(id);
    if k == (8int, 't', 'l', 'i') {
        0
    } else if k == (8int, 'l', 'r', 'c') {
        1
    } else if k == (11int, 'f', 'r', 'a') {
        2
    } else if k == (4int, 'l', 'k', 'c') {
        3
    } else if k == (14int, 'c', 'r', '_') {
        4
    } else if k == (10int, 'f', 't', '_') {
        5
    } else if k == (11int, 'f', 't', '_') {
        6
    } else if k == (8int, 'f', 'p', 's') {
        7
    } else if k == (10int, 'f', 'n', '_') {
        8
    } else if k == (9int, 'm', 't', '_') {
        9
    } else if k == (10int, 'm', 't', 'r') {
        10
    } else if k == (7int, 'm', 'p', 'e') {
        11
    } else if k == (9int, 'm', 'n', '_') {
        12
    } else if k == (11int, 'w', '1', 'p') {
        13
    } else if k == (11int, 'w', '2', 'p') {
        14
    } else if k == (11int, 'w', '3', 'p') {
        15
    } else if k == (11int, 'w', '4', 'p') {
        16
    } else if k == (11int, 'w', '5', 'p') {
        17
    } else if k == (11int, 'w', '6', 'p') {
        18
    } else if k == (11int, 'w', '7', 'p') {
        19
    } else if k == (11int, 'w', '8', 'p') {
        20
    } else if k == (11int, 'w', '9', 'p') {
        21
    } else if k == (19int, 'm', '1', 'o') {
        22
    } else if k == (19int, 'm', '2', 'o') {
        23
    } else if k == (19int, 'm', '3', 'o') {
        24
    } else if k == (19int, 'm', '4', 'o') {
        25
    } else if k == (19int, 'm', '5', 'o') {
        26
    } else if k == (19int, 'm', '6', 'o') {
        27
    } else if k == (19int, 'm', '7', 'o') {
        28
    } else if k == (19int, 'm', '8', 'o') {
        29
    } else if k == (19int, 'm', '9', 'o') {
        30
    } else if k == (15int, 't', 'g', 'f') {
        31
    } else if k == (17int, 't', 'n', 'u') {
        32
    } else if k == (11int, 'k', 'e', 'a') {
        33
    } else if k == (12int, 't', 'p', '_') {
        34
    } else if k == (9int, 'v', 'p', 'm') {
        35
    } else if k == (11int, 'v', 'n', 'e') {
        36
    } else if k == (11int, 'v', 'e', 'e') {
        37
    } else if k == (13int, 'b', 'p', 'n') {
        38
    } else if k == (15int, 'b', 'n', 'e') {
        39
    } else if k == (16int, 'm', 'e', 'a') {
        40
    } else if k == (10int, 'm', 't', '_') {
        41
    } else if k == (10int, 'm', 'v', '_') {
        42
    } else if k == (10int, 's', 't', 'n') {
        43
    } else if k == (17int, 's', 'n', 'o') {
        44
    } else {
        -1
    }
}

/// What every entry of the default table satisfies, at position `pos`.
spec fn entry_ok(b: KeybindView, pos: int) -> bool {
    &&& default_position(b.id) == pos
    &&& b.keys.len() > 0
    &&& is_default_group(b.group)
    &&& dispatch_of(b.id) != "pass"@
}

proof fn lemma_basis_entries(k: int)
    requires
        0 <= k < 5,
    ensures
        entry_ok(default_basis_binds()[k], k),
{
    lemma_pass_only_for_unknown(default_basis_binds()[k].id);
    if k == 0 {
        reveal_strlit("terminal");
        assert(default_basis_binds()[k].id == "terminal"@);
    } else if k == 1 {
        reveal_strlit("launcher");
        assert(default_basis_binds()[k].id == "launcher"@);
    } else if k == 2 {
        reveal_strlit("filemanager");
        assert(default_basis_binds()[k].id == "filemanager"@);
    } else if k == 3 {
        reveal_strlit("lock");
        assert(default_basis_binds()[k].id == "lock"@);
    } else if k == 4 {
        reveal_strlit("control_center");
        assert(default_basis_binds()[k].id == "control_center"@);
    }
}

proof fn lemma_focus_entries(k: int)
    requires
        0 <= k < 8,
    ensures
        entry_ok(default_focus_binds()[k], 5 + k),
{
    lemma_pass_only_for_unknown(default_focus_binds()[k].id);
    if k == 0 {
        reveal_strlit("focus_left");
        assert(default_focus_binds()[k].id == "focus_left"@);
        reveal_strlit("focus_");
        assert("focus_left"@.take(6) =~= "focus_"@);
    } else if k == 1 {
        reveal_strlit("focus_right");
        assert(default_focus_binds()[k].id == "focus_right"@);
        reveal_strlit("focus_");
        assert("focus_right"@.take(6) =~= "focus_"@);
    } else if k == 2 {
        reveal_strlit("focus_up");
        assert(default_focus_binds()[k].id == "focus_up"@);
        reveal_strlit("focus_");
        assert("focus_up"@.take(6) =~= "focus_"@);
    } else if k == 3 {
        reveal_strlit("focus_down");
        assert(default_focus_binds()[k].id == "focus_down"@);
        reveal_strlit("focus_");
        assert("focus_down"@.take(6) =~= "focus_"@);
    } else if k == 4 {
        reveal_strlit("move_left");
        assert(default_focus_binds()[k].id == "move_left"@);
        reveal_strlit("move_");
        assert("move_left"@.take(5) =~= "move_"@);
    } else if k == 5 {
        reveal_strlit("move_right");
        assert(default_focus_binds()[k].id == "move_right"@);
        reveal_strlit("move_");
        assert("move_right"@.take(5) =~= "move_"@);
    } else if k == 6 {
        reveal_strlit("move_up");
        assert(default_focus_binds()[k].id == "move_up"@);
        reveal_strlit("move_");
        assert("move_up"@.take(5) =~= "move_"@);
    } else if k == 7 {
        reveal_strlit("move_down");
        assert(default_focus_binds()[k].id == "move_down"@);
        reveal_strlit("move_");
        assert("move_down"@.take(5) =~= "move_"@);
    }
}

proof fn lemma_workspaces_entries(k: int)
    requires
        0 <= k < 18,
    ensures
        entry_ok(default_workspaces_binds()[k], 13 + k),
{
    lemma_pass_only_for_unknown(default_workspaces_binds()[k].id);
    if k == 0 {
        reveal_strlit("workspace_1");
        assert(default_workspaces_binds()[k].id == "workspace_1"@);
        reveal_strlit("workspace_");
        assert("workspace_1"@.take(10) =~= "workspace_"@);
    } else if k == 1 {
        reveal_strlit("workspace_2");
        assert(default_workspaces_binds()[k].id == "workspace_2"@);
        reveal_strlit("workspace_");
        assert("workspace_2"@.take(10) =~= "workspace_"@);
    } else if k == 2 {
        reveal_strlit("workspace_3");
        assert(default_workspaces_binds()[k].id == "workspace_3"@);
        reveal_strlit("workspace_");
        assert("workspace_3"@.take(10) =~= "workspace_"@);
    } else if k == 3 {
        reveal_strlit("workspace_4");
        assert(default_workspaces_binds()[k].id == "workspace_4"@);
        reveal_strlit("workspace_");
        assert("workspace_4"@.take(10) =~= "workspace_"@);
    } else if k == 4 {
        reveal_strlit("workspace_5");
        assert(default_workspaces_binds()[k].id == "workspace_5"@);
        reveal_strlit("workspace_");
        assert("workspace_5"@.take(10) =~= "workspace_"@);
    } else if k == 5 {
        reveal_strlit("workspace_6");
        assert(default_workspaces_binds()[k].id == "workspace_6"@);
        reveal_strlit("workspace_");
        assert("workspace_6"@.take(10) =~= "workspace_"@);
    } else if k == 6 {
        reveal_strlit("workspace_7");
        assert(default_workspaces_binds()[k].id == "workspace_7"@);
        reveal_strlit("workspace_");
        assert("workspace_7"@.take(10) =~= "workspace_"@);
    } else if k == 7 {
        reveal_strlit("workspace_8");
        assert(default_workspaces_binds()[k].id == "workspace_8"@);
        reveal_strlit("workspace_");
        assert("workspace_8"@.take(10) =~= "workspace_"@);
    } else if k == 8 {
        reveal_strlit("workspace_9");
        assert(default_workspaces_binds()[k].id == "workspace_9"@);
        reveal_strlit("workspace_");
        assert("workspace_9"@.take(10) =~= "workspace_"@);
    } else if k == 9 {
        reveal_strlit("move_to_workspace_1");
        assert(default_workspaces_binds()[k].id == "move_to_workspace_1"@);
        reveal_strlit("move_to_workspace_");
        assert("move_to_workspace_1"@.take(18) =~= "move_to_workspace_"@);
    } else if k == 10 {
        reveal_strlit("move_to_workspace_2");
        assert(default_workspaces_binds()[k].id == "move_to_workspace_2"@);
        reveal_strlit("move_to_workspace_");
        assert("move_to_workspace_2"@.take(18) =~= "move_to_workspace_"@);
    } else if k == 11 {
        reveal_strlit("move_to_workspace_3");
        assert(default_workspaces_binds()[k].id == "move_to_workspace_3"@);
        reveal_strlit("move_to_workspace_");
        assert("move_to_workspace_3"@.take(18) =~= "move_to_workspace_"@);
    } else if k == 12 {
        reveal_strlit("move_to_workspace_4");
        assert(default_workspaces_binds()[k].id == "move_to_workspace_4"@);
        reveal_strlit("move_to_workspace_");
        assert("move_to_workspace_4"@.take(18) =~= "move_to_workspace_"@);
    } else if k == 13 {
        reveal_strlit("move_to_workspace_5");
        assert(default_workspaces_binds()[k].id == "move_to_workspace_5"@);
        reveal_strlit("move_to_workspace_");
        assert("move_to_workspace_5"@.take(18) =~= "move_to_workspace_"@);
    } else if k == 14 {
        reveal_strlit("move_to_workspace_6");
        assert(default_workspaces_binds()[k].id == "move_to_workspace_6"@);
        reveal_strlit("move_to_workspace_");
        assert("move_to_workspace_6"@.take(18) =~= "move_to_workspace_"@);
    } else if k == 15 {
        reveal_strlit("move_to_workspace_7");
        assert(default_workspaces_binds()[k].id == "move_to_workspace_7"@);
        reveal_strlit("move_to_workspace_");
        assert("move_to_workspace_7"@.take(18) =~= "move_to_workspace_"@);
    } else if k == 16 {
        reveal_strlit("move_to_workspace_8");
        assert(default_workspaces_binds()[k].id == "move_to_workspace_8"@);
        reveal_strlit("move_to_workspace_");
        assert("move_to_workspace_8"@.take(18) =~= "move_to_workspace_"@);
    } else if k == 17 {
        reveal_strlit("move_to_workspace_9");
        assert(default_workspaces_binds()[k].id == "move_to_workspace_9"@);
        reveal_strlit("move_to_workspace_");
        assert("move_to_workspace_9"@.take(18) =~= "move_to_workspace_"@);
    }
}

proof fn lemma_window_entries(k: int)
    requires
        0 <= k < 4,
    ensures
        entry_ok(default_window_binds()[k], 31 + k),
{
    lemma_pass_only_for_unknown(default_window_binds()[k].id);
    if k == 0 {
        reveal_strlit("toggle_floating");
        assert(default_window_binds()[k].id == "toggle_floating"@);
    } else if k == 1 {
        reveal_strlit("toggle_fullscreen");
        assert(default_window_binds()[k].id == "toggle_fullscreen"@);
    } else if k == 2 {
        reveal_strlit("kill_active");
        assert(default_window_binds()[k].id == "kill_active"@);
    } else if k == 3 {
        reveal_strlit("toggle_group");
        assert(default_window_binds()[k].id == "toggle_group"@);
    }
}

proof fn lemma_media_entries(k: int)
    requires
        0 <= k < 8,
    ensures
        entry_ok(default_media_binds()[k], 35 + k),
{
    lemma_pass_only_for_unknown(default_media_binds()[k].id);
    if k == 0 {
        reveal_strlit("volume_up");
        assert(default_media_binds()[k].id == "volume_up"@);
    } else if k == 1 {
        reveal_strlit("volume_down");
        assert(default_media_binds()[k].id == "volume_down"@);
    } else if k == 2 {
        reveal_strlit("volume_mute");
        assert(default_media_binds()[k].id == "volume_mute"@);
    } else if k == 3 {
        reveal_strlit("brightness_up");
        assert(default_media_binds()[k].id == "brightness_up"@);
    } else if k == 4 {
        reveal_strlit("brightness_down");
        assert(default_media_binds()[k].id == "brightness_down"@);
    } else if k == 5 {
        reveal_strlit("media_play_pause");
        assert(default_media_binds()[k].id == "media_play_pause"@);
    } else if k == 6 {
        reveal_strlit("media_next");
        assert(default_media_binds()[k].id == "media_next"@);
    } else if k == 7 {
        reveal_strlit("media_prev");
        assert(default_media_binds()[k].id == "media_prev"@);
    }
}

proof fn lemma_screenshots_entries(k: int)
    requires
        0 <= k < 2,
    ensures
        entry_ok(default_screenshots_binds()[k], 43 + k),
{
    lemma_pass_only_for_unknown(default_screenshots_binds()[k].id);
    if k == 0 {
        reveal_strlit("screenshot");
        assert(default_screenshots_binds()[k].id == "screenshot"@);
    } else if k == 1 {
        reveal_strlit("screenshot_region");
        assert(default_screenshots_binds()[k].id == "screenshot_region"@);
    }
}

proof fn lemma_default_entry(i: int)
    requires
        0 <= i < 45,
    ensures
        entry_ok(default_bind_table()[i], i),
{
    let t = default_bind_table();
    if i < 5 {
        assert(t[i] == default_basis_binds()[i]);
        lemma_basis_entries(i);
    } else if i < 13 {
        assert(t[i] == default_focus_binds()[i - 5]);
        lemma_focus_entries(i - 5);
    } else if i < 31 {
        assert(t[i] == default_workspaces_binds()[i - 13]);
        lemma_workspaces_entries(i - 13);
    } else if i < 35 {
        assert(t[i] == default_window_binds()[i - 31]);
        lemma_window_entries(i - 31);
    } else if i < 43 {
        assert(t[i] == default_media_binds()[i - 35]);
        lemma_media_entries(i - 35);
    } else {
        assert(t[i] == default_screenshots_binds()[i - 43]);
        lemma_screenshots_entries(i - 43);
    }
}

/// The default table holds 45 binds with distinct ids; each has at least one
/// key, belongs to one of the six groups, and maps to a real Hyprland
/// dispatcher (never `pass`).
pub proof fn law_default_table_is_sound()
    ensures
        default_bind_table().len() == 45,
        forall|i: int, j: int|
            0 <= i < j < 45 ==> #[trigger] default_bind_table()[i].id != #[trigger] default_bind_table()[j].id,
        forall|i: int|
            0 <= i < 45 ==> {
                let b = #[trigger] default_bind_table()[i];
                &&& b.keys.len() > 0
                &&& is_default_group(b.group)
                &&& dispatch_of(b.id) != "pass"@
            },
{
    assert forall|i: int| 0 <= i < 45 implies entry_ok(#[trigger] default_bind_table()[i], i) by {
        lemma_default_entry(i);
    }
    assert forall|i: int, j: int| 0 <= i < j < 45 implies #[trigger] default_bind_table()[i].id
        != #[trigger] default_bind_table()[j].id by {
        lemma_default_entry(i);
        lemma_default_entry(j);
    }
}

/// The up and down keys of volume and brightness move in opposite
/// directions: volume down is the volume-up command with its `+` turned into
/// a `-`, and brightness up raises (a `+` and no `-`) while brightness down
/// lowers (ending in `-`, with no `+`).
pub proof fn law_up_and_down_keys_oppose()
    ensures
        dispatch_of("volume_up"@).last() == '+',
        dispatch_of("volume_down"@) == dispatch_of("volume_up"@).drop_last().push('-'),
        dispatch_of("brightness_up"@).contains('+'),
        !dispatch_of("brightness_up"@).contains('-'),
        dispatch_of("brightness_down"@).last() == '-',
        !dispatch_of("brightness_down"@).contains('+'),
{
    reveal_strlit("terminal");
    reveal_strlit("launcher");
    reveal_strlit("filemanager");
    reveal_strlit("lock");
    reveal_strlit("control_center");
    reveal_strlit("volume_up");
    reveal_strlit("volume_down");
    reveal_strlit("volume_mute");
    reveal_strlit("brightness_up");
    reveal_strlit("brightness_down");
    reveal_strlit("exec, wpctl set-volume @DEFAULT_AUDIO_SINK@ 5%+");
    reveal_strlit("exec, wpctl set-volume @DEFAULT_AUDIO_SINK@ 5%-");
    reveal_strlit("exec, brightnessctl set +5%");
    reveal_strlit("exec, brightnessctl set 5%-");
    assert("volume_down"@[0] != "filemanager"@[0]);
    assert("terminal"@.len() == 8);
    assert("launcher"@.len() == 8);
    assert("filemanager"@.len() == 11);
    assert("lock"@.len() == 4);
    assert("control_center"@.len() == 14);
    assert("volume_up"@.len() == 9);
    assert("volume_down"@.len() == 11);
    assert("volume_mute"@.len() == 11);
    assert("brightness_up"@.len() == 13);
    assert("brightness_down"@.len() == 15);
    let up = dispatch_of("volume_up"@);
    let down = dispatch_of("volume_down"@);
    assert(up == "exec, wpctl set-volume @DEFAULT_AUDIO_SINK@ 5%+"@);
    assert(down == "exec, wpctl set-volume @DEFAULT_AUDIO_SINK@ 5%-"@);
    assert(down =~= up.drop_last().push('-'));
    let bu = dispatch_of("brightness_up"@);
    let bd = dispatch_of("brightness_down"@);
    assert(bu == "exec, brightnessctl set +5%"@);
    assert(bd == "exec, brightnessctl set 5%-"@);
    assert(bu[24] == '+');
}

} // verus!
