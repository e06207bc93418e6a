use vstd::prelude::*;

use crate::calendar::{civil_from_unix, date_of_day};
use crate::text::{views, dec, dec_signed_padded, digit_char, is_alphanumeric, is_ascii_digit, push_char, push_dec, push_signed_padded, to_chars, unicode_alphanumeric};

verus! {

/// At most this many snapshots are kept; older ones are removed first.
pub const MAX_SNAPSHOTS: usize = 10;

/// Metadata of one snapshot, as the UI shows it.
#[derive(Clone, Debug, PartialEq)]
pub struct BackupInfo {
    /// Name of the snapshot directory (unique, derived from the time stamp).
    pub name: String,
    /// Label chosen by the user.
    pub label: String,
    /// UNIX time (seconds) at which the backup was made.
    pub created_at_unix: i64,
    /// Number of files stored.
    pub file_count: usize,
    /// Total size in bytes.
    pub size_bytes: u64,
}

// ---------------------------------------------------------------------------
// Time stamps.
// ---------------------------------------------------------------------------

/// `YYYY-MM-DD HH:MM` as `{:04}-{:02}-{:02} {:02}:{:02}` prints it.
pub open spec fn timestamp_text(y: int, m: int, d: int, hh: int, mm: int) -> Seq<char> {
    dec_signed_padded(y, 4) + seq!['-'] + dec_signed_padded(m, 2) + seq!['-'] + dec_signed_padded(d, 2)
        + seq![' '] + dec_signed_padded(hh, 2) + seq![':'] + dec_signed_padded(mm, 2)
}

/// Formats a UNIX time stamp as `YYYY-MM-DD HH:MM` (UTC), by arithmetic alone.
pub fn format_timestamp(unix_secs: i64) -> (out: String)
    ensures
        out@ == timestamp_text(
            date_of_day(unix_secs as int / 86400).0,
            date_of_day(unix_secs as int / 86400).1,
            date_of_day(unix_secs as int / 86400).2,
            (unix_secs as int % 86400) / 3600,
            (unix_secs as int % 86400) % 3600 / 60,
        ),
{
    let (y, m, d, hh, mm) = civil_from_unix(unix_secs);
    let mut out = String::new();
    push_signed_padded(&mut out, y, 4);
    push_char(&mut out, '-');
    push_signed_padded(&mut out, m, 2);
    push_char(&mut out, '-');
    push_signed_padded(&mut out, d, 2);
    push_char(&mut out, ' ');
    push_signed_padded(&mut out, hh, 2);
    push_char(&mut out, ':');
    push_signed_padded(&mut out, mm, 2);
    proof {
        assert(out@ =~= timestamp_text(y as int, m as int, d as int, hh as int, mm as int));
    }
    out
}

// ---------------------------------------------------------------------------
// Sizes.
// ---------------------------------------------------------------------------

/// `n / d` rounded to the nearest integer, ties to the even one.
pub open spec fn div_round_even(n: nat, d: nat) -> nat
    recommends
        d > 0,
{
    let q = n / d;
    let r = n % d;
    if 2 * r > d || (2 * r == d && q % 2 == 1) {
        q + 1
    } else {
        q
    }
}

/// The spacing of `f64` values around `b`: the least power of two `u` (from
/// `u` on) such that `b / u` has fewer than 53 bits.
pub open spec fn ulp_from(b: nat, u: nat) -> nat
    recommends
        u > 0,
    decreases b - u,
    when u > 0
{
    if b / u < 9007199254740992 || b < 2 * u {
        u
    } else {
        ulp_from(b, 2 * u)
    }
}

/// The value of `b as f64`: `b` rounded to 53 significant bits, ties to even.
pub open spec fn f64_of(b: nat) -> nat {
    let u = ulp_from(b, 1);
    div_round_even(b, u) * u
}

/// A size in tenths as `{:.1}` prints it.
pub open spec fn tenths_text(t: nat) -> Seq<char> {
    dec(t / 10) + seq!['.', digit_char(t % 10)]
}

/// What `format_size` prints: bytes below 1 KiB, else KiB or MiB with one
/// decimal, as `{:.1}` rounds the `f64` quotient (to nearest, ties to even).
pub open spec fn size_text(bytes: u64) -> Seq<char> {
    if bytes >= 1048576 {
        tenths_text(div_round_even(f64_of(bytes as nat) * 10, 1048576)) + " MB"@
    } else if bytes >= 1024 {
        tenths_text(div_round_even(bytes as nat * 10, 1024)) + " KB"@
    } else {
        dec(bytes as nat) + " B"@
    }
}

fn div_round_even_exec(n: u128, d: u128) -> (r: u128)
    requires
        0 < d <= 0x1_0000_0000_0000_0000,
        n < 0x1_0000_0000_0000_0000_0000_0000_0000,
    ensures
        r == div_round_even(n as nat, d as nat),
{
    let q = n / d;
    let r = n % d;
    if 2 * r > d || (2 * r == d && q % 2 == 1) {
        q + 1
    } else {
        q
    }
}

fn f64_of_exec(b: u64) -> (r: u128)
    ensures
        r == f64_of(b as nat),
        r < 0x2_0000_0000_0000_0000,
{
    let bb = b as u128;
    let mut u: u128 = 1;
    while bb / u >= 9007199254740992 && bb >= 2 * u
        invariant
            1 <= u <= bb + 1,
            bb == b,
            ulp_from(b as nat, u as nat) == ulp_from(b as nat, 1),
        decreases bb - u + 1,
    {
        u = 2 * u;
    }
    let q = div_round_even_exec(bb, u);
    proof {
        assert(q <= bb / u + 1);
        assert(q * u <= bb + u) by (nonlinear_arith)
            requires
                q <= bb / u + 1,
                u > 0,
        {
            assert((bb / u) * u <= bb) by {
                vstd::arithmetic::div_mod::lemma_fundamental_div_mod(bb as int, u as int);
                vstd::arithmetic::div_mod::lemma_mod_bound(bb as int, u as int);
            }
        }
    }
    q * u
}

fn push_tenths(out: &mut String, t: u128)
    requires
        t < 0x1_0000_0000_0000_0000,
    ensures
        final(out)@ == old(out)@ + tenths_text(t as nat),
{
    push_dec(out, (t / 10) as u64);
    push_char(out, '.');
    let c = (48u8 + (t % 10) as u8) as char;
    push_char(out, c);
    proof {
        assert(out@ =~= old(out)@ + tenths_text(t as nat));
    }
}

/// Formats a size in bytes for people: `B`, `KB` or `MB`.
pub fn format_size(bytes: u64) -> (out: String)
    ensures
        out@ == size_text(bytes),
{
    let mut out = String::new();
    if bytes >= 1048576 {
        let v = f64_of_exec(bytes);
        let t = div_round_even_exec(v * 10, 1048576);
        proof {
            assert(t <= v * 10 / 1048576 + 1);
        }
        push_tenths(&mut out, t);
        out.append(" MB");
    } else if bytes >= 1024 {
        let t = div_round_even_exec((bytes as u128) * 10, 1024);
        push_tenths(&mut out, t);
        out.append(" KB");
    } else {
        push_dec(&mut out, bytes);
        out.append(" B");
    }
    out
}

// ---------------------------------------------------------------------------
// Snapshot names.
// ---------------------------------------------------------------------------

/// `char::to_ascii_lowercase`.
pub open spec fn ascii_lower(c: char) -> char {
    if 'A' <= c && c <= 'Z' {
        ((c as u32) + 32) as char
    } else {
        c
    }
}

/// What a label character becomes in a directory name.
pub open spec fn slug_char(c: char) -> Seq<char> {
    if unicode_alphanumeric(c) {
        seq![ascii_lower(c)]
    } else if c == ' ' || c == '-' || c == '_' {
        seq!['-']
    } else {
        Seq::empty()
    }
}

pub open spec fn slug_chars(s: Seq<char>) -> Seq<char>
    decreases s.len(),
{
    if s.len() == 0 {
        Seq::empty()
    } else {
        slug_chars(s.drop_last()) + slug_char(s.last())
    }
}

/// A readable directory name for a label: letters and digits kept (ASCII
/// letters lowercased), space, `-` and `_` turned into `-`, the rest dropped;
/// `backup` when nothing is left.
pub open spec fn slug(s: Seq<char>) -> Seq<char> {
    if slug_chars(s).len() == 0 {
        "backup"@
    } else {
        slug_chars(s)
    }
}

/// Makes a readable directory name from a label.
pub fn slugify(label: &str) -> (out: String)
    ensures
        out@ == slug(label@),
{
    let v = to_chars(label);
    let mut out = String::new();
    let mut i: usize = 0;
    while i < v.len()
        invariant
            v@ == label@,
            i <= v@.len(),
            out@ == slug_chars(label@.take(i as int)),
        decreases v.len() - i,
    {
        let ch = v[i];
        if is_alphanumeric(ch) {
            let lower = if 'A' <= ch && ch <= 'Z' {
                ((ch as u8) + 32) as char
            } else {
                ch
            };
            proof {
                if 'A' <= ch && ch <= 'Z' {
                    assert(lower == ascii_lower(ch));
                }
            }
            push_char(&mut out, lower);
        } else if ch == ' ' || ch == '-' || ch == '_' {
            push_char(&mut out, '-');
        }
        proof {
            assert(label@.take(i + 1).drop_last() =~= label@.take(i as int));
            assert(out@ =~= slug_chars(label@.take(i + 1)));
        }
        i = i + 1;
    }
    proof {
        assert(label@.take(v@.len() as int) =~= label@);
    }
    if out.unicode_len() == 0 {
        let mut b = String::new();
        b.append("backup");
        b
    } else {
        out
    }
}

/// Whether `name` is a plain directory name: not empty, and without `/`,
/// `\` or `.` (so no path and no traversal).
pub open spec fn valid_snapshot_name(name: Seq<char>) -> bool {
    name.len() > 0 && forall|i: int| 0 <= i < name.len() ==> name[i] != '/' && name[i] != '\\' && name[i] != '.'
}

/// `root` joined with a relative path, as `Path::join` does.
pub open spec fn path_join(root: Seq<char>, rel: Seq<char>) -> Seq<char> {
    if root.len() == 0 || root.last() == '/' {
        root + rel
    } else {
        root + seq!['/'] + rel
    }
}

/// Joins `root` and a relative path, as `Path::join` does.
pub fn join_path(root: &str, rel: &str) -> (out: String)
    ensures
        out@ == path_join(root@, rel@),
{
    let v = to_chars(root);
    let mut out = String::new();
    out.append(root);
    if v.len() > 0 && v[v.len() - 1] != '/' {
        push_char(&mut out, '/');
    }
    out.append(rel);
    out
}

/// The directory of snapshot `name` under `root`, or `None` when `name` is
/// not a plain directory name.
pub fn snapshot_path(root: &str, name: &str) -> (r: Option<String>)
    ensures
        match r {
            Some(p) => valid_snapshot_name(name@) && p@ == path_join(root@, name@),
            None => !valid_snapshot_name(name@),
        },
{
    let v = to_chars(name);
    if v.len() == 0 {
        return None;
    }
    let mut i: usize = 0;
    while i < v.len()
        invariant
            v@ == name@,
            i <= v@.len(),
            forall|k: int| 0 <= k < i ==> name@[k] != '/' && name@[k] != '\\' && name@[k] != '.',
        decreases v.len() - i,
    {
        let c = v[i];
        if c == '/' || c == '\\' || c == '.' {
            return None;
        }
        i = i + 1;
    }
    Some(join_path(root, name))
}

/// The directory name of a new snapshot: time stamp, `_`, slug of the label.
pub open spec fn snapshot_dir_name(created: int, label: Seq<char>) -> Seq<char> {
    dec_signed_padded(created, 0) + seq!['_'] + slug(label)
}

/// Names the snapshot directory of a backup made at `created` with `label`.
pub fn snapshot_name(created: i64, label: &str) -> (out: String)
    ensures
        out@ == snapshot_dir_name(created as int, label@),
{
    let mut out = String::new();
    push_signed_padded(&mut out, created, 0);
    push_char(&mut out, '_');
    let s = slugify(label);
    out.append(s.as_str());
    out
}

// ---------------------------------------------------------------------------
// Ordering and pruning the snapshot list.
// ---------------------------------------------------------------------------

/// Newest first: time stamps never increase along the list.
pub open spec fn newest_first(s: Seq<BackupInfo>) -> bool {
    forall|i: int, j: int| 0 <= i < j < s.len() ==> s[i].created_at_unix >= s[j].created_at_unix
}

/// `out` is `orig` reordered by `perm` (`out[k] == orig[perm[k]]`), `perm`
/// being a permutation of the indices of `orig`.
pub open spec fn reordered_by(out: Seq<BackupInfo>, orig: Seq<BackupInfo>, perm: Seq<int>) -> bool {
    &&& out.len() == orig.len()
    &&& perm.len() == out.len()
    &&& forall|k: int| 0 <= k < perm.len() ==> 0 <= #[trigger] perm[k] < orig.len() && out[k] == orig[perm[k]]
    &&& forall|a: int, b: int| 0 <= a < b < perm.len() ==> perm[a] != perm[b]
}

/// Entries with the same time stamp keep their relative order.
pub open spec fn stable_by(out: Seq<BackupInfo>, perm: Seq<int>) -> bool {
    forall|a: int, b: int|
        0 <= a < b < out.len() && out[a].created_at_unix == out[b].created_at_unix ==> perm[a] < perm[b]
}

/// Sorts snapshots newest first; snapshots made in the same second keep their order.
pub fn sort_newest_first(v: &mut Vec<BackupInfo>)
    ensures
        newest_first(final(v)@),
        exists|perm: Seq<int>| reordered_by(final(v)@, old(v)@, perm) && stable_by(final(v)@, perm),
{
    let mut input: Vec<BackupInfo> = Vec::new();
    std::mem::swap(v, &mut input);
    let ghost orig = input@;
    let mut out: Vec<BackupInfo> = Vec::new();
    let ghost mut perm: Seq<int> = Seq::empty();
    let mut i: usize = 0;
    let n = input.len();
    while input.len() > 0
        invariant
            orig.len() == n,
            i <= n,
            input@ == orig.skip(i as int),
            out@.len() == i,
            perm.len() == i,
            newest_first(out@),
            forall|k: int| 0 <= k < i ==> 0 <= #[trigger] perm[k] < i && out@[k] == orig[perm[k]],
            forall|a: int, b: int| 0 <= a < b < i ==> perm[a] != perm[b],
            stable_by(out@, perm),
        decreases input.len(),
    {
        let item = input.remove(0);
        proof {
            assert(item == orig[i as int]);
            assert(input@ =~= orig.skip(i + 1));
        }
        let key = item.created_at_unix;
        let mut p: usize = 0;
        while p < out.len() && out[p].created_at_unix >= key
            invariant
                p <= out@.len(),
                forall|k: int| 0 <= k < p ==> out@[k].created_at_unix >= key,
            decreases out.len() - p,
        {
            p = p + 1;
        }
        let ghost old_out = out@;
        let ghost old_perm = perm;
        out.insert(p, item);
        proof {
            perm = old_perm.insert(p as int, i as int);
            assert(out@ =~= old_out.insert(p as int, item));
            assert forall|k: int| p <= k < old_out.len() implies old_out[k].created_at_unix < key by {
                assert(old_out[p as int].created_at_unix < key);
            }
            assert forall|a: int, b: int| 0 <= a < b < out@.len() implies out@[a].created_at_unix
                >= out@[b].created_at_unix by {
                if b < p {
                } else if b == p {
                } else if a < p {
                } else if a == p {
                } else {
                    assert(out@[a] == old_out[a - 1]);
                    assert(out@[b] == old_out[b - 1]);
                }
            }
            assert forall|k: int| 0 <= k < i + 1 implies 0 <= #[trigger] perm[k] < i + 1 && out@[k] == orig[perm[k]] by {
                if k < p {
                    assert(perm[k] == old_perm[k]);
                } else if k > p {
                    assert(perm[k] == old_perm[k - 1]);
                }
            }
            assert forall|a: int, b: int| 0 <= a < b < i + 1 implies perm[a] != perm[b] by {
                if a < p && b < p {
                } else if a < p && b > p {
                    assert(perm[b] == old_perm[b - 1]);
                } else if a > p {
                    assert(perm[a] == old_perm[a - 1]);
                    assert(perm[b] == old_perm[b - 1]);
                } else if b > p {
                    assert(perm[b] == old_perm[b - 1]);
                }
            }
            assert forall|a: int, b: int|
                0 <= a < b < out@.len() && out@[a].created_at_unix == out@[b].created_at_unix implies perm[a] < perm[b] by {
                if b < p {
                    assert(perm[a] == old_perm[a] && perm[b] == old_perm[b]);
                } else if b == p {
                    assert(perm[a] == old_perm[a]);
                } else if a < p {
                    assert(perm[a] == old_perm[a] && perm[b] == old_perm[b - 1]);
                    assert(old_out[b - 1].created_at_unix < key);
                } else if a == p {
                    assert(old_out[b - 1].created_at_unix < key);
                } else {
                    assert(perm[a] == old_perm[a - 1] && perm[b] == old_perm[b - 1]);
                    assert(out@[a] == old_out[a - 1]);
                    assert(out@[b] == old_out[b - 1]);
                }
            }
        }
        i = i + 1;
    }
    proof {
        assert(reordered_by(out@, orig, perm));
    }
    *v = out;
}

/// Drops the snapshots beyond the newest `keep` from a list sorted newest
/// first, and returns them, oldest first (the order they are removed in).
pub fn keep_newest(v: &mut Vec<BackupInfo>, keep: usize) -> (removed: Vec<BackupInfo>)
    ensures
        old(v)@.len() <= keep ==> final(v)@ == old(v)@ && removed@.len() == 0,
        old(v)@.len() > keep ==> final(v)@ == old(v)@.take(keep as int)
            && removed@ == old(v)@.skip(keep as int).reverse(),
{
    let mut removed: Vec<BackupInfo> = Vec::new();
    while v.len() > keep
        invariant
            old(v)@.len() <= keep ==> v@ == old(v)@ && removed@.len() == 0,
            old(v)@.len() > keep ==> keep <= v@.len() <= old(v)@.len() && v@ == old(v)@.take(v@.len() as int)
                && removed@ == old(v)@.skip(v@.len() as int).reverse(),
        decreases v.len(),
    {
        let ghost before = v@;
        let oldest = v.pop().unwrap();
        proof {
            assert(old(v)@.len() > keep);
            assert(v@ == before.drop_last());
            assert(oldest == before.last());
            assert(before.last() == old(v)@[v@.len() as int]);
            assert(v@ =~= old(v)@.take(v@.len() as int));
            assert(old(v)@.skip(v@.len() as int) =~= seq![oldest] + old(v)@.skip(before.len() as int));
            assert(removed@.push(oldest) =~= old(v)@.skip(v@.len() as int).reverse());
        }
        removed.push(oldest);
    }
    removed
}

/// Drops the snapshots beyond the newest `MAX_SNAPSHOTS` from a list sorted
/// newest first, and returns them, oldest first (the order they are removed in).
pub fn prune_old_snapshots(v: &mut Vec<BackupInfo>) -> (removed: Vec<BackupInfo>)
    ensures
        old(v)@.len() <= MAX_SNAPSHOTS ==> final(v)@ == old(v)@ && removed@.len() == 0,
        old(v)@.len() > MAX_SNAPSHOTS ==> final(v)@ == old(v)@.take(MAX_SNAPSHOTS as int)
            && removed@ == old(v)@.skip(MAX_SNAPSHOTS as int).reverse(),
{
    keep_newest(v, MAX_SNAPSHOTS)
}

/// Makes room for one more snapshot in a list sorted newest first: keeps the
/// newest `MAX_SNAPSHOTS - 1` and returns the rest, oldest first, so that at
/// most `MAX_SNAPSHOTS` remain once the new one is added.
pub fn prune_for_new_snapshot(v: &mut Vec<BackupInfo>) -> (removed: Vec<BackupInfo>)
    ensures
        old(v)@.len() < MAX_SNAPSHOTS ==> final(v)@ == old(v)@ && removed@.len() == 0,
        old(v)@.len() >= MAX_SNAPSHOTS ==> final(v)@ == old(v)@.take(MAX_SNAPSHOTS - 1)
            && removed@ == old(v)@.skip(MAX_SNAPSHOTS - 1).reverse(),
        final(v)@.len() + 1 <= MAX_SNAPSHOTS,
{
    keep_newest(v, MAX_SNAPSHOTS - 1)
}


// ---------------------------------------------------------------------------
// Where backups live and what they hold.
// ---------------------------------------------------------------------------

/// The directory under the home directory that holds one directory per
/// snapshot.
pub fn backups_root(home: &str) -> (r: String)
    ensures
        r@ == path_join(home@, ".local/share/zenith/backups"@),
{
    join_path(home, ".local/share/zenith/backups")
}

/// A configuration file or directory that backups hold.
pub struct ManagedSource {
    /// Where it lives.
    pub source: String,
    /// Where its copy lives inside a snapshot's `config` directory.
    pub rel: String,
}

/// The managed sources: path relative to the home directory, and path
/// inside a snapshot's `config` directory.
pub open spec fn managed_table() -> Seq<(Seq<char>, Seq<char>)> {
    seq![
        (".config/quickshell"@, "quickshell"@),
        (".config/hypr/zenith.conf"@, "hypr/zenith.conf"@),
        (".config/hypr/hyprland.conf"@, "hypr/hyprland.conf"@),
        (".config/hypr/hyprland.lua"@, "hypr/hyprland.lua"@),
        (".config/waybar"@, "waybar"@),
        (".config/kitty/zenith-theme.conf"@, "kitty/zenith-theme.conf"@),
        (".config/rofi/zenith-theme.rasi"@, "rofi/zenith-theme.rasi"@),
    ]
}

pub open spec fn source_views(s: Seq<ManagedSource>) -> Seq<(Seq<char>, Seq<char>)> {
    s.map_values(|m: ManagedSource| (m.source@, m.rel@))
}

fn push_source(list: &mut Vec<ManagedSource>, home: &str, path: &str, rel: &str)
    ensures
        source_views(final(list)@) == source_views(old(list)@).push((path_join(home@, path@), rel@)),
{
    let ghost before = list@;
    list.push(ManagedSource { source: join_path(home, path), rel: crate::text::copy_str(rel) });
    proof {
        assert(source_views(list@) =~= source_views(before).push((path_join(home@, path@), rel@)));
    }
}

/// The configuration that backups hold, for the home directory `home`.
pub fn managed_sources(home: &str) -> (r: Vec<ManagedSource>)
    ensures
        source_views(r@) == managed_table().map_values(
            |e: (Seq<char>, Seq<char>)| (path_join(home@, e.0), e.1),
        ),
{
    let mut r: Vec<ManagedSource> = Vec::new();
    push_source(&mut r, home, ".config/quickshell", "quickshell");
    push_source(&mut r, home, ".config/hypr/zenith.conf", "hypr/zenith.conf");
    push_source(&mut r, home, ".config/hypr/hyprland.conf", "hypr/hyprland.conf");
    push_source(&mut r, home, ".config/hypr/hyprland.lua", "hypr/hyprland.lua");
    push_source(&mut r, home, ".config/waybar", "waybar");
    push_source(&mut r, home, ".config/kitty/zenith-theme.conf", "kitty/zenith-theme.conf");
    push_source(&mut r, home, ".config/rofi/zenith-theme.rasi", "rofi/zenith-theme.rasi");
    proof {
        assert(source_views(r@) =~= managed_table().map_values(
            |e: (Seq<char>, Seq<char>)| (path_join(home@, e.0), e.1),
        ));
    }
    r
}

/// The snapshot `name` under `root` when it is a plain directory name and
/// the snapshot is present (`present`: the directories of `root` that hold a
/// record file); the error the UI shows otherwise.
pub open spec fn located_snapshot(root: Seq<char>, name: Seq<char>, present: Seq<Seq<char>>) -> Result<Seq<char>, Seq<char>> {
    if valid_snapshot_name(name) && present.contains(name) {
        Ok(path_join(root, name))
    } else {
        Err("Back-up niet gevonden"@)
    }
}

fn locate_snapshot(root: &str, name: &str, present: &Vec<String>) -> (r: Result<String, String>)
    ensures
        match r {
            Ok(p) => located_snapshot(root@, name@, views(present@)) == Ok::<Seq<char>, Seq<char>>(p@),
            Err(e) => located_snapshot(root@, name@, views(present@)) == Err::<Seq<char>, Seq<char>>(e@),
        },
{
    match snapshot_path(root, name) {
        Some(p) => {
            if crate::packages::holds(present, name) {
                Ok(p)
            } else {
                Err(crate::text::copy_str("Back-up niet gevonden"))
            }
        },
        None => Err(crate::text::copy_str("Back-up niet gevonden")),
    }
}

/// The directory to remove to delete backup `name`, or the error the UI
/// shows when there is no such backup.
pub fn delete_backup(root: &str, name: &str, present: &Vec<String>) -> (r: Result<String, String>)
    ensures
        match r {
            Ok(p) => located_snapshot(root@, name@, views(present@)) == Ok::<Seq<char>, Seq<char>>(p@),
            Err(e) => located_snapshot(root@, name@, views(present@)) == Err::<Seq<char>, Seq<char>>(e@),
        },
{
    locate_snapshot(root, name, present)
}

/// The `config` directory of backup `name` to restore from, or the error the
/// UI shows when there is no such backup.
pub fn restore_backup(root: &str, name: &str, present: &Vec<String>) -> (r: Result<String, String>)
    ensures
        match r {
            Ok(p) => located_snapshot(root@, name@, views(present@)) matches Ok(s) && p@ == path_join(s, "config"@),
            Err(e) => located_snapshot(root@, name@, views(present@)) == Err::<Seq<char>, Seq<char>>(e@),
        },
{
    match locate_snapshot(root, name, present) {
        Ok(p) => Ok(join_path(p.as_str(), "config")),
        Err(e) => Err(e),
    }
}


/// A character that may stand in a snapshot name.
pub open spec fn name_char(c: char) -> bool {
    c != '/' && c != '\\' && c != '.'
}

proof fn lemma_dec_name_chars(n: nat)
    ensures
        forall|k: int| 0 <= k < dec(n).len() ==> is_ascii_digit(#[trigger] dec(n)[k]),
    decreases n,
{
    if n >= 10 {
        lemma_dec_name_chars(n / 10);
        assert forall|k: int| 0 <= k < dec(n).len() implies is_ascii_digit(#[trigger] dec(n)[k]) by {
            if k < dec(n / 10).len() {
                assert(dec(n)[k] == dec(n / 10)[k]);
            }
        }
    }
}

proof fn lemma_slug_name_chars(s: Seq<char>)
    ensures
        forall|k: int| 0 <= k < slug_chars(s).len() ==> name_char(#[trigger] slug_chars(s)[k]),
    decreases s.len(),
{
    if s.len() > 0 {
        lemma_slug_name_chars(s.drop_last());
        let a = slug_chars(s.drop_last());
        let b = slug_char(s.last());
        assert forall|k: int| 0 <= k < slug_chars(s).len() implies name_char(#[trigger] slug_chars(s)[k]) by {
            if k < a.len() {
                assert(slug_chars(s)[k] == a[k]);
            } else {
                assert(slug_chars(s)[k] == b[k - a.len()]);
            }
        }
    }
}

/// Every snapshot a backup creates has a plain directory name, so deleting
/// and restoring can find it again by that name.
pub proof fn law_snapshot_names_are_plain(created: int, label: Seq<char>)
    ensures
        valid_snapshot_name(snapshot_dir_name(created, label)),
{
    reveal_strlit("backup");
    let head = dec_signed_padded(created, 0);
    let n = snapshot_dir_name(created, label);
    if created < 0 {
        lemma_dec_name_chars((-created) as nat);
        assert(head == seq!['-'] + dec((-created) as nat));
    } else {
        lemma_dec_name_chars(created as nat);
        assert(head == dec(created as nat));
    }
    lemma_slug_name_chars(label);
    let tail = slug(label);
    assert forall|k: int| 0 <= k < n.len() implies n[k] != '/' && n[k] != '\\' && n[k] != '.' by {
        if k < head.len() {
            assert(n[k] == head[k]);
            if created < 0 && k > 0 {
                assert(head[k] == dec((-created) as nat)[k - 1]);
            }
        } else if k == head.len() {
            assert(n[k] == '_');
        } else {
            assert(n[k] == tail[k - head.len() - 1]);
            if slug_chars(label).len() > 0 {
                assert(name_char(slug_chars(label)[k - head.len() - 1]));
            }
        }
    }
}


/// The moment a back-up was made, as `format_timestamp` writes it.
pub open spec fn stamp_text(unix_secs: int) -> Seq<char> {
    timestamp_text(
        date_of_day(unix_secs / 86400).0,
        date_of_day(unix_secs / 86400).1,
        date_of_day(unix_secs / 86400).2,
        (unix_secs % 86400) / 3600,
        (unix_secs % 86400) % 3600 / 60,
    )
}

/// The subtitle of a back-up's row in the list: when it was made, how many
/// files it holds (followed by the word for files) and its size.
pub fn backup_row_subtitle(info: &BackupInfo, files_word: &str) -> (r: String)
    ensures
        r@ == stamp_text(info.created_at_unix as int) + "  •  "@ + dec(info.file_count as nat) + " "@
            + files_word@ + "  •  "@ + size_text(info.size_bytes),
{
    let mut r = format_timestamp(info.created_at_unix);
    r.append("  •  ");
    push_dec(&mut r, info.file_count as u64);
    r.append(" ");
    r.append(files_word);
    r.append("  •  ");
    let size = format_size(info.size_bytes);
    r.append(size.as_str());
    r
}

/// The subtitle of the row that says where back-ups are kept: the folder,
/// and how many are kept (followed by the word for snapshots).
pub fn backup_location_text(dir: &str, snapshots_word: &str) -> (r: String)
    ensures
        r@ == dir@ + "  •  max. "@ + dec(MAX_SNAPSHOTS as nat) + " "@ + snapshots_word@,
{
    let mut r = String::new();
    r.append(dir);
    r.append("  •  max. ");
    push_dec(&mut r, MAX_SNAPSHOTS as u64);
    r.append(" ");
    r.append(snapshots_word);
    r
}

/// The length of the snapshot path of entry `i` of the managed table.
spec fn managed_rel_len(i: int) -> int {
    if i == 0 { 10 } else if i == 1 { 16 } else if i == 2 { 18 } else if i == 3 { 17 } else if i == 4 { 6 } else if i == 5 { 23 } else if i == 6 { 22 } else { 0 }
}

proof fn lemma_managed_entry(i: int)
    requires
        0 <= i < 7,
    ensures
        managed_table()[i].0 == ".config/"@ + managed_table()[i].1,
        managed_table()[i].1.len() == managed_rel_len(i),
{
    let t = managed_table();
    reveal_strlit(".config/");
    if i == 0 {
        reveal_strlit(".config/quickshell");
        reveal_strlit("quickshell");
        assert(t[i].0 =~= ".config/"@ + t[i].1);
        assert(t[i].1.len() == 10);
    } else if i == 1 {
        reveal_strlit(".config/hypr/zenith.conf");
        reveal_strlit("hypr/zenith.conf");
        assert(t[i].0 =~= ".config/"@ + t[i].1);
        assert(t[i].1.len() == 16);
    } else if i == 2 {
        reveal_strlit(".config/hypr/hyprland.conf");
        reveal_strlit("hypr/hyprland.conf");
        assert(t[i].0 =~= ".config/"@ + t[i].1);
        assert(t[i].1.len() == 18);
    } else if i == 3 {
        reveal_strlit(".config/hypr/hyprland.lua");
        reveal_strlit("hypr/hyprland.lua");
        assert(t[i].0 =~= ".config/"@ + t[i].1);
        assert(t[i].1.len() == 17);
    } else if i == 4 {
        reveal_strlit(".config/waybar");
        reveal_strlit("waybar");
        assert(t[i].0 =~= ".config/"@ + t[i].1);
        assert(t[i].1.len() == 6);
    } else if i == 5 {
        reveal_strlit(".config/kitty/zenith-theme.conf");
        reveal_strlit("kitty/zenith-theme.conf");
        assert(t[i].0 =~= ".config/"@ + t[i].1);
        assert(t[i].1.len() == 23);
    } else if i == 6 {
        reveal_strlit(".config/rofi/zenith-theme.rasi");
        reveal_strlit("rofi/zenith-theme.rasi");
        assert(t[i].0 =~= ".config/"@ + t[i].1);
        assert(t[i].1.len() == 22);
    }
}

/// Every managed source keeps a place of its own in a snapshot: its path in
/// the snapshot is its path under `~/.config/`, and no two sources share one.
pub proof fn law_managed_sources_have_own_places()
    ensures
        forall|i: int| 0 <= i < managed_table().len() ==> (#[trigger] managed_table()[i]).0 == ".config/"@
            + managed_table()[i].1,
        forall|i: int, j: int|
            0 <= i < j < managed_table().len() ==> (#[trigger] managed_table()[i]).1
                != (#[trigger] managed_table()[j]).1,
{
    assert forall|i: int| 0 <= i < managed_table().len() implies (#[trigger] managed_table()[i]).0 == ".config/"@
        + managed_table()[i].1 by {
        lemma_managed_entry(i);
    }
    assert forall|i: int, j: int| 0 <= i < j < managed_table().len() implies (#[trigger] managed_table()[i]).1
        != (#[trigger] managed_table()[j]).1 by {
        lemma_managed_entry(i);
        lemma_managed_entry(j);
    }
}

} // verus!
