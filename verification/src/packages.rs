use vstd::prelude::*;

use crate::backup::{join_path, path_join};
use crate::text::{copy_str, ends_with, is_suffix, join, join_strings, str_eq, trim, trimmed, views};

verus! {

// ---------------------------------------------------------------------------
// Installation progress.
// ---------------------------------------------------------------------------

/// The stages of an installation, shown live in the tool hub.
#[derive(Clone, Copy, Debug, PartialEq, Eq, Structural)]
pub enum PackageStatus {
    Idle,
    Downloading,
    Installing,
    Done,
    Failed,
}

/// The machine-readable label of each stage.
pub open spec fn status_key_of(s: PackageStatus) -> Seq<char> {
    match s {
        PackageStatus::Idle => "idle"@,
        PackageStatus::Downloading => "download"@,
        PackageStatus::Installing => "install"@,
        PackageStatus::Done => "done"@,
        PackageStatus::Failed => "failed"@,
    }
}

/// The machine-readable label of a stage, for the UI and end-to-end tests.
pub fn status_key(s: PackageStatus) -> (r: &'static str)
    ensures
        r@ == status_key_of(s),
{
    match s {
        PackageStatus::Idle => "idle",
        PackageStatus::Downloading => "download",
        PackageStatus::Installing => "install",
        PackageStatus::Done => "done",
        PackageStatus::Failed => "failed",
    }
}

/// The stage an installation log reports: its last `STATUS` line, read from
/// the end of the log without surrounding white space.
pub open spec fn status_in_log(log: Seq<char>) -> PackageStatus {
    let t = trimmed(log);
    if is_suffix("STATUS done"@, t) {
        PackageStatus::Done
    } else if is_suffix("STATUS failed"@, t) {
        PackageStatus::Failed
    } else if is_suffix("STATUS installing"@, t) {
        PackageStatus::Installing
    } else if is_suffix("STATUS download"@, t) {
        PackageStatus::Downloading
    } else {
        PackageStatus::Idle
    }
}

/// Reads the stage from the text of an installation log.
pub fn status_from_log(log: &str) -> (r: PackageStatus)
    ensures
        r == status_in_log(log@),
{
    let t = trim(log);
    let t = t.as_str();
    if ends_with(t, "STATUS done") {
        PackageStatus::Done
    } else if ends_with(t, "STATUS failed") {
        PackageStatus::Failed
    } else if ends_with(t, "STATUS installing") {
        PackageStatus::Installing
    } else if ends_with(t, "STATUS download") {
        PackageStatus::Downloading
    } else {
        PackageStatus::Idle
    }
}

/// The file name of the status log of tool `key`.
pub open spec fn log_file_name(key: Seq<char>) -> Seq<char> {
    "zenith-toolhub-"@ + key + ".log"@
}

/// Where the status log of tool `key` is written: in the runtime directory
/// when one is set and not empty, else in `/tmp`.
pub fn log_path(runtime_dir: Option<&str>, key: &str) -> (p: String)
    ensures
        p@ == match runtime_dir {
            Some(r) => if r@.len() > 0 {
                path_join(r@, log_file_name(key@))
            } else {
                path_join("/tmp"@, log_file_name(key@))
            },
            None => path_join("/tmp"@, log_file_name(key@)),
        },
{
    let mut name = copy_str("zenith-toolhub-");
    name.append(key);
    name.append(".log");
    match runtime_dir {
        Some(r) => {
            if r.unicode_len() > 0 {
                join_path(r, name.as_str())
            } else {
                join_path("/tmp", name.as_str())
            }
        },
        None => join_path("/tmp", name.as_str()),
    }
}

// ---------------------------------------------------------------------------
// The tool hub catalog.
// ---------------------------------------------------------------------------

/// A tool of the tool hub (a recipe from a blueprint file).
#[derive(Clone, Debug, PartialEq)]
pub struct ToolHubItem {
    pub key: String,
    pub name: String,
    pub description: String,
    /// Arch repository (or AUR) packages.
    pub packages: Vec<String>,
    /// Optional Flatpak application ids.
    pub flatpak_ids: Vec<String>,
    /// The command whose presence means the tool is installed.
    pub check_binary: String,
    pub icon: String,
}

pub struct ToolHubItemView {
    pub key: Seq<char>,
    pub name: Seq<char>,
    pub description: Seq<char>,
    pub packages: Seq<Seq<char>>,
    pub flatpak_ids: Seq<Seq<char>>,
    pub check_binary: Seq<char>,
    pub icon: Seq<char>,
}

impl View for ToolHubItem {
    type V = ToolHubItemView;

    open spec fn view(&self) -> ToolHubItemView {
        ToolHubItemView {
            key: self.key@,
            name: self.name@,
            description: self.description@,
            packages: views(self.packages@),
            flatpak_ids: views(self.flatpak_ids@),
            check_binary: self.check_binary@,
            icon: self.icon@,
        }
    }
}

impl Default for ToolHubItem {
    fn default() -> (r: Self)
        ensures
            r@ == (ToolHubItemView {
                key: Seq::empty(),
                name: Seq::empty(),
                description: Seq::empty(),
                packages: Seq::empty(),
                flatpak_ids: Seq::empty(),
                check_binary: Seq::empty(),
                icon: "🧩"@,
            }),
    {
        let r = ToolHubItem {
            key: String::new(),
            name: String::new(),
            description: String::new(),
            packages: Vec::new(),
            flatpak_ids: Vec::new(),
            check_binary: String::new(),
            icon: copy_str("🧩"),
        };
        proof {
            assert(views(r.packages@) =~= Seq::<Seq<char>>::empty());
            assert(views(r.flatpak_ids@) =~= Seq::<Seq<char>>::empty());
        }
        r
    }
}

/// Whether `list` holds `s`.
pub fn holds(list: &Vec<String>, s: &str) -> (r: bool)
    ensures
        r == views(list@).contains(s@),
{
    let mut i: usize = 0;
    while i < list.len()
        invariant
            i <= list@.len(),
            forall|k: int| 0 <= k < i ==> list@[k]@ != s@,
        decreases list.len() - i,
    {
        if str_eq(list[i].as_str(), s) {
            proof {
                assert(views(list@)[i as int] == s@);
            }
            return true;
        }
        i = i + 1;
    }
    proof {
        if views(list@).contains(s@) {
            let k = choose|k: int| 0 <= k < views(list@).len() && views(list@)[k] == s@;
            assert(list@[k]@ == s@);
        }
    }
    false
}

impl ToolHubItem {
    /// Whether the tool is installed, given the commands found on `PATH`:
    /// never when it names no command to look for.
    pub fn is_installed(&self, on_path: &Vec<String>) -> (r: bool)
        ensures
            r == (self.check_binary@.len() > 0 && views(on_path@).contains(self.check_binary@)),
    {
        if self.check_binary.unicode_len() == 0 {
            return false;
        }
        holds(on_path, self.check_binary.as_str())
    }
}

pub open spec fn item_views(s: Seq<ToolHubItem>) -> Seq<ToolHubItemView> {
    s.map_values(|t: ToolHubItem| t@)
}

/// The catalog built in (used as is until blueprint files add to it).
pub open spec fn builtin_catalog_of() -> Seq<ToolHubItemView> {
    seq![
        ToolHubItemView {
            key: "lazyvim"@,
            name: "LazyVim"@,
            description: "Neovim met de LazyVim-distributie"@,
            packages: seq!["neovim"@, "git"@, "ripgrep"@, "fd"@],
            flatpak_ids: Seq::empty(),
            check_binary: "nvim"@,
            icon: "💻"@,
        },
        ToolHubItemView {
            key: "wireshark"@,
            name: "Wireshark"@,
            description: "Netwerkanalyse voor pakketinspectie"@,
            packages: seq!["wireshark"@, "tshark"@],
            flatpak_ids: seq!["org.wireshark.Wireshark"@],
            check_binary: "wireshark"@,
            icon: "🕵️"@,
        },
    ]
}

/// The catalog built in.
pub fn builtin_catalog() -> (r: Vec<ToolHubItem>)
    ensures
        item_views(r@) == builtin_catalog_of(),
{
    let mut lazyvim_packages: Vec<String> = Vec::new();
    lazyvim_packages.push(copy_str("neovim"));
    lazyvim_packages.push(copy_str("git"));
    lazyvim_packages.push(copy_str("ripgrep"));
    lazyvim_packages.push(copy_str("fd"));
    let lazyvim = ToolHubItem {
        key: copy_str("lazyvim"),
        name: copy_str("LazyVim"),
        description: copy_str("Neovim met de LazyVim-distributie"),
        packages: lazyvim_packages,
        flatpak_ids: Vec::new(),
        check_binary: copy_str("nvim"),
        icon: copy_str("💻"),
    };
    let mut wireshark_packages: Vec<String> = Vec::new();
    wireshark_packages.push(copy_str("wireshark"));
    wireshark_packages.push(copy_str("tshark"));
    let mut wireshark_flatpaks: Vec<String> = Vec::new();
    wireshark_flatpaks.push(copy_str("org.wireshark.Wireshark"));
    let wireshark = ToolHubItem {
        key: copy_str("wireshark"),
        name: copy_str("Wireshark"),
        description: copy_str("Netwerkanalyse voor pakketinspectie"),
        packages: wireshark_packages,
        flatpak_ids: wireshark_flatpaks,
        check_binary: copy_str("wireshark"),
        icon: copy_str("🕵️"),
    };
    proof {
        assert(views(lazyvim.packages@) =~= seq!["neovim"@, "git"@, "ripgrep"@, "fd"@]);
        assert(views(lazyvim.flatpak_ids@) =~= Seq::<Seq<char>>::empty());
        assert(views(wireshark.packages@) =~= seq!["wireshark"@, "tshark"@]);
        assert(views(wireshark.flatpak_ids@) =~= seq!["org.wireshark.Wireshark"@]);
    }
    let mut r: Vec<ToolHubItem> = Vec::new();
    r.push(lazyvim);
    r.push(wireshark);
    proof {
        assert(item_views(r@) =~= builtin_catalog_of());
    }
    r
}

/// The index of the first entry with key `key`, or `-1`.
pub open spec fn key_index(items: Seq<ToolHubItemView>, key: Seq<char>) -> int
    decreases items.len(),
{
    if items.len() == 0 {
        -1
    } else if items.last().key == key && key_index(items.drop_last(), key) < 0 {
        items.len() - 1
    } else {
        key_index(items.drop_last(), key)
    }
}

/// `items` with `item` in place of the first entry with its key, or with
/// `item` appended when none has it.
pub open spec fn upsert(items: Seq<ToolHubItemView>, item: ToolHubItemView) -> Seq<ToolHubItemView> {
    let i = key_index(items, item.key);
    if i >= 0 {
        items.update(i, item)
    } else {
        items.push(item)
    }
}

/// What `key_index` says: the first index with the key, or `-1` when none.
pub proof fn lemma_key_index(items: Seq<ToolHubItemView>, key: Seq<char>)
    ensures
        -1 <= key_index(items, key) < items.len(),
        key_index(items, key) >= 0 ==> items[key_index(items, key)].key == key,
        forall|k: int| 0 <= k < items.len() && (k < key_index(items, key) || key_index(items, key) < 0) ==> items[k].key != key,
    decreases items.len(),
{
    if items.len() > 0 {
        lemma_key_index(items.drop_last(), key);
        assert forall|k: int| 0 <= k < items.len() - 1 implies items.drop_last()[k] == items[k] by {}
    }
}

/// Puts `item` in place of the first entry with its key, or appends it.
pub fn upsert_item(items: &mut Vec<ToolHubItem>, item: ToolHubItem)
    ensures
        item_views(final(items)@) == upsert(item_views(old(items)@), item@),
{
    let mut i: usize = 0;
    while i < items.len()
        invariant
            items@ == old(items)@,
            i <= items@.len(),
            forall|k: int| 0 <= k < i ==> items@[k].key@ != item.key@,
        decreases items.len() - i,
    {
        if str_eq(items[i].key.as_str(), item.key.as_str()) {
            let ghost before = items@;
            proof {
                let iv = item_views(before);
                lemma_key_index(iv, item@.key);
                assert(iv[i as int].key == item@.key);
                assert forall|k: int| 0 <= k < i implies iv[k].key != item@.key by {
                    assert(iv[k] == before[k]@);
                }
                assert(key_index(iv, item@.key) == i);
            }
            items.set(i, item);
            proof {
                assert(item_views(items@) =~= item_views(before).update(i as int, item@));
            }
            return;
        }
        i = i + 1;
    }
    let ghost before = items@;
    proof {
        let iv = item_views(before);
        lemma_key_index(iv, item@.key);
        assert forall|k: int| 0 <= k < iv.len() implies iv[k].key != item@.key by {
            assert(iv[k] == before[k]@);
        }
        assert(key_index(iv, item@.key) < 0);
    }
    items.push(item);
    proof {
        assert(item_views(items@) =~= item_views(before).push(item@));
    }
}

/// The catalog after reading `blueprints` in order: each replaces the entry
/// with its key, or is added after the others.
pub open spec fn catalog_of(base: Seq<ToolHubItemView>, blueprints: Seq<ToolHubItemView>) -> Seq<ToolHubItemView>
    decreases blueprints.len(),
{
    if blueprints.len() == 0 {
        base
    } else {
        catalog_of(upsert(base, blueprints[0]), blueprints.drop_first())
    }
}

/// All tools: the catalog built in, completed by the blueprints read from the
/// blueprint directories (in the order read; a blueprint replaces the tool
/// with its key).
pub fn catalog_with(blueprints: Vec<ToolHubItem>) -> (r: Vec<ToolHubItem>)
    ensures
        item_views(r@) == catalog_of(builtin_catalog_of(), item_views(blueprints@)),
{
    let mut items = builtin_catalog();
    let mut i: usize = 0;
    proof {
        assert(item_views(blueprints@).skip(0) =~= item_views(blueprints@));
    }
    while i < blueprints.len()
        invariant
            i <= blueprints@.len(),
            catalog_of(item_views(items@), item_views(blueprints@).skip(i as int)) == catalog_of(
                builtin_catalog_of(),
                item_views(blueprints@),
            ),
        decreases blueprints.len() - i,
    {
        let ghost rest = item_views(blueprints@).skip(i as int);
        proof {
            assert(rest[0] == blueprints@[i as int]@);
            assert(rest.drop_first() =~= item_views(blueprints@).skip(i + 1));
        }
        upsert_item(&mut items, blueprints[i].clone_item());
        i = i + 1;
    }
    proof {
        assert(item_views(blueprints@).skip(blueprints@.len() as int) =~= Seq::<ToolHubItemView>::empty());
    }
    items
}

/// A copy of a list of texts.
pub fn clone_strings(v: &Vec<String>) -> (r: Vec<String>)
    ensures
        views(r@) == views(v@),
{
    let mut r: Vec<String> = Vec::new();
    let mut i: usize = 0;
    while i < v.len()
        invariant
            i <= v@.len(),
            views(r@) == views(v@.take(i as int)),
        decreases v.len() - i,
    {
        r.push(copy_str(v[i].as_str()));
        proof {
            assert(v@.take(i + 1) =~= v@.take(i as int).push(v@[i as int]));
            assert(views(v@.take(i + 1)) =~= views(v@.take(i as int)).push(v@[i as int]@));
        }
        i = i + 1;
    }
    proof {
        assert(v@.take(v@.len() as int) =~= v@);
    }
    r
}

impl ToolHubItem {
    /// A copy of the tool.
    pub fn clone_item(&self) -> (r: ToolHubItem)
        ensures
            r@ == self@,
    {
        ToolHubItem {
            key: copy_str(self.key.as_str()),
            name: copy_str(self.name.as_str()),
            description: copy_str(self.description.as_str()),
            packages: clone_strings(&self.packages),
            flatpak_ids: clone_strings(&self.flatpak_ids),
            check_binary: copy_str(self.check_binary.as_str()),
            icon: copy_str(self.icon.as_str()),
        }
    }
}

/// No two entries share a key.
pub open spec fn keys_unique(items: Seq<ToolHubItemView>) -> bool {
    forall|a: int, b: int| 0 <= a < b < items.len() ==> (#[trigger] items[a]).key != (#[trigger] items[b]).key
}

/// Reading a blueprint leaves it in the catalog, changes no entry with
/// another key, grows the catalog by at most one entry, and keeps the keys
/// distinct.
pub proof fn law_upsert(items: Seq<ToolHubItemView>, item: ToolHubItemView)
    ensures
        upsert(items, item).contains(item),
        upsert(items, item).len() == items.len() || upsert(items, item).len() == items.len() + 1,
        forall|k: int| 0 <= k < items.len() && items[k].key != item.key ==> #[trigger] upsert(items, item)[k] == items[k],
        keys_unique(items) ==> keys_unique(upsert(items, item)),
{
    lemma_key_index(items, item.key);
    let i = key_index(items, item.key);
    let r = upsert(items, item);
    if i >= 0 {
        assert(r[i] == item);
    } else {
        assert(r[items.len() as int] == item);
    }
    if keys_unique(items) {
        assert forall|a: int, b: int| 0 <= a < b < r.len() implies (#[trigger] r[a]).key != (#[trigger] r[b]).key by {
            if i >= 0 {
                if a == i {
                    assert(items[b].key != items[i].key);
                } else if b == i {
                    assert(items[a].key != items[i].key);
                }
            } else if b == items.len() {
                assert(r[a] == items[a]);
            }
        }
    }
}

/// The built-in catalog has distinct keys, and reading blueprints keeps them
/// distinct.
pub proof fn law_catalog_keys_unique(base: Seq<ToolHubItemView>, blueprints: Seq<ToolHubItemView>)
    requires
        keys_unique(base),
    ensures
        keys_unique(catalog_of(base, blueprints)),
    decreases blueprints.len(),
{
    if blueprints.len() > 0 {
        law_upsert(base, blueprints[0]);
        law_catalog_keys_unique(upsert(base, blueprints[0]), blueprints.drop_first());
    }
}

/// The keys of the built-in catalog are distinct.
pub proof fn law_builtin_catalog_keys_unique()
    ensures
        keys_unique(builtin_catalog_of()),
{
    reveal_strlit("lazyvim");
    reveal_strlit("wireshark");
    let c = builtin_catalog_of();
    assert(c[0].key.len() != c[1].key.len());
}

// ---------------------------------------------------------------------------
// Running an installation.
// ---------------------------------------------------------------------------

/// The installer script: on `PATH` when found there, else next to the
/// repository when that file exists, else none (empty).
pub fn broker_path(broker_on_path: bool, local_broker_exists: bool) -> (r: String)
    ensures
        r@ == if broker_on_path {
            "zenith-priv-broker"@
        } else if local_broker_exists {
            "scripts/zenith-priv-broker"@
        } else {
            Seq::<char>::empty()
        },
{
    if broker_on_path {
        copy_str("zenith-priv-broker")
    } else if local_broker_exists {
        copy_str("scripts/zenith-priv-broker")
    } else {
        String::new()
    }
}

/// The repository's blueprint directory (next to the binaries).
pub fn repo_blueprints_dir() -> (r: String)
    ensures
        r@ == "blueprints"@,
{
    copy_str("blueprints")
}

/// How a tool gets installed.
pub enum InstallPlan {
    /// No installer script: install the packages with the package manager.
    Packages(Vec<String>),
    /// Run this shell command line, which asks the installer script.
    Broker(String),
}

/// How tool `item` gets installed with installer script `broker` (empty when
/// there is none): `<broker> install <packages separated by spaces>`.
pub fn install_plan(broker: &str, item: &ToolHubItem) -> (r: InstallPlan)
    ensures
        broker@.len() == 0 ==> (r matches InstallPlan::Packages(p) && views(p@) == views(item.packages@)),
        broker@.len() > 0 ==> (r matches InstallPlan::Broker(s) && s@ == broker@ + " install "@ + join(
            views(item.packages@),
            " "@,
        )),
{
    if broker.unicode_len() == 0 {
        InstallPlan::Packages(clone_strings(&item.packages))
    } else {
        let mut s = copy_str(broker);
        s.append(" install ");
        let joined = join_strings(&item.packages, " ");
        s.append(joined.as_str());
        InstallPlan::Broker(s)
    }
}

} // verus!
