use zenith::packages::{
    broker_path, builtin_catalog, catalog_with, install_plan, log_path, repo_blueprints_dir, status_from_log, status_key,
    upsert_item, InstallPlan, PackageStatus, ToolHubItem,
};

#[test]
fn status_key_roundtrip() {
    assert_eq!(status_key(PackageStatus::Idle), "idle");
    assert_eq!(status_key(PackageStatus::Downloading), "download");
    assert_eq!(status_key(PackageStatus::Installing), "install");
    assert_eq!(status_key(PackageStatus::Done), "done");
    assert_eq!(status_key(PackageStatus::Failed), "failed");
}

#[test]
fn read_status_parses_log() {
    assert_eq!(status_from_log("STATUS installing\n"), PackageStatus::Installing);
    assert_eq!(status_from_log("STATUS done\n"), PackageStatus::Done);
    assert_eq!(status_from_log("STATUS failed\n"), PackageStatus::Failed);
}

#[test]
fn status_from_log_other_cases() {
    assert_eq!(status_from_log("STATUS download\n"), PackageStatus::Downloading);
    assert_eq!(status_from_log(""), PackageStatus::Idle);
    assert_eq!(status_from_log("STATUS done\nmore output"), PackageStatus::Idle);
    assert_eq!(status_from_log("STATUS download\nSTATUS installing  \n\n"), PackageStatus::Installing);
}

#[test]
fn builtin_catalog_has_tools() {
    let cat = builtin_catalog();
    assert!(cat.iter().any(|t| t.key == "lazyvim"));
    assert!(cat.iter().any(|t| t.key == "wireshark"));
}

#[test]
fn load_catalog_includes_core_tools() {
    let cat = catalog_with(Vec::new());
    assert!(!cat.is_empty());
    assert!(cat.iter().any(|t| t.key == "lazyvim"));
    assert!(cat.iter().any(|t| t.key == "wireshark"));
    for t in cat {
        assert!(!t.name.is_empty());
        assert!(!t.key.is_empty());
    }
}

fn tool(key: &str, name: &str) -> ToolHubItem {
    ToolHubItem { key: key.to_string(), name: name.to_string(), ..ToolHubItem::default() }
}

#[test]
fn blueprints_replace_by_key_or_append() {
    let cat = catalog_with(vec![tool("wireshark", "WS 2"), tool("htop", "htop"), tool("htop", "htop 2")]);
    assert_eq!(cat.len(), 3);
    assert_eq!(cat[0].key, "lazyvim");
    assert_eq!(cat[1].name, "WS 2");
    assert_eq!(cat[2].name, "htop 2");
    let mut items = vec![tool("a", "1"), tool("b", "2")];
    upsert_item(&mut items, tool("a", "3"));
    assert_eq!(items.len(), 2);
    assert_eq!(items[0].name, "3");
}

#[test]
fn tool_hub_item_defaults_and_install_check() {
    let d = ToolHubItem::default();
    assert_eq!(d.icon, "🧩");
    assert!(d.key.is_empty() && d.packages.is_empty());
    let on_path = vec!["nvim".to_string()];
    assert!(!d.is_installed(&on_path));
    let cat = builtin_catalog();
    assert!(cat[0].is_installed(&on_path));
    assert!(!cat[1].is_installed(&on_path));
}

#[test]
fn paths_and_broker() {
    assert_eq!(log_path(Some("/run/user/1000"), "lazyvim"), "/run/user/1000/zenith-toolhub-lazyvim.log");
    assert_eq!(log_path(Some(""), "x"), "/tmp/zenith-toolhub-x.log");
    assert_eq!(log_path(None, "x"), "/tmp/zenith-toolhub-x.log");
    assert_eq!(broker_path(true, true), "zenith-priv-broker");
    assert_eq!(broker_path(false, true), "scripts/zenith-priv-broker");
    assert_eq!(broker_path(false, false), "");
    assert_eq!(repo_blueprints_dir(), "blueprints");
}

#[test]
fn install_plans() {
    let cat = builtin_catalog();
    match install_plan("zenith-priv-broker", &cat[0]) {
        InstallPlan::Broker(s) => assert_eq!(s, "zenith-priv-broker install neovim git ripgrep fd"),
        InstallPlan::Packages(_) => panic!("a broker was given"),
    }
    match install_plan("", &cat[1]) {
        InstallPlan::Packages(p) => assert_eq!(p, vec!["wireshark".to_string(), "tshark".to_string()]),
        InstallPlan::Broker(_) => panic!("no broker was given"),
    }
}
