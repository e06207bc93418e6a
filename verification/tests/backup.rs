use zenith::backup::{
    backups_root, delete_backup, format_size, format_timestamp, managed_sources, prune_for_new_snapshot, prune_old_snapshots, restore_backup,
    slugify, snapshot_name, snapshot_path, sort_newest_first, BackupInfo, MAX_SNAPSHOTS, backup_row_subtitle,
    backup_location_text,
};
use zenith::calendar::civil_from_unix;

#[test]
fn test_civil_from_unix() {
    let (y, m, d, hh, mm) = civil_from_unix(0);
    assert_eq!((y, m, d, hh, mm), (1970, 1, 1, 0, 0));

    let (y2, m2, d2, h2, mm2) = civil_from_unix(946_684_800);
    assert_eq!((y2, m2, d2, h2, mm2), (2000, 1, 1, 0, 0));

    let (y3, m3, d3, _, _) = civil_from_unix(951_868_800);
    assert_eq!(y3, 2000);
    assert_eq!(m3, 3);
    assert_eq!(d3, 1);

    let (y4, m4, d4, h4, mm4) = civil_from_unix(1_710_606_600);
    assert_eq!(y4, 2024);
    assert_eq!(m4, 3);
    assert_eq!(d4, 16);
    assert_eq!(h4, 16);
    assert_eq!(mm4, 30);
}

#[test]
fn test_format_timestamp_smoke() {
    let s = format_timestamp(1_710_606_600);
    assert!(s.len() >= 16, "timestamp string should be non-trivial");
    assert!(s.contains("-"));
    assert!(s.contains(":"));
}

#[test]
fn format_timestamp_exact_values() {
    assert_eq!(format_timestamp(1_710_606_600), "2024-03-16 16:30");
    assert_eq!(format_timestamp(0), "1970-01-01 00:00");
    assert_eq!(format_timestamp(-1), "1969-12-31 23:59");
    assert_eq!(format_timestamp(951_782_400), "2000-02-29 00:00");
}

#[test]
fn civil_from_unix_before_epoch() {
    assert_eq!(civil_from_unix(-86_400), (1969, 12, 31, 0, 0));
    assert_eq!(civil_from_unix(-60), (1969, 12, 31, 23, 59));
}

fn size_reference(bytes: u64) -> String {
    if bytes >= 1024 * 1024 {
        format!("{:.1} MB", bytes as f64 / (1024.0 * 1024.0))
    } else if bytes >= 1024 {
        format!("{:.1} KB", bytes as f64 / 1024.0)
    } else {
        format!("{} B", bytes)
    }
}

#[test]
fn format_size_exact_values() {
    assert_eq!(format_size(0), "0 B");
    assert_eq!(format_size(1023), "1023 B");
    assert_eq!(format_size(1024), "1.0 KB");
    assert_eq!(format_size(1536), "1.5 KB");
    assert_eq!(format_size(1024 * 1024), "1.0 MB");
    assert_eq!(format_size(5 * 1024 * 1024 + 512 * 1024), "5.5 MB");
}

#[test]
fn format_size_agrees_with_float_formatting() {
    let mut b: u64 = 0;
    while b < 300_000 {
        assert_eq!(format_size(b), size_reference(b), "bytes = {}", b);
        b += 1;
    }
    let mut x: u64 = 0x9E37_79B9_7F4A_7C15;
    for _ in 0..200_000 {
        x ^= x << 13;
        x ^= x >> 7;
        x ^= x << 17;
        let shift = (x % 64) as u32;
        let v = x >> shift;
        assert_eq!(format_size(v), size_reference(v), "bytes = {}", v);
    }
    for v in [u64::MAX, u64::MAX - 1, 1u64 << 63, (1u64 << 53) + 1, 104_857, 1_048_575, 1_048_576, 1_153_433] {
        assert_eq!(format_size(v), size_reference(v), "bytes = {}", v);
    }
}

#[test]
fn slugify_examples() {
    assert_eq!(slugify("Mijn eerste back-up"), "mijn-eerste-back-up");
    assert_eq!(slugify("  A_b  "), "--a-b--");
    assert_eq!(slugify("!!!"), "backup");
    assert_eq!(slugify(""), "backup");
    assert_eq!(slugify("Été 2024"), "Été-2024");
}

#[test]
fn snapshot_path_rejects_traversal() {
    assert_eq!(snapshot_path("/root/b", "1700_x"), Some("/root/b/1700_x".to_string()));
    assert_eq!(snapshot_path("/root/b/", "1700_x"), Some("/root/b/1700_x".to_string()));
    assert_eq!(snapshot_path("/root/b", ""), None);
    assert_eq!(snapshot_path("/root/b", ".."), None);
    assert_eq!(snapshot_path("/root/b", "a/b"), None);
    assert_eq!(snapshot_path("/root/b", "a\\b"), None);
}

#[test]
fn snapshot_name_joins_time_and_slug() {
    assert_eq!(snapshot_name(1_700_000_000, "Mijn eerste back-up"), "1700000000_mijn-eerste-back-up");
    assert_eq!(snapshot_name(-5, ""), "-5_backup");
}

fn info(name: &str, t: i64) -> BackupInfo {
    BackupInfo { name: name.to_string(), label: name.to_string(), created_at_unix: t, file_count: 1, size_bytes: 2 }
}

#[test]
fn sort_newest_first_is_stable() {
    let mut v = vec![info("a", 5), info("b", 9), info("c", 5), info("d", 1), info("e", 9)];
    sort_newest_first(&mut v);
    let names: Vec<&str> = v.iter().map(|b| b.name.as_str()).collect();
    assert_eq!(names, vec!["b", "e", "a", "c", "d"]);
}

#[test]
fn prune_keeps_the_newest() {
    let mut v: Vec<BackupInfo> = (0..13).map(|i| info(&format!("s{}", i), 100 - i as i64)).collect();
    let removed = prune_old_snapshots(&mut v);
    assert_eq!(v.len(), MAX_SNAPSHOTS);
    assert_eq!(removed.len(), 3);
    assert_eq!(removed[0].name, "s12");
    assert_eq!(removed[2].name, "s10");
    assert_eq!(v[9].name, "s9");
    let mut few = vec![info("x", 1)];
    assert!(prune_old_snapshots(&mut few).is_empty());
    assert_eq!(few.len(), 1);
}

#[test]
fn room_is_made_for_a_new_snapshot() {
    let mut full: Vec<BackupInfo> = (0..10).map(|i| info(&format!("s{}", i), 100 - i as i64)).collect();
    let removed = prune_for_new_snapshot(&mut full);
    assert_eq!(full.len(), MAX_SNAPSHOTS - 1);
    assert_eq!(removed.len(), 1);
    assert_eq!(removed[0].name, "s9");
    let mut over: Vec<BackupInfo> = (0..12).map(|i| info(&format!("s{}", i), 100 - i as i64)).collect();
    let removed = prune_for_new_snapshot(&mut over);
    assert_eq!(over.len(), 9);
    let names: Vec<&str> = removed.iter().map(|b| b.name.as_str()).collect();
    assert_eq!(names, vec!["s11", "s10", "s9"]);
    let mut room: Vec<BackupInfo> = (0..9).map(|i| info(&format!("s{}", i), 100 - i as i64)).collect();
    assert!(prune_for_new_snapshot(&mut room).is_empty());
    assert_eq!(room.len(), 9);
}

#[test]
fn backup_locations() {
    assert_eq!(backups_root("/home/u"), "/home/u/.local/share/zenith/backups");
    let sources = managed_sources("/home/u");
    assert_eq!(sources.len(), 7);
    assert_eq!(sources[0].source, "/home/u/.config/quickshell");
    assert_eq!(sources[0].rel, "quickshell");
    assert_eq!(sources[3].source, "/home/u/.config/hypr/hyprland.lua");
    assert_eq!(sources[6].rel, "rofi/zenith-theme.rasi");
}

#[test]
fn delete_and_restore_need_a_present_snapshot() {
    let present = vec!["1700_a".to_string()];
    assert_eq!(delete_backup("/b", "1700_a", &present), Ok("/b/1700_a".to_string()));
    assert_eq!(delete_backup("/b", "1700_b", &present), Err("Back-up niet gevonden".to_string()));
    assert_eq!(delete_backup("/b", "../1700_a", &present), Err("Back-up niet gevonden".to_string()));
    assert_eq!(restore_backup("/b", "1700_a", &present), Ok("/b/1700_a/config".to_string()));
    assert_eq!(restore_backup("/b", "", &present), Err("Back-up niet gevonden".to_string()));
}

#[test]
fn backup_row_texts() {
    let info = BackupInfo {
        name: "zenith_1970-01-01_00-00-00_test".to_string(),
        label: "test".to_string(),
        created_at_unix: 90_061,
        file_count: 3,
        size_bytes: 2048,
    };
    assert_eq!(backup_row_subtitle(&info, "bestanden"), "1970-01-02 01:01  •  3 bestanden  •  2.0 KB");
    assert_eq!(
        backup_location_text("/home/u/.local/share/zenith/backups", "snapshots"),
        "/home/u/.local/share/zenith/backups  •  max. 10 snapshots"
    );
}
