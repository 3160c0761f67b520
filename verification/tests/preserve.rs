use dirpurge::preserve::{
    archive_file_name, backup_destination, fresh_archive_name, fresh_backup_destination,
    join_path, subtree_relative,
};

#[test]
fn paths_are_joined_with_one_separator() {
    assert_eq!(join_path("./backups", "node_modules"), "./backups/node_modules");
    assert_eq!(join_path("", "x"), "/x");
}

#[test]
fn archive_names_carry_timestamp_and_suffix() {
    assert_eq!(
        archive_file_name("node_modules", "20240101_120000"),
        "node_modules_20240101_120000.zip"
    );
}

#[test]
fn archive_names_differ_across_timestamps() {
    let first = archive_file_name("node_modules", "20240101_120000");
    let second = archive_file_name("node_modules", "20240101_120001");
    assert_ne!(first, second);
}

#[test]
fn natural_backup_destination_when_free() {
    let dest = backup_destination("./backups", "node_modules", false, "20240101_120000");
    assert_eq!(dest, "./backups/node_modules");
}

#[test]
fn second_backup_never_reuses_the_first_destination() {
    let first = backup_destination("./backups", "node_modules", false, "20240101_120000");
    let second = backup_destination("./backups", "node_modules", true, "20240102_093000");
    assert_eq!(second, "./backups/node_modules_20240102_093000");
    assert_ne!(first, second);
    let third = backup_destination("./backups", "node_modules", true, "20240103_093000");
    assert_ne!(second, third);
}

#[test]
fn relative_names_strip_the_root() {
    assert_eq!(
        subtree_relative("a/node_modules", "a/node_modules/src/x.js"),
        Some("src/x.js".to_string())
    );
    assert_eq!(subtree_relative("a/node_modules", "a/node_modules"), None);
    assert_eq!(subtree_relative("a/node_modules", "a/other/f"), None);
    assert_eq!(subtree_relative("a/node_modules", "a/node_modules_old/f"), None);
}

#[test]
fn fresh_names_are_well_formed() {
    let archive = fresh_archive_name("node_modules");
    assert!(archive.starts_with("node_modules_"));
    assert!(archive.ends_with(".zip"));
    assert!(archive.len() > "node_modules_.zip".len());
    let natural = fresh_backup_destination("./backups", "node_modules", false);
    assert_eq!(natural, "./backups/node_modules");
    let suffixed = fresh_backup_destination("./backups", "node_modules", true);
    assert!(suffixed.starts_with("./backups/node_modules_"));
    assert_ne!(natural, suffixed);
}
