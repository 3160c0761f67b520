use dirpurge::discovery::{find_directories, in_subtree_exec, subtree_count, subtree_size};
use dirpurge::model::{FilterCriteria, FsEntry};

fn entry(path: &str, depth: usize, is_dir: bool, file_size: u64, age_days: Option<i64>) -> FsEntry {
    let name = match path.rfind('/') {
        Some(i) => &path[i + 1..],
        None => path,
    };
    FsEntry {
        path: path.to_string(),
        name: name.to_string(),
        depth,
        is_dir,
        file_size,
        age_days,
    }
}

fn strings(v: &[&str]) -> Vec<String> {
    v.iter().map(|s| s.to_string()).collect()
}

fn sample_tree() -> Vec<FsEntry> {
    vec![
        entry("a", 0, true, 0, Some(40)),
        entry("a/node_modules", 1, true, 0, Some(30)),
        entry("a/node_modules/f1", 2, false, 500_000, None),
        entry("a/node_modules/f2", 2, false, 500_000, None),
        entry("a/node_modules/f3", 2, false, 500_000, None),
        entry("a/node_modules/f4", 2, false, 500_000, None),
        entry("a/node_modules/f5", 2, false, 97_152, None),
        entry("a/b", 1, true, 0, Some(20)),
        entry("a/b/target", 2, true, 0, Some(10)),
        entry("a/b/target/only", 3, false, 51_200, None),
        entry("a/.git", 1, true, 0, Some(5)),
        entry("a/.git/config", 2, false, 100, None),
    ]
}

fn criteria(targets: &[&str], excludes: &[&str], min_size: Option<u64>) -> FilterCriteria {
    FilterCriteria {
        targets: strings(targets),
        excludes: strings(excludes),
        max_depth: None,
        min_size,
        min_age: None,
        follow_symlinks: false,
    }
}

#[test]
fn scenario_min_size_floor() {
    // a/node_modules holds 5 files of 2 MB in total, a/b/target one file of
    // 50 KB, and a/.git is excluded: only a/node_modules clears the 1 MB
    // floor.
    let entries = sample_tree();
    let c = criteria(&["node_modules", "target"], &[".git"], Some(1_048_576));
    let r = find_directories(&entries, &c);
    assert_eq!(r.len(), 1);
    assert_eq!(r[0].path, "a/node_modules");
    assert_eq!(r[0].size_bytes, 2_097_152);
    assert_eq!(r[0].item_count, Some(6));
    assert_eq!(r[0].age_days, Some(30));
}

#[test]
fn results_sorted_by_descending_size() {
    let entries = sample_tree();
    let c = criteria(&["node_modules", "target"], &[".git"], None);
    let r = find_directories(&entries, &c);
    assert_eq!(r.len(), 2);
    assert_eq!(r[0].path, "a/node_modules");
    assert_eq!(r[1].path, "a/b/target");
    assert!(r[0].size_bytes >= r[1].size_bytes);
}

#[test]
fn no_result_carries_an_exclude_substring() {
    let entries = sample_tree();
    let c = criteria(&["node_modules", "target", ".git"], &[".git", "target"], None);
    let r = find_directories(&entries, &c);
    for d in &r {
        assert!(!d.path.contains(".git"));
        assert!(!d.path.contains("target"));
    }
    assert_eq!(r.len(), 1);
    assert_eq!(r[0].path, "a/node_modules");
}

#[test]
fn excluded_directory_hides_matching_descendants() {
    // skipme is excluded; its node_modules child matches a target but must
    // never surface: pruning is total.
    let entries = vec![
        entry("a", 0, true, 0, Some(1)),
        entry("a/skipme", 1, true, 0, Some(1)),
        entry("a/skipme/node_modules", 2, true, 0, Some(1)),
        entry("a/skipme/node_modules/f", 3, false, 10, None),
        entry("a/node_modules", 1, true, 0, Some(1)),
    ];
    let c = criteria(&["node_modules"], &["skipme"], None);
    let r = find_directories(&entries, &c);
    assert_eq!(r.len(), 1);
    assert_eq!(r[0].path, "a/node_modules");
}

#[test]
fn min_age_rejects_unknown_and_young_ages() {
    let entries = vec![
        entry("a", 0, true, 0, Some(1)),
        entry("a/old_modules", 1, true, 0, Some(90)),
        entry("a/new_modules", 1, true, 0, Some(3)),
        entry("a/odd_modules", 1, true, 0, None),
    ];
    let mut c = criteria(&["modules"], &[], None);
    c.min_age = Some(30);
    let r = find_directories(&entries, &c);
    assert_eq!(r.len(), 1);
    assert_eq!(r[0].path, "a/old_modules");
    assert_eq!(r[0].age_days, Some(90));
}

#[test]
fn depth_bound_limits_candidates_but_not_sizes() {
    let entries = vec![
        entry("a", 0, true, 0, Some(1)),
        entry("a/node_modules", 1, true, 0, Some(1)),
        entry("a/node_modules/deep_modules", 2, true, 0, Some(1)),
        entry("a/node_modules/deep_modules/f", 3, false, 7, None),
    ];
    let mut c = criteria(&["modules"], &[], None);
    c.max_depth = Some(1);
    let r = find_directories(&entries, &c);
    assert_eq!(r.len(), 1);
    assert_eq!(r[0].path, "a/node_modules");
    // The size still sums the whole subtree, below the depth bound.
    assert_eq!(r[0].size_bytes, 7);
    // A bound of zero means unlimited.
    c.max_depth = Some(0);
    let unlimited = find_directories(&entries, &c);
    assert_eq!(unlimited.len(), 2);
}

#[test]
fn omitted_subtree_leaves_other_results_alone() {
    // A snapshot that silently omits an unreadable subtree still yields the
    // readable candidates; discovery itself cannot fail.
    let full = sample_tree();
    let c = criteria(&["node_modules", "target"], &[".git"], None);
    let with_all = find_directories(&full, &c);
    let pruned: Vec<FsEntry> = sample_tree()
        .into_iter()
        .filter(|e| !e.path.starts_with("a/b"))
        .collect();
    let with_less = find_directories(&pruned, &c);
    assert_eq!(with_all.len(), 2);
    assert_eq!(with_less.len(), 1);
    assert_eq!(with_less[0].path, "a/node_modules");
    assert_eq!(with_less[0].size_bytes, with_all[0].size_bytes);
}

#[test]
fn subtree_measures() {
    let entries = sample_tree();
    assert_eq!(subtree_size(&entries, "a/node_modules"), 2_097_152);
    assert_eq!(subtree_size(&entries, "a/b"), 51_200);
    assert_eq!(subtree_count(&entries, "a/b"), 3);
    assert_eq!(subtree_count(&entries, "a"), 12);
    assert!(in_subtree_exec("a/b", "a/b/target"));
    assert!(!in_subtree_exec("a/b", "a/bc"));
}
