use dirpurge::config::{resolve_criteria, resolve_run_config, run_requested, Config};
use dirpurge::model::{days_from_seconds, DirInfo};
use dirpurge::selection::{
    parse_selection_answer, select_directories, SelectionAnswer,
};
use dirpurge::summary::summarize;

fn empty_config() -> Config {
    Config {
        target: None,
        exclude: None,
        depth: None,
        min_size_bytes: None,
        min_age: None,
        follow_symlinks: None,
        delete: None,
        yes: None,
        dry_run: None,
        use_trash: None,
        backup: None,
        archive: None,
        backup_dir: None,
        interactive: None,
        confirm_phrase: None,
    }
}

fn named(path: &str, size: u64, age: Option<i64>) -> DirInfo {
    DirInfo { path: path.to_string(), size_bytes: size, age_days: age, item_count: Some(1) }
}

#[test]
fn age_conversion_rounds_down() {
    assert_eq!(days_from_seconds(0), 0);
    assert_eq!(days_from_seconds(86_399), 0);
    assert_eq!(days_from_seconds(86_400), 1);
    assert_eq!(days_from_seconds(5 * 86_400 + 100), 5);
}

#[test]
fn selection_answers_parse_loosely() {
    assert_eq!(parse_selection_answer(" y\n"), SelectionAnswer::Yes);
    assert_eq!(parse_selection_answer("Y"), SelectionAnswer::Yes);
    assert_eq!(parse_selection_answer("a\n"), SelectionAnswer::All);
    assert_eq!(parse_selection_answer("q"), SelectionAnswer::Quit);
    assert_eq!(parse_selection_answer("n"), SelectionAnswer::No);
    assert_eq!(parse_selection_answer("yes"), SelectionAnswer::No);
    assert_eq!(parse_selection_answer(""), SelectionAnswer::No);
}

#[test]
fn selection_takes_answered_candidates() {
    let dirs = vec![
        named("a", 1, None),
        named("b", 2, None),
        named("c", 3, None),
        named("d", 4, None),
    ];
    let answers = vec![
        SelectionAnswer::Yes,
        SelectionAnswer::No,
        SelectionAnswer::All,
        SelectionAnswer::No,
    ];
    let picked = select_directories(&dirs, &answers);
    let paths: Vec<&str> = picked.iter().map(|d| d.path.as_str()).collect();
    // `All` keeps everything from its position on, later replies unread.
    assert_eq!(paths, vec!["a", "c", "d"]);
}

#[test]
fn selection_quit_stops_everything() {
    let dirs = vec![named("a", 1, None), named("b", 2, None), named("c", 3, None)];
    let answers = vec![SelectionAnswer::Yes, SelectionAnswer::Quit, SelectionAnswer::Yes];
    let picked = select_directories(&dirs, &answers);
    assert_eq!(picked.len(), 1);
    assert_eq!(picked[0].path, "a");
}

#[test]
fn summary_totals_and_age_extremes() {
    let dirs = vec![
        named("a", 1_000, Some(30)),
        named("b", 2_000, None),
        named("c", 500, Some(7)),
    ];
    let s = summarize(&dirs);
    assert_eq!(s.total_size_bytes, 3_500);
    assert_eq!(s.count, 3);
    assert_eq!(s.oldest_days, Some(30));
    assert_eq!(s.newest_days, Some(7));
    let none = summarize(&Vec::new());
    assert_eq!(none.total_size_bytes, 0);
    assert_eq!(none.count, 0);
    assert_eq!(none.oldest_days, None);
    assert_eq!(none.newest_days, None);
}

#[test]
fn defaults_fill_unset_options() {
    let cfg = empty_config();
    let criteria = resolve_criteria(&cfg);
    let names: Vec<&str> = criteria.targets.iter().map(|s| s.as_str()).collect();
    assert_eq!(names, vec!["venv", ".venv", "node_modules"]);
    assert!(criteria.excludes.is_empty());
    assert_eq!(criteria.max_depth, None);
    assert!(!criteria.follow_symlinks);
    let run = resolve_run_config(&cfg);
    assert!(!run.dry_run);
    assert!(run.use_trash);
    assert!(!run.backup);
    assert!(!run.archive);
    assert!(!run.yes);
    assert_eq!(run.backup_dir, Some("./backups".to_string()));
    assert_eq!(run.confirm_phrase, "DELETE");
}

#[test]
fn pipeline_runs_only_when_asked() {
    let mut cfg = empty_config();
    assert!(!run_requested(&cfg));
    cfg.dry_run = Some(true);
    assert!(run_requested(&cfg));
    cfg.dry_run = None;
    cfg.delete = Some(true);
    assert!(run_requested(&cfg));
    cfg.delete = Some(false);
    assert!(!run_requested(&cfg));
}

#[test]
fn set_options_override_defaults() {
    let mut cfg = empty_config();
    cfg.target = Some(vec!["build".to_string()]);
    cfg.use_trash = Some(false);
    cfg.confirm_phrase = Some("purge it".to_string());
    cfg.backup_dir = Some("/tmp/saved".to_string());
    let criteria = resolve_criteria(&cfg);
    assert_eq!(criteria.targets.len(), 1);
    assert_eq!(criteria.targets[0], "build");
    let run = resolve_run_config(&cfg);
    assert!(!run.use_trash);
    assert_eq!(run.confirm_phrase, "purge it");
    assert_eq!(run.backup_dir, Some("/tmp/saved".to_string()));
}
