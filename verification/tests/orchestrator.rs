use dirpurge::model::DirInfo;
use dirpurge::orchestrator::{
    drive_all_deletions, drive_preserving_run, Action, Orchestrator, Progress, RunConfig,
    RunStatus,
};

fn dirs_two() -> Vec<DirInfo> {
    vec![
        DirInfo {
            path: "a/node_modules".to_string(),
            size_bytes: 2_097_152,
            age_days: Some(30),
            item_count: Some(6),
        },
        DirInfo {
            path: "a/b/target".to_string(),
            size_bytes: 51_200,
            age_days: Some(10),
            item_count: Some(2),
        },
    ]
}

fn cfg_base() -> RunConfig {
    RunConfig {
        dry_run: false,
        use_trash: true,
        backup: false,
        archive: false,
        backup_dir: Some("./backups".to_string()),
        interactive: false,
        yes: true,
        confirm_phrase: "DELETE".to_string(),
    }
}

#[test]
fn wrong_phrase_cancels_before_anything_happens() {
    let mut cfg = cfg_base();
    cfg.yes = false;
    let mut o = Orchestrator::new(dirs_two(), cfg);
    assert_eq!(o.next_action(), Action::AskBulkPhrase);
    o.bulk_confirm("delete\n");
    assert_eq!(o.status, RunStatus::Cancelled);
    assert_eq!(o.next_action(), Action::Finished);
    assert!(o.processed.is_empty());
    assert!(o.preserved.is_empty());
    assert!(o.progress.iter().all(|p| *p == Progress::Selected));
}

#[test]
fn matching_phrase_opens_the_gate_up_to_blanks() {
    let mut cfg = cfg_base();
    cfg.yes = false;
    let mut o = Orchestrator::new(dirs_two(), cfg);
    o.bulk_confirm("  DELETE\n");
    assert_eq!(o.status, RunStatus::Running);
    assert_eq!(o.next_action(), Action::DoDelete(0, true));
}

#[test]
fn custom_phrase_is_compared_exactly() {
    let mut cfg = cfg_base();
    cfg.yes = false;
    cfg.confirm_phrase = "purge it".to_string();
    let mut o = Orchestrator::new(dirs_two(), cfg);
    o.bulk_confirm("purge it\n");
    assert_eq!(o.status, RunStatus::Running);
}

#[test]
fn dry_run_processes_everything_without_actions() {
    let mut cfg = cfg_base();
    cfg.dry_run = true;
    let o = Orchestrator::new(dirs_two(), cfg);
    assert_eq!(o.status, RunStatus::Completed);
    assert_eq!(o.next_action(), Action::Finished);
    assert_eq!(o.processed, vec!["a/node_modules".to_string(), "a/b/target".to_string()]);
    assert!(o.preserved.is_empty());
    assert!(o.progress.iter().all(|p| *p == Progress::Deleted));
}

#[test]
fn dry_run_reports_what_a_real_run_would_process() {
    let mut dry = cfg_base();
    dry.dry_run = true;
    let simulated = Orchestrator::new(dirs_two(), dry);
    let real = drive_all_deletions(dirs_two(), cfg_base());
    assert_eq!(real.status, RunStatus::Completed);
    assert_eq!(simulated.processed, real.processed);
}

#[test]
fn preservation_precedes_deletion_and_is_recorded() {
    let mut cfg = cfg_base();
    cfg.backup = true;
    let mut o = Orchestrator::new(dirs_two(), cfg);
    assert_eq!(o.next_action(), Action::DoPreserve(0, false));
    o.preservation_succeeded("./backups/node_modules".to_string());
    assert_eq!(o.next_action(), Action::DoDelete(0, true));
    o.deletion_succeeded();
    assert_eq!(o.next_action(), Action::DoPreserve(1, false));
    o.preservation_succeeded("./backups/target".to_string());
    o.deletion_succeeded();
    assert_eq!(o.status, RunStatus::Completed);
    let outcome = o.into_outcome();
    assert_eq!(
        outcome.processed,
        vec!["a/node_modules".to_string(), "a/b/target".to_string()]
    );
    assert_eq!(
        outcome.preserved,
        vec!["./backups/node_modules".to_string(), "./backups/target".to_string()]
    );
}

#[test]
fn preserving_run_keeps_one_backup_per_candidate() {
    let mut cfg = cfg_base();
    cfg.backup = true;
    let backups = vec!["./backups/node_modules".to_string(), "./backups/target".to_string()];
    let o = drive_preserving_run(dirs_two(), cfg, backups.clone());
    assert_eq!(o.status, RunStatus::Completed);
    assert_eq!(o.preserved, backups);
    assert_eq!(o.processed, vec!["a/node_modules".to_string(), "a/b/target".to_string()]);
}

#[test]
fn archive_mode_wins_over_backup() {
    let mut cfg = cfg_base();
    cfg.backup = true;
    cfg.archive = true;
    let o = Orchestrator::new(dirs_two(), cfg);
    assert_eq!(o.next_action(), Action::DoPreserve(0, true));
}

#[test]
fn preservation_failure_aborts_the_whole_run() {
    let mut cfg = cfg_base();
    cfg.archive = true;
    let mut o = Orchestrator::new(dirs_two(), cfg);
    o.preservation_failed("archive failed: disk full".to_string());
    assert_eq!(o.status, RunStatus::Aborted);
    assert_eq!(o.failure, Some("archive failed: disk full".to_string()));
    assert_eq!(o.progress[0], Progress::Failed);
    assert_eq!(o.progress[1], Progress::Selected);
    assert!(o.processed.is_empty());
    assert!(o.preserved.is_empty());
    assert_eq!(o.next_action(), Action::Finished);
}

#[test]
fn deletion_failure_aborts_and_keeps_earlier_work() {
    let mut o = Orchestrator::new(dirs_two(), cfg_base());
    o.deletion_succeeded();
    o.deletion_failed("trash failed".to_string());
    assert_eq!(o.status, RunStatus::Aborted);
    assert_eq!(o.processed, vec!["a/node_modules".to_string()]);
    assert_eq!(o.progress[0], Progress::Deleted);
    assert_eq!(o.progress[1], Progress::Failed);
}

#[test]
fn declined_item_is_skipped_for_good() {
    let mut cfg = cfg_base();
    cfg.interactive = true;
    let mut o = Orchestrator::new(dirs_two(), cfg);
    assert_eq!(o.next_action(), Action::AskItemConfirm(0));
    o.item_confirmed(false);
    assert_eq!(o.progress[0], Progress::Skipped);
    assert_eq!(o.next_action(), Action::AskItemConfirm(1));
    o.item_confirmed(true);
    assert_eq!(o.next_action(), Action::DoDelete(1, true));
    o.deletion_succeeded();
    assert_eq!(o.status, RunStatus::Completed);
    assert_eq!(o.processed, vec!["a/b/target".to_string()]);
}

#[test]
fn empty_selection_completes_at_once() {
    let o = Orchestrator::new(Vec::new(), cfg_base());
    assert_eq!(o.status, RunStatus::Completed);
    assert!(o.processed.is_empty());
}

#[test]
fn permanent_deletion_is_requested_without_trash() {
    let mut cfg = cfg_base();
    cfg.use_trash = false;
    let o = Orchestrator::new(dirs_two(), cfg);
    assert_eq!(o.next_action(), Action::DoDelete(0, false));
}
