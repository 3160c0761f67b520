//! Deletion orchestrator: a state machine that sequences the bulk
//! confirmation gate, per-item confirmation, preservation and deletion for
//! each selected candidate. The machine only decides; whoever drives it
//! performs the filesystem work and reports each outcome back. A failure of
//! preservation or deletion aborts the whole run; in simulate-only mode no
//! destructive step is ever requested.

use vstd::prelude::*;
use vstd::pervasive::VecAdditionalExecFns;
use crate::model::DirInfo;
use crate::strutil::{str_eq, trim_blank, trim_spec};

verus! {

/// Settings of one deletion run.
pub struct RunConfig {
    /// Simulate only: report what would be processed, mutate nothing.
    pub dry_run: bool,
    /// Move to recoverable trash instead of removing permanently.
    pub use_trash: bool,
    /// Copy the subtree to the backup root before deletion.
    pub backup: bool,
    /// Archive the subtree before deletion; takes precedence over `backup`.
    pub archive: bool,
    /// Destination root for backups and archives.
    pub backup_dir: Option<String>,
    /// Ask for a per-item confirmation before touching each candidate.
    pub interactive: bool,
    /// Skip the bulk confirmation gate.
    pub yes: bool,
    /// Exact phrase the operator must type at the bulk gate.
    pub confirm_phrase: String,
}

/// Where one candidate stands in its progression.
#[derive(Clone, Copy, Debug, PartialEq, Eq, Structural)]
pub enum Progress {
    Selected,
    Confirmed,
    Preserved,
    Deleted,
    Skipped,
    Failed,
}

/// Overall state of the run.
#[derive(Clone, Copy, Debug, PartialEq, Eq, Structural)]
pub enum RunStatus {
    Running,
    Completed,
    Cancelled,
    Aborted,
}

/// The next step owed to the current candidate.
#[derive(Clone, Copy, Debug, PartialEq, Eq, Structural)]
pub enum Stage {
    Confirm,
    Preserve,
    Delete,
}

/// What the driver must do next.
#[derive(Clone, Copy, Debug, PartialEq, Eq, Structural)]
pub enum Action {
    /// Ask the operator for the bulk confirmation phrase.
    AskBulkPhrase,
    /// Ask whether the candidate at this index may be deleted.
    AskItemConfirm(usize),
    /// Preserve the candidate at this index; `true` means archive mode.
    DoPreserve(usize, bool),
    /// Delete the candidate at this index; `true` means move to trash.
    DoDelete(usize, bool),
    /// The run is over; nothing remains to be done.
    Finished,
}

/// Per-item confirmation is asked only in interactive, non-simulated runs.
pub open spec fn needs_item_confirm(cfg: RunConfig) -> bool {
    cfg.interactive && !cfg.dry_run
}

/// Preservation happens when requested, a destination root is configured,
/// and the run is not simulated.
pub open spec fn needs_preservation(cfg: RunConfig) -> bool {
    (cfg.backup || cfg.archive) && cfg.backup_dir is Some && !cfg.dry_run
}

/// The first step owed to a fresh candidate.
pub open spec fn first_stage(cfg: RunConfig) -> Stage {
    if needs_item_confirm(cfg) {
        Stage::Confirm
    } else if needs_preservation(cfg) {
        Stage::Preserve
    } else {
        Stage::Delete
    }
}

/// The paths of a candidate list, in order.
pub open spec fn candidate_paths(dirs: Seq<DirInfo>) -> Seq<Seq<char>> {
    dirs.map_values(|d: DirInfo| d.path@)
}

/// The recorded processed paths, as character sequences.
pub open spec fn processed_view(o: Orchestrator) -> Seq<Seq<char>> {
    o.processed@.map_values(|s: String| s@)
}

/// The deletion pipeline's state over one selected candidate list.
pub struct Orchestrator {
    /// Settings of the run.
    pub cfg: RunConfig,
    /// The selected candidates, processed strictly in order.
    pub dirs: Vec<DirInfo>,
    /// Whether the bulk confirmation gate has been passed.
    pub gate_passed: bool,
    /// Overall state.
    pub status: RunStatus,
    /// Index of the candidate currently being worked on.
    pub idx: usize,
    /// The step owed to that candidate.
    pub stage: Stage,
    /// Terminal or intermediate state of every candidate.
    pub progress: Vec<Progress>,
    /// Paths of the preservation outputs, in order of creation.
    pub preserved: Vec<String>,
    /// Paths recorded as processed (deleted, or simulated as deleted).
    pub processed: Vec<String>,
    /// The message of the failure that aborted the run, if one did.
    pub failure: Option<String>,
}

impl Orchestrator {
    /// Internal consistency of the machine.
    pub open spec fn wf(self) -> bool {
        &&& self.progress@.len() == self.dirs@.len()
        &&& (self.status is Running && self.gate_passed ==> self.idx < self.dirs@.len()
            && !self.cfg.dry_run)
        &&& (self.status is Running && !self.gate_passed ==> !self.cfg.yes && self.untouched())
        &&& (self.cfg.dry_run ==> self.preserved@.len() == 0)
        &&& (self.status is Running && self.gate_passed && self.stage is Confirm
            ==> needs_item_confirm(self.cfg))
        &&& (self.status is Running && self.gate_passed && self.stage is Preserve
            ==> needs_preservation(self.cfg))
    }

    /// No candidate has been touched and nothing has been recorded.
    pub open spec fn untouched(self) -> bool {
        &&& self.processed@.len() == 0
        &&& self.preserved@.len() == 0
        &&& forall|i: int| 0 <= i < self.progress@.len() ==> self.progress@[i] is Selected
    }

    /// The state right after the bulk gate opens: a simulated run completes
    /// at once, recording every candidate as processed; an empty list
    /// completes with nothing recorded; otherwise work starts on the first
    /// candidate.
    pub open spec fn gate_opened(self, dirs: Seq<DirInfo>, cfg: RunConfig) -> bool {
        &&& self.dirs@ == dirs
        &&& self.cfg == cfg
        &&& self.preserved@.len() == 0
        &&& self.failure is None
        &&& if cfg.dry_run {
            &&& self.status is Completed
            &&& processed_view(self) == candidate_paths(dirs)
            &&& forall|i: int| 0 <= i < self.progress@.len() ==> self.progress@[i] is Deleted
        } else if dirs.len() == 0 {
            &&& self.status is Completed
            &&& self.processed@.len() == 0
        } else {
            &&& self.status is Running
            &&& self.gate_passed
            &&& self.idx == 0
            &&& self.stage == first_stage(cfg)
            &&& self.untouched()
        }
    }

    /// What the driver must do next.
    pub open spec fn spec_next_action(self) -> Action {
        if self.status is Running {
            if !self.gate_passed {
                Action::AskBulkPhrase
            } else {
                match self.stage {
                    Stage::Confirm => Action::AskItemConfirm(self.idx),
                    Stage::Preserve => Action::DoPreserve(self.idx, self.cfg.archive),
                    Stage::Delete => Action::DoDelete(self.idx, self.cfg.use_trash),
                }
            }
        } else {
            Action::Finished
        }
    }

    /// Starts a run over the selected candidates. When `yes` is set, work
    /// begins at once; otherwise the first action asks the operator for the
    /// confirmation phrase.
    pub fn new(dirs: Vec<DirInfo>, cfg: RunConfig) -> (r: Orchestrator)
        ensures
            r.wf(),
            r.dirs@ == dirs@,
            r.cfg == cfg,
            r.failure is None,
            !cfg.yes ==> r.status is Running && !r.gate_passed && r.untouched()
                && r.failure is None,
            cfg.yes ==> r.gate_opened(dirs@, cfg),
    {
        let n = dirs.len();
        let mut progress: Vec<Progress> = Vec::new();
        let mut k: usize = 0;
        while k < n
            invariant
                k <= n,
                progress@.len() == k,
                forall|i: int| 0 <= i < k ==> progress@[i] is Selected,
            decreases n - k,
        {
            progress.push(Progress::Selected);
            k += 1;
        }
        let skip_gate = cfg.yes;
        let mut o = Orchestrator {
            cfg,
            dirs,
            gate_passed: false,
            status: RunStatus::Running,
            idx: 0,
            stage: Stage::Delete,
            progress,
            preserved: Vec::new(),
            processed: Vec::new(),
            failure: Option::None,
        };
        if skip_gate {
            o.open_gate();
        }
        o
    }

    /// Lets the run proceed: completes a simulated or empty run, or begins
    /// work on the first candidate.
    fn open_gate(&mut self)
        requires
            old(self).status is Running,
            !old(self).gate_passed,
            old(self).untouched(),
            old(self).progress@.len() == old(self).dirs@.len(),
            old(self).failure is None,
        ensures
            final(self).wf(),
            final(self).gate_opened(old(self).dirs@, old(self).cfg),
    {
        self.gate_passed = true;
        if self.cfg.dry_run {
            let ghost all = self.dirs@;
            let n = self.dirs.len();
            let mut k: usize = 0;
            while k < n
                invariant
                    k <= n,
                    n == self.dirs@.len(),
                    self.dirs@ == all,
                    self.cfg == old(self).cfg,
                    self.gate_passed,
                    self.status == old(self).status,
                    self.failure is None,
                    self.preserved@.len() == 0,
                    self.progress@.len() == n,
                    self.processed@.len() == k,
                    processed_view(*self) == candidate_paths(all.take(k as int)),
                    forall|i: int| 0 <= i < k ==> self.progress@[i] is Deleted,
                decreases n - k,
            {
                let ghost before = self.processed@;
                let p = self.dirs[k].path.clone();
                self.processed.push(p);
                self.progress.set(k, Progress::Deleted);
                proof {
                    assert(processed_view(*self) =~= before.map_values(|s: String| s@).push(
                        all[k as int].path@,
                    ));
                    assert(candidate_paths(all.take(k + 1)) =~= candidate_paths(
                        all.take(k as int),
                    ).push(all[k as int].path@));
                }
                k += 1;
            }
            proof {
                assert(all.take(n as int) =~= all);
            }
            self.status = RunStatus::Completed;
        } else if self.dirs.len() == 0 {
            self.status = RunStatus::Completed;
        } else {
            self.idx = 0;
            self.stage = first_stage_exec(&self.cfg);
        }
    }

    /// The next step owed by the driver. In simulate-only mode this is never
    /// a preservation and never a deletion.
    pub fn next_action(&self) -> (r: Action)
        requires
            self.wf(),
        ensures
            r == self.spec_next_action(),
            self.cfg.dry_run ==> !(r is DoPreserve) && !(r is DoDelete),
    {
        if !matches!(self.status, RunStatus::Running) {
            Action::Finished
        } else if !self.gate_passed {
            Action::AskBulkPhrase
        } else {
            match self.stage {
                Stage::Confirm => Action::AskItemConfirm(self.idx),
                Stage::Preserve => Action::DoPreserve(self.idx, self.cfg.archive),
                Stage::Delete => Action::DoDelete(self.idx, self.cfg.use_trash),
            }
        }
    }

    /// Answers the bulk confirmation prompt with the operator's reply. Only
    /// the configured phrase, up to surrounding blanks, lets the run
    /// proceed; any other reply cancels it before anything is touched.
    pub fn bulk_confirm(&mut self, reply: &str)
        requires
            old(self).wf(),
            old(self).spec_next_action() is AskBulkPhrase,
            old(self).failure is None,
        ensures
            final(self).wf(),
            final(self).dirs@ == old(self).dirs@,
            final(self).cfg == old(self).cfg,
            trim_spec(reply@) == old(self).cfg.confirm_phrase@ ==> final(self).gate_opened(
                old(self).dirs@,
                old(self).cfg,
            ),
            trim_spec(reply@) != old(self).cfg.confirm_phrase@ ==> final(self).status
                is Cancelled && final(self).untouched() && final(self).failure is None,
    {
        let trimmed = trim_blank(reply);
        if str_eq(trimmed, self.cfg.confirm_phrase.as_str()) {
            self.open_gate();
        } else {
            self.status = RunStatus::Cancelled;
        }
    }

    /// Moves past the current candidate: on to the next one, or completion.
    fn advance(&mut self)
        requires
            old(self).wf(),
            old(self).status is Running,
            old(self).gate_passed,
        ensures
            final(self).wf(),
            final(self).dirs@ == old(self).dirs@,
            final(self).cfg == old(self).cfg,
            final(self).progress@ == old(self).progress@,
            final(self).processed@ == old(self).processed@,
            final(self).preserved@ == old(self).preserved@,
            final(self).failure == old(self).failure,
            final(self).idx == old(self).idx + 1,
            old(self).idx + 1 == old(self).dirs@.len() ==> final(self).status is Completed,
            old(self).idx + 1 < old(self).dirs@.len() ==> final(self).status is Running
                && final(self).gate_passed && final(self).stage == first_stage(final(self).cfg),
    {
        let n = self.dirs.len();
        self.idx = self.idx + 1;
        if self.idx < n {
            self.stage = first_stage_exec(&self.cfg);
        } else {
            self.status = RunStatus::Completed;
        }
    }

    /// Records the operator's per-item reply. Approval moves the candidate
    /// on to preservation or deletion; anything else skips it for good, and
    /// it is never recorded as processed.
    pub fn item_confirmed(&mut self, approve: bool)
        requires
            old(self).wf(),
            old(self).spec_next_action() is AskItemConfirm,
        ensures
            final(self).wf(),
            final(self).dirs@ == old(self).dirs@,
            final(self).cfg == old(self).cfg,
            final(self).processed@ == old(self).processed@,
            final(self).preserved@ == old(self).preserved@,
            final(self).failure == old(self).failure,
            approve ==> final(self).progress@ == old(self).progress@.update(
                old(self).idx as int,
                Progress::Confirmed,
            ) && final(self).status is Running && final(self).gate_passed && final(self).idx
                == old(self).idx && final(self).stage == (if needs_preservation(old(self).cfg) {
                Stage::Preserve
            } else {
                Stage::Delete
            }),
            !approve ==> final(self).progress@ == old(self).progress@.update(
                old(self).idx as int,
                Progress::Skipped,
            ) && final(self).idx == old(self).idx + 1 && (old(self).idx + 1 == old(
                self,
            ).dirs@.len() ==> final(self).status is Completed) && (old(self).idx + 1 < old(
                self,
            ).dirs@.len() ==> final(self).status is Running && final(self).stage == first_stage(
                old(self).cfg,
            )),
    {
        let i = self.idx;
        if approve {
            self.progress.set(i, Progress::Confirmed);
            if needs_preservation_exec(&self.cfg) {
                self.stage = Stage::Preserve;
            } else {
                self.stage = Stage::Delete;
            }
        } else {
            self.progress.set(i, Progress::Skipped);
            self.advance();
        }
    }

    /// Records a successful preservation and its output path; the candidate
    /// moves on to deletion.
    pub fn preservation_succeeded(&mut self, backup_path: String)
        requires
            old(self).wf(),
            old(self).spec_next_action() is DoPreserve,
        ensures
            final(self).wf(),
            final(self).dirs@ == old(self).dirs@,
            final(self).cfg == old(self).cfg,
            final(self).processed@ == old(self).processed@,
            final(self).preserved@ == old(self).preserved@.push(backup_path),
            final(self).failure == old(self).failure,
            final(self).status is Running && final(self).gate_passed,
            final(self).idx == old(self).idx,
            final(self).stage is Delete,
            final(self).progress@ == old(self).progress@.update(
                old(self).idx as int,
                Progress::Preserved,
            ),
    {
        let i = self.idx;
        self.preserved.push(backup_path);
        self.progress.set(i, Progress::Preserved);
        self.stage = Stage::Delete;
    }

    /// Records a failed preservation: the run aborts at once, the candidate
    /// is marked failed, and nothing of it is deleted or recorded as
    /// processed.
    pub fn preservation_failed(&mut self, message: String)
        requires
            old(self).wf(),
            old(self).spec_next_action() is DoPreserve,
        ensures
            final(self).wf(),
            final(self).dirs@ == old(self).dirs@,
            final(self).cfg == old(self).cfg,
            final(self).processed@ == old(self).processed@,
            final(self).preserved@ == old(self).preserved@,
            final(self).status is Aborted,
            final(self).failure == Option::Some(message),
            final(self).progress@ == old(self).progress@.update(
                old(self).idx as int,
                Progress::Failed,
            ),
    {
        let i = self.idx;
        self.progress.set(i, Progress::Failed);
        self.failure = Option::Some(message);
        self.status = RunStatus::Aborted;
    }

    /// Records a successful deletion: the candidate's path is appended to
    /// the processed list and work moves to the next candidate.
    pub fn deletion_succeeded(&mut self)
        requires
            old(self).wf(),
            old(self).spec_next_action() is DoDelete,
        ensures
            final(self).wf(),
            final(self).dirs@ == old(self).dirs@,
            final(self).cfg == old(self).cfg,
            final(self).preserved@ == old(self).preserved@,
            final(self).failure == old(self).failure,
            processed_view(*final(self)) == processed_view(*old(self)).push(
                old(self).dirs@[old(self).idx as int].path@,
            ),
            final(self).progress@ == old(self).progress@.update(
                old(self).idx as int,
                Progress::Deleted,
            ),
            final(self).idx == old(self).idx + 1,
            old(self).idx + 1 == old(self).dirs@.len() ==> final(self).status is Completed,
            old(self).idx + 1 < old(self).dirs@.len() ==> final(self).status is Running
                && final(self).gate_passed && final(self).stage == first_stage(old(self).cfg),
    {
        let i = self.idx;
        let ghost before = self.processed@;
        let p = self.dirs[i].path.clone();
        self.processed.push(p);
        self.progress.set(i, Progress::Deleted);
        proof {
            assert(processed_view(*self) =~= before.map_values(|s: String| s@).push(
                self.dirs@[i as int].path@,
            ));
        }
        self.advance();
    }

    /// Records a failed deletion: the run aborts at once; the path is not
    /// recorded as processed, and no later candidate is touched.
    pub fn deletion_failed(&mut self, message: String)
        requires
            old(self).wf(),
            old(self).spec_next_action() is DoDelete,
        ensures
            final(self).wf(),
            final(self).dirs@ == old(self).dirs@,
            final(self).cfg == old(self).cfg,
            final(self).processed@ == old(self).processed@,
            final(self).preserved@ == old(self).preserved@,
            final(self).status is Aborted,
            final(self).failure == Option::Some(message),
            final(self).progress@ == old(self).progress@.update(
                old(self).idx as int,
                Progress::Failed,
            ),
    {
        let i = self.idx;
        self.progress.set(i, Progress::Failed);
        self.failure = Option::Some(message);
        self.status = RunStatus::Aborted;
    }

    /// Hands out the run's results: the processed paths and the
    /// preservation output paths.
    pub fn into_outcome(self) -> (r: RunOutcome)
        ensures
            r.processed@ == self.processed@,
            r.preserved@ == self.preserved@,
    {
        RunOutcome { processed: self.processed, preserved: self.preserved }
    }
}

/// Aggregate result of a run: paths successfully processed and preservation
/// output paths.
pub struct RunOutcome {
    pub processed: Vec<String>,
    pub preserved: Vec<String>,
}

/// Whether per-item confirmation is owed under these settings.
pub fn needs_item_confirm_exec(cfg: &RunConfig) -> (r: bool)
    ensures
        r == needs_item_confirm(*cfg),
{
    cfg.interactive && !cfg.dry_run
}

/// Whether preservation is owed under these settings.
pub fn needs_preservation_exec(cfg: &RunConfig) -> (r: bool)
    ensures
        r == needs_preservation(*cfg),
{
    (cfg.backup || cfg.archive) && cfg.backup_dir.is_some() && !cfg.dry_run
}

/// The first step owed to a fresh candidate under these settings.
pub fn first_stage_exec(cfg: &RunConfig) -> (r: Stage)
    ensures
        r == first_stage(*cfg),
{
    if needs_item_confirm_exec(cfg) {
        Stage::Confirm
    } else if needs_preservation_exec(cfg) {
        Stage::Preserve
    } else {
        Stage::Delete
    }
}

/// In simulate-only mode the machine never asks for a preservation or a
/// deletion, and no preservation output ever exists.
pub proof fn lemma_simulation_never_destroys(o: Orchestrator)
    requires
        o.wf(),
        o.cfg.dry_run,
    ensures
        !(o.spec_next_action() is DoPreserve),
        !(o.spec_next_action() is DoDelete),
        o.preserved@.len() == 0,
{
}

/// A destructive run in which every deletion succeeds processes exactly the
/// candidate paths, in order — the same list a simulate-only run over the
/// same candidates reports.
pub fn drive_all_deletions(dirs: Vec<DirInfo>, cfg: RunConfig) -> (r: Orchestrator)
    requires
        cfg.yes,
        !cfg.dry_run,
        !cfg.interactive,
        !((cfg.backup || cfg.archive) && cfg.backup_dir is Some),
    ensures
        r.status is Completed,
        processed_view(r) == candidate_paths(dirs@),
        r.preserved@.len() == 0,
{
    let ghost all = dirs@;
    let mut o = Orchestrator::new(dirs, cfg);
    proof {
        assert(candidate_paths(all.take(0)) =~= Seq::<Seq<char>>::empty());
        if o.status is Running {
            assert(processed_view(o) =~= Seq::<Seq<char>>::empty());
        } else {
            assert(processed_view(o) =~= candidate_paths(all));
        }
    }
    loop
        invariant
            o.wf(),
            o.dirs@ == all,
            !o.cfg.dry_run,
            !o.cfg.interactive,
            !((o.cfg.backup || o.cfg.archive) && o.cfg.backup_dir is Some),
            o.preserved@.len() == 0,
            o.status is Running ==> o.gate_passed && o.stage is Delete && processed_view(o)
                == candidate_paths(all.take(o.idx as int)),
            o.status is Completed ==> processed_view(o) == candidate_paths(all),
            !(o.status is Cancelled),
            !(o.status is Aborted),
        ensures
            o.status is Completed,
        decreases all.len() - o.idx,
    {
        let ghost before_idx = o.idx as int;
        match o.next_action() {
            Action::DoDelete(_, _) => {
                o.deletion_succeeded();
                proof {
                    assert(candidate_paths(all.take(before_idx + 1)) =~= candidate_paths(
                        all.take(before_idx),
                    ).push(all[before_idx].path@));
                    if o.status is Completed {
                        assert(all.take(before_idx + 1) =~= all);
                    }
                }
            },
            _ => {
                break ;
            },
        }
    }
    o
}

/// A preserving run in which every preservation and every deletion succeeds
/// preserves each candidate exactly once, in order, before its deletion, and
/// processes every candidate path.
pub fn drive_preserving_run(dirs: Vec<DirInfo>, cfg: RunConfig, backups: Vec<String>) -> (r:
    Orchestrator)
    requires
        cfg.yes,
        !cfg.dry_run,
        !cfg.interactive,
        cfg.backup || cfg.archive,
        cfg.backup_dir is Some,
        backups@.len() == dirs@.len(),
    ensures
        r.status is Completed,
        processed_view(r) == candidate_paths(dirs@),
        r.preserved@ == backups@,
{
    let ghost all = dirs@;
    let ghost bks = backups@;
    let mut rest = backups;
    let mut o = Orchestrator::new(dirs, cfg);
    proof {
        assert(candidate_paths(all.take(0)) =~= Seq::<Seq<char>>::empty());
        assert(bks.take(0) =~= Seq::<String>::empty());
        assert(bks.skip(0) =~= bks);
        if o.status is Running {
            assert(processed_view(o) =~= Seq::<Seq<char>>::empty());
        } else {
            assert(all.len() == 0);
            assert(processed_view(o) =~= candidate_paths(all));
            assert(o.preserved@ =~= bks);
        }
    }
    loop
        invariant
            o.wf(),
            o.dirs@ == all,
            bks.len() == all.len(),
            !o.cfg.dry_run,
            !o.cfg.interactive,
            o.cfg.backup || o.cfg.archive,
            o.cfg.backup_dir is Some,
            o.status is Running ==> o.gate_passed && processed_view(o) == candidate_paths(
                all.take(o.idx as int),
            ),
            o.status is Running && o.stage is Preserve ==> rest@ == bks.skip(o.idx as int)
                && o.preserved@ == bks.take(o.idx as int),
            o.status is Running && o.stage is Delete ==> rest@ == bks.skip(o.idx + 1)
                && o.preserved@ == bks.take(o.idx + 1),
            o.status is Running ==> !(o.stage is Confirm),
            o.status is Completed ==> processed_view(o) == candidate_paths(all) && o.preserved@
                == bks,
            !(o.status is Cancelled),
            !(o.status is Aborted),
        ensures
            o.status is Completed,
        decreases 2 * (all.len() - o.idx) + (if o.stage is Preserve {
            1int
        } else {
            0
        }),
    {
        let ghost before_idx = o.idx as int;
        match o.next_action() {
            Action::DoPreserve(_, _) => {
                proof {
                    assert(rest@.len() == bks.len() - before_idx);
                }
                let b = rest.remove(0);
                proof {
                    assert(b == bks.skip(before_idx)[0]);
                    assert(b == bks[before_idx]);
                    assert(rest@ =~= bks.skip(before_idx + 1));
                }
                o.preservation_succeeded(b);
                proof {
                    assert(o.preserved@ =~= bks.take(before_idx).push(bks[before_idx]));
                    assert(o.preserved@ =~= bks.take(before_idx + 1));
                }
            },
            Action::DoDelete(_, _) => {
                o.deletion_succeeded();
                proof {
                    assert(candidate_paths(all.take(before_idx + 1)) =~= candidate_paths(
                        all.take(before_idx),
                    ).push(all[before_idx].path@));
                    if o.status is Completed {
                        assert(all.take(before_idx + 1) =~= all);
                        assert(bks.take(before_idx + 1) =~= bks);
                    }
                }
            },
            _ => {
                break ;
            },
        }
    }
    o
}

} // verus!
