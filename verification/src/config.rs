//! Configuration: the options a run can carry, each one optional so that a
//! configuration file and command-line arguments can override each other
//! outside the library, and the resolution of the missing ones to their
//! defaults.

use vstd::prelude::*;
use crate::model::FilterCriteria;
use crate::orchestrator::RunConfig;

verus! {

/// The recognized options, all optional; `None` means "not set anywhere".
pub struct Config {
    /// Name substrings to search for.
    pub target: Option<Vec<String>>,
    /// Path substrings to exclude.
    pub exclude: Option<Vec<String>>,
    /// Maximum traversal depth; 0 means unlimited.
    pub depth: Option<usize>,
    /// Minimum size in bytes (converted from the configured megabytes
    /// before it reaches the library).
    pub min_size_bytes: Option<u64>,
    /// Minimum age in days.
    pub min_age: Option<i64>,
    /// Follow symbolic links during the walk.
    pub follow_symlinks: Option<bool>,
    /// Perform the destructive action rather than scan only.
    pub delete: Option<bool>,
    /// Skip the bulk confirmation gate.
    pub yes: Option<bool>,
    /// Simulate without mutating.
    pub dry_run: Option<bool>,
    /// Move to trash rather than remove permanently.
    pub use_trash: Option<bool>,
    /// Copy each candidate to the backup root before deletion.
    pub backup: Option<bool>,
    /// Archive each candidate before deletion; wins over `backup`.
    pub archive: Option<bool>,
    /// Destination root for backups and archives.
    pub backup_dir: Option<String>,
    /// Ask per candidate.
    pub interactive: Option<bool>,
    /// The phrase the bulk gate expects.
    pub confirm_phrase: Option<String>,
}

/// Copies a list of strings.
fn clone_strings(v: &Vec<String>) -> (r: Vec<String>)
    ensures
        r@.len() == v@.len(),
        forall|i: int| 0 <= i < v@.len() ==> #[trigger] r@[i]@ == v@[i]@,
{
    let mut out: Vec<String> = Vec::new();
    let mut i: usize = 0;
    while i < v.len()
        invariant
            i <= v@.len(),
            out@.len() == i,
            forall|j: int| 0 <= j < i ==> #[trigger] out@[j]@ == v@[j]@,
        decreases v@.len() - i,
    {
        out.push(v[i].clone());
        i += 1;
    }
    out
}

/// Resolves the discovery options to filter criteria. An absent target list
/// falls back to the built-in names of common build and dependency
/// directories; an absent exclude list excludes nothing.
pub fn resolve_criteria(cfg: &Config) -> (r: FilterCriteria)
    ensures
        match cfg.target {
            Option::Some(_) => r.targets@.len() == cfg.target->0@.len() && forall|i: int|
                0 <= i < r.targets@.len() ==> #[trigger] r.targets@[i]@ == cfg.target->0@[i]@,
            Option::None => r.targets@.len() == 3 && r.targets@[0]@ == "venv"@
                && r.targets@[1]@ == ".venv"@ && r.targets@[2]@ == "node_modules"@,
        },
        match cfg.exclude {
            Option::Some(_) => r.excludes@.len() == cfg.exclude->0@.len() && forall|i: int|
                0 <= i < r.excludes@.len() ==> #[trigger] r.excludes@[i]@ == cfg.exclude->0@[i]@,
            Option::None => r.excludes@.len() == 0,
        },
        r.max_depth == cfg.depth,
        r.min_size == cfg.min_size_bytes,
        r.min_age == cfg.min_age,
        r.follow_symlinks == (cfg.follow_symlinks matches Option::Some(true)),
{
    let targets = match &cfg.target {
        Option::Some(v) => clone_strings(v),
        Option::None => {
            let mut v: Vec<String> = Vec::new();
            v.push("venv".to_owned());
            v.push(".venv".to_owned());
            v.push("node_modules".to_owned());
            v
        },
    };
    let excludes = match &cfg.exclude {
        Option::Some(v) => clone_strings(v),
        Option::None => Vec::new(),
    };
    let follow = match cfg.follow_symlinks {
        Option::Some(b) => b,
        Option::None => false,
    };
    FilterCriteria {
        targets,
        excludes,
        max_depth: cfg.depth,
        min_size: cfg.min_size_bytes,
        min_age: cfg.min_age,
        follow_symlinks: follow,
    }
}

/// Whether the deletion pipeline runs at all: only when deletion was asked
/// for, or a simulation of it; otherwise the pass only scans and reports.
pub fn run_requested(cfg: &Config) -> (r: bool)
    ensures
        r == (cfg.delete matches Option::Some(true) || cfg.dry_run matches Option::Some(true)),
{
    matches!(cfg.delete, Option::Some(true)) || matches!(cfg.dry_run, Option::Some(true))
}

/// Resolves the run options to a run configuration. Unset booleans default
/// to off, except trash, which defaults to on; an unset backup root falls
/// back to `./backups`, and an unset phrase to the fixed default.
pub fn resolve_run_config(cfg: &Config) -> (r: RunConfig)
    ensures
        r.dry_run == (cfg.dry_run matches Option::Some(true)),
        r.use_trash == !(cfg.use_trash matches Option::Some(false)),
        r.backup == (cfg.backup matches Option::Some(true)),
        r.archive == (cfg.archive matches Option::Some(true)),
        r.interactive == (cfg.interactive matches Option::Some(true)),
        r.yes == (cfg.yes matches Option::Some(true)),
        match cfg.backup_dir {
            Option::Some(_) => r.backup_dir matches Option::Some(d) && d@ == cfg.backup_dir->0@,
            Option::None => r.backup_dir matches Option::Some(d) && d@ == "./backups"@,
        },
        match cfg.confirm_phrase {
            Option::Some(_) => r.confirm_phrase@ == cfg.confirm_phrase->0@,
            Option::None => r.confirm_phrase@ == "DELETE"@,
        },
{
    let backup_dir = match &cfg.backup_dir {
        Option::Some(d) => d.clone(),
        Option::None => "./backups".to_owned(),
    };
    let confirm_phrase = match &cfg.confirm_phrase {
        Option::Some(p) => p.clone(),
        Option::None => "DELETE".to_owned(),
    };
    RunConfig {
        dry_run: matches!(cfg.dry_run, Option::Some(true)),
        use_trash: !matches!(cfg.use_trash, Option::Some(false)),
        backup: matches!(cfg.backup, Option::Some(true)),
        archive: matches!(cfg.archive, Option::Some(true)),
        backup_dir: Option::Some(backup_dir),
        interactive: matches!(cfg.interactive, Option::Some(true)),
        yes: matches!(cfg.yes, Option::Some(true)),
        confirm_phrase,
    }
}

} // verus!
