//! Data model: one discovered candidate directory, one raw filesystem entry
//! as the traversal reports it, and the filter criteria of a discovery pass.

use vstd::prelude::*;

verus! {

/// One matched subtree: a snapshot taken at discovery time.
pub struct DirInfo {
    /// Full path of the directory.
    pub path: String,
    /// Recursive sum of regular-file lengths under the subtree (saturating).
    pub size_bytes: u64,
    /// Whole days since last modification; `None` when the modification time
    /// could not be read.
    pub age_days: Option<i64>,
    /// Count of all entries under the subtree, the directory itself included.
    pub item_count: Option<usize>,
}

/// The mathematical value of a `DirInfo`: its path as a character sequence.
pub struct DirInfoModel {
    pub path: Seq<char>,
    pub size_bytes: u64,
    pub age_days: Option<i64>,
    pub item_count: Option<usize>,
}

impl View for DirInfo {
    type V = DirInfoModel;

    open spec fn view(&self) -> DirInfoModel {
        DirInfoModel {
            path: self.path@,
            size_bytes: self.size_bytes,
            age_days: self.age_days,
            item_count: self.item_count,
        }
    }
}

impl DirInfo {
    /// A field-for-field copy.
    pub fn duplicate(&self) -> (r: DirInfo)
        ensures
            r@ == self@,
    {
        DirInfo {
            path: self.path.clone(),
            size_bytes: self.size_bytes,
            age_days: self.age_days,
            item_count: self.item_count,
        }
    }
}

/// The views of a list of candidates.
pub open spec fn dir_views(s: Seq<DirInfo>) -> Seq<DirInfoModel> {
    s.map_values(|d: DirInfo| d@)
}

/// One entry of the traversal's snapshot of the tree under the base path,
/// handed to discovery as plain values.
pub struct FsEntry {
    /// Full path of the entry.
    pub path: String,
    /// Basename of the entry.
    pub name: String,
    /// Depth below the base path; the base itself has depth 0.
    pub depth: usize,
    /// Whether the entry is a directory.
    pub is_dir: bool,
    /// Length in bytes for a regular file; 0 for a directory or any other
    /// kind of entry.
    pub file_size: u64,
    /// Whole days since last modification; `None` when unreadable.
    pub age_days: Option<i64>,
}

/// Immutable parameters of one discovery pass.
pub struct FilterCriteria {
    /// Name substrings to match: a directory qualifies when its basename
    /// contains at least one of them.
    pub targets: Vec<String>,
    /// Path substrings to exclude: a directory whose full path contains one
    /// is pruned together with its whole subtree.
    pub excludes: Vec<String>,
    /// Maximum traversal depth; `None` or `Some(0)` means unlimited.
    pub max_depth: Option<usize>,
    /// Minimum subtree size in bytes.
    pub min_size: Option<u64>,
    /// Minimum age in days; a candidate with unreadable age never satisfies
    /// a set minimum.
    pub min_age: Option<i64>,
    /// Whether the traversal follows symbolic links (it shapes the snapshot;
    /// the filters themselves do not read it).
    pub follow_symlinks: bool,
}

/// Converts an elapsed time in whole seconds to whole days.
pub fn days_from_seconds(secs: u64) -> (r: i64)
    requires
        secs <= i64::MAX,
    ensures
        r == secs as int / 86400,
{
    (secs as i64) / 86400
}

} // verus!
