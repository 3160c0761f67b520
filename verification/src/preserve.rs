//! Preservation planning: the destination of a copy-mode backup, the file
//! name of an archive, and the name of an entry inside an archive. The
//! filesystem work itself happens outside the library; what is verified here
//! is that the chosen names never collide with an earlier preservation.

use vstd::prelude::*;
use crate::strutil::{is_prefix_exec, lemma_concat_middle, seq_is_prefix, str_eq};

verus! {

/// `name` placed directly under `root`.
pub open spec fn joined(root: Seq<char>, name: Seq<char>) -> Seq<char> {
    root + "/"@ + name
}

/// `name` with a timestamp suffix.
pub open spec fn timestamped_name(name: Seq<char>, ts: Seq<char>) -> Seq<char> {
    name + "_"@ + ts
}

/// The archive file's name: base name, timestamp, archive suffix.
pub open spec fn archive_name_spec(name: Seq<char>, ts: Seq<char>) -> Seq<char> {
    name + "_"@ + ts + ".zip"@
}

/// Copy-mode destination: the natural path under the backup root, or a
/// timestamp-suffixed sibling when the natural path is already taken.
pub open spec fn backup_dest_spec(
    root: Seq<char>,
    name: Seq<char>,
    natural_exists: bool,
    ts: Seq<char>,
) -> Seq<char> {
    if natural_exists {
        joined(root, timestamped_name(name, ts))
    } else {
        joined(root, name)
    }
}

/// Builds `root/name`.
pub fn join_path(root: &str, name: &str) -> (r: String)
    ensures
        r@ == joined(root@, name@),
{
    let mut s = root.to_owned();
    s.append("/");
    s.append(name);
    s
}

/// Builds the archive file name for a base name and a timestamp.
pub fn archive_file_name(name: &str, ts: &str) -> (r: String)
    ensures
        r@ == archive_name_spec(name@, ts@),
{
    let mut s = name.to_owned();
    s.append("_");
    s.append(ts);
    s.append(".zip");
    s
}

/// Chooses the copy-mode destination under `root` for a directory called
/// `name`, given whether the natural destination already exists.
pub fn backup_destination(root: &str, name: &str, natural_exists: bool, ts: &str) -> (r: String)
    ensures
        r@ == backup_dest_spec(root@, name@, natural_exists, ts@),
{
    if natural_exists {
        let mut s = name.to_owned();
        s.append("_");
        s.append(ts);
        join_path(root, s.as_str())
    } else {
        join_path(root, name)
    }
}

/// Relies on chrono's `Local::now` and its formatter: a compact local
/// timestamp (year, month, day, hour, minute, second). The value depends on
/// the clock, so nothing is promised of it.
#[verifier::external_body]
fn now_compact_timestamp() -> String {
    chrono::Local::now().format("%Y%m%d_%H%M%S").to_string()
}

/// The archive file name for `name` with a timestamp taken now.
pub fn fresh_archive_name(name: &str) -> (r: String)
    ensures
        exists|ts: Seq<char>| r@ == archive_name_spec(name@, ts),
{
    let ts = now_compact_timestamp();
    let r = archive_file_name(name, ts.as_str());
    proof {
        assert(r@ == archive_name_spec(name@, ts@));
    }
    r
}

/// The copy-mode destination for `name` under `root` with a timestamp taken
/// now; the natural destination is kept whenever it is still free.
pub fn fresh_backup_destination(root: &str, name: &str, natural_exists: bool) -> (r: String)
    ensures
        exists|ts: Seq<char>| r@ == backup_dest_spec(root@, name@, natural_exists, ts),
        !natural_exists ==> r@ == joined(root@, name@),
{
    let ts = now_compact_timestamp();
    let r = backup_destination(root, name, natural_exists, ts.as_str());
    proof {
        assert(r@ == backup_dest_spec(root@, name@, natural_exists, ts@));
    }
    r
}

/// The name of `p` relative to the subtree root, for entries stored in an
/// archive: the root entry itself gets none, an entry below the root is
/// named by its path with the root and one separator stripped.
pub fn subtree_relative(root: &str, p: &str) -> (r: Option<String>)
    ensures
        match r {
            Option::Some(s) => p@ != root@ && seq_is_prefix(root@ + "/"@, p@) && p@ == joined(
                root@,
                s@,
            ),
            Option::None => p@ == root@ || !seq_is_prefix(root@ + "/"@, p@),
        },
{
    if str_eq(root, p) {
        return Option::None;
    }
    let mut sep = root.to_owned();
    sep.append("/");
    if !is_prefix_exec(sep.as_str(), p) {
        return Option::None;
    }
    let sep_len = sep.as_str().unicode_len();
    let p_len = p.unicode_len();
    let rest = p.substring_char(sep_len, p_len);
    proof {
        assert(p@ =~= root@ + "/"@ + p@.subrange((root@ + "/"@).len() as int, p@.len() as int))
            by {
            assert(forall|k: int|
                0 <= k < (root@ + "/"@).len() ==> #[trigger] p@[k] == (root@ + "/"@)[k]) by {
                assert(forall|k: int|
                    0 <= k < (root@ + "/"@).len() ==> #[trigger] p@.subrange(
                        0,
                        (root@ + "/"@).len() as int,
                    )[k] == p@[k]);
            }
        }
    }
    Option::Some(rest.to_owned())
}

/// A second copy-mode backup never lands on the natural destination: once
/// that destination exists, the chosen path is strictly longer, so it names
/// a different filesystem object and the first backup is never overwritten.
pub proof fn lemma_backup_never_overwrites(
    root: Seq<char>,
    name: Seq<char>,
    ts: Seq<char>,
)
    ensures
        backup_dest_spec(root, name, true, ts) != joined(root, name),
{
    assert(backup_dest_spec(root, name, true, ts).len() == root.len() + 1 + name.len() + 1
        + ts.len()) by {
        assert(("/"@).len() == 1) by {
            reveal_strlit("/");
        }
        assert(("_"@).len() == 1) by {
            reveal_strlit("_");
        }
    }
    assert(joined(root, name).len() == root.len() + 1 + name.len()) by {
        assert(("/"@).len() == 1) by {
            reveal_strlit("/");
        }
    }
}

/// Two archive runs with different timestamps write two different files.
pub proof fn lemma_archive_names_distinct(name: Seq<char>, ts1: Seq<char>, ts2: Seq<char>)
    requires
        ts1 != ts2,
    ensures
        archive_name_spec(name, ts1) != archive_name_spec(name, ts2),
{
    if archive_name_spec(name, ts1) == archive_name_spec(name, ts2) {
        assert(archive_name_spec(name, ts1).len() == name.len() + ("_"@).len() + ts1.len() + (
        ".zip"@).len());
        assert(archive_name_spec(name, ts2).len() == name.len() + ("_"@).len() + ts2.len() + (
        ".zip"@).len());
        assert(ts1.len() == ts2.len());
        let head = name + "_"@;
        assert(archive_name_spec(name, ts1) =~= head + ts1 + ".zip"@);
        assert(archive_name_spec(name, ts2) =~= head + ts2 + ".zip"@);
        lemma_concat_middle(head, ts1, ".zip"@);
        lemma_concat_middle(head, ts2, ".zip"@);
        assert(ts1 == ts2);
    }
}

/// Two timestamped copy-mode backups with different timestamps land on two
/// different destinations.
pub proof fn lemma_timestamped_backups_distinct(
    root: Seq<char>,
    name: Seq<char>,
    ts1: Seq<char>,
    ts2: Seq<char>,
)
    requires
        ts1 != ts2,
    ensures
        backup_dest_spec(root, name, true, ts1) != backup_dest_spec(root, name, true, ts2),
{
    if backup_dest_spec(root, name, true, ts1) == backup_dest_spec(root, name, true, ts2) {
        assert(backup_dest_spec(root, name, true, ts1).len() == root.len() + ("/"@).len()
            + name.len() + ("_"@).len() + ts1.len());
        assert(backup_dest_spec(root, name, true, ts2).len() == root.len() + ("/"@).len()
            + name.len() + ("_"@).len() + ts2.len());
        assert(ts1.len() == ts2.len());
        let head = root + "/"@ + name + "_"@;
        assert(backup_dest_spec(root, name, true, ts1) =~= head + ts1 + Seq::<char>::empty());
        assert(backup_dest_spec(root, name, true, ts2) =~= head + ts2 + Seq::<char>::empty());
        lemma_concat_middle(head, ts1, Seq::<char>::empty());
        lemma_concat_middle(head, ts2, Seq::<char>::empty());
        assert(ts1 == ts2);
    }
}

} // verus!
