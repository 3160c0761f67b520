//! Discovery engine: given the traversal's snapshot of a tree as plain
//! entries, applies the name, exclude, depth, size and age filters, computes
//! each candidate's subtree size and item count, and returns the candidates
//! sorted by descending size.

use vstd::prelude::*;
use vstd::multiset::Multiset;
use crate::model::{DirInfo, DirInfoModel, FilterCriteria, FsEntry, dir_views};
use crate::strutil::{
    contains_seq,
    contains_substr,
    is_prefix_exec,
    lemma_contains_of_prefix,
    seq_is_prefix,
    str_eq,
};

verus! {

/// The path carries at least one exclude substring.
pub open spec fn excluded(path: Seq<char>, excludes: Seq<String>) -> bool {
    exists|j: int| 0 <= j < excludes.len() && contains_seq(path, excludes[j]@)
}

/// The basename carries at least one target substring.
pub open spec fn name_matches(name: Seq<char>, targets: Seq<String>) -> bool {
    exists|j: int| 0 <= j < targets.len() && contains_seq(name, targets[j]@)
}

/// The entry's depth respects the bound; `None` and `Some(0)` are unlimited.
pub open spec fn depth_within(depth: usize, bound: Option<usize>) -> bool {
    match bound {
        Option::None => true,
        Option::Some(d) => d == 0 || depth <= d,
    }
}

/// A set minimum age is satisfied only by a present, large enough age.
pub open spec fn age_passes(age: Option<i64>, min_age: Option<i64>) -> bool {
    match min_age {
        Option::None => true,
        Option::Some(m) => match age {
            Option::Some(a) => a >= m,
            Option::None => false,
        },
    }
}

/// A set minimum size is satisfied by the computed subtree size.
pub open spec fn size_passes(size: u64, min_size: Option<u64>) -> bool {
    match min_size {
        Option::None => true,
        Option::Some(m) => size >= m,
    }
}

/// `p` lies in the subtree rooted at `root`: it is the root itself or sits
/// below it, one separator deeper.
pub open spec fn in_subtree(root: Seq<char>, p: Seq<char>) -> bool {
    p == root || seq_is_prefix(root + "/"@, p)
}

/// Caps a mathematical sum at the largest representable size.
pub open spec fn saturate_u64(n: nat) -> u64 {
    if n <= u64::MAX as nat {
        n as u64
    } else {
        u64::MAX
    }
}

/// Sum of the regular-file lengths of the snapshot entries inside the
/// subtree at `root`.
pub open spec fn subtree_size_spec(entries: Seq<FsEntry>, root: Seq<char>) -> nat
    decreases entries.len(),
{
    if entries.len() == 0 {
        0
    } else {
        subtree_size_spec(entries.drop_last(), root) + if !entries.last().is_dir
            && in_subtree(root, entries.last().path@) {
            entries.last().file_size as nat
        } else {
            0
        }
    }
}

/// Count of all snapshot entries inside the subtree at `root`, the root
/// entry included.
pub open spec fn subtree_count_spec(entries: Seq<FsEntry>, root: Seq<char>) -> nat
    decreases entries.len(),
{
    if entries.len() == 0 {
        0
    } else {
        subtree_count_spec(entries.drop_last(), root) + if in_subtree(
            root,
            entries.last().path@,
        ) {
            1nat
        } else {
            0
        }
    }
}

/// The subtree never holds more entries than the snapshot.
pub proof fn lemma_count_le_len(entries: Seq<FsEntry>, root: Seq<char>)
    ensures
        subtree_count_spec(entries, root) <= entries.len(),
    decreases entries.len(),
{
    if entries.len() > 0 {
        lemma_count_le_len(entries.drop_last(), root);
    }
}

/// Entry `i` of the snapshot passes every filter of the pass.
pub open spec fn qualifies(entries: Seq<FsEntry>, i: int, c: FilterCriteria) -> bool {
    &&& 0 <= i < entries.len()
    &&& entries[i].is_dir
    &&& !excluded(entries[i].path@, c.excludes@)
    &&& name_matches(entries[i].name@, c.targets@)
    &&& depth_within(entries[i].depth, c.max_depth)
    &&& age_passes(entries[i].age_days, c.min_age)
    &&& size_passes(saturate_u64(subtree_size_spec(entries, entries[i].path@)), c.min_size)
}

/// The candidate record built for entry `i`.
pub open spec fn cand_model(entries: Seq<FsEntry>, i: int) -> DirInfoModel {
    DirInfoModel {
        path: entries[i].path@,
        size_bytes: saturate_u64(subtree_size_spec(entries, entries[i].path@)),
        age_days: entries[i].age_days,
        item_count: Option::Some(subtree_count_spec(entries, entries[i].path@) as usize),
    }
}

/// The candidates among the first `n` snapshot entries, in snapshot order.
pub open spec fn survivors_upto(entries: Seq<FsEntry>, c: FilterCriteria, n: int) -> Seq<
    DirInfoModel,
>
    decreases n,
{
    if n <= 0 {
        Seq::empty()
    } else {
        survivors_upto(entries, c, n - 1) + if qualifies(entries, n - 1, c) {
            seq![cand_model(entries, n - 1)]
        } else {
            Seq::empty()
        }
    }
}

/// All candidates of the snapshot, in snapshot order.
pub open spec fn survivors(entries: Seq<FsEntry>, c: FilterCriteria) -> Seq<DirInfoModel> {
    survivors_upto(entries, c, entries.len() as int)
}

/// Every survivor is the candidate record of some qualifying entry.
proof fn lemma_survivors_elem(entries: Seq<FsEntry>, c: FilterCriteria, n: int, x: DirInfoModel)
    requires
        n <= entries.len(),
        survivors_upto(entries, c, n).contains(x),
    ensures
        exists|i: int| qualifies(entries, i, c) && x == cand_model(entries, i),
    decreases n,
{
    if n <= 0 {
    } else {
        let prev = survivors_upto(entries, c, n - 1);
        let whole = survivors_upto(entries, c, n);
        let idx = choose|idx: int| 0 <= idx < whole.len() && whole[idx] == x;
        if idx < prev.len() {
            assert(prev[idx] == x);
            lemma_survivors_elem(entries, c, n - 1, x);
        } else {
            assert(qualifies(entries, n - 1, c));
            assert(x == cand_model(entries, n - 1));
        }
    }
}

/// Results are ordered by non-increasing size.
pub open spec fn sorted_desc(s: Seq<DirInfoModel>) -> bool {
    forall|i: int, j: int|
        0 <= i <= j < s.len() ==> #[trigger] s[i].size_bytes >= #[trigger] s[j].size_bytes
}

/// Exclusion carries down: a path inside an excluded directory's subtree is
/// itself excluded, so pruning is total, never advisory.
pub proof fn lemma_exclusion_prunes(anc: Seq<char>, desc: Seq<char>, excludes: Seq<String>)
    requires
        excluded(anc, excludes),
        in_subtree(anc, desc),
    ensures
        excluded(desc, excludes),
{
    if desc != anc {
        let j = choose|j: int| 0 <= j < excludes.len() && contains_seq(anc, excludes[j]@);
        let sep = anc + "/"@;
        assert(seq_is_prefix(anc, desc)) by {
            assert(desc.subrange(0, sep.len() as int) == sep);
            assert forall|k: int| 0 <= k < anc.len() implies #[trigger] desc[k] == anc[k] by {
                assert(desc.subrange(0, sep.len() as int)[k] == desc[k]);
                assert(sep[k] == anc[k]);
            }
            assert(desc.subrange(0, anc.len() as int) =~= anc);
        }
        lemma_contains_of_prefix(anc, desc, excludes[j]@);
    }
}

/// A path clear of every exclude substring never lies inside an excluded
/// directory's subtree: together with `find_directories`' contract, no
/// result is a descendant of an excluded directory, however well its own
/// name matches a target.
pub proof fn lemma_pruning_is_total(anc: Seq<char>, p: Seq<char>, excludes: Seq<String>)
    requires
        excluded(anc, excludes),
        !excluded(p, excludes),
    ensures
        !in_subtree(anc, p),
{
    if in_subtree(anc, p) {
        lemma_exclusion_prunes(anc, p, excludes);
    }
}

/// Whether `hay` contains any of the `needles`.
fn any_contains(hay: &str, needles: &Vec<String>) -> (r: bool)
    ensures
        r == exists|j: int| 0 <= j < needles@.len() && contains_seq(hay@, needles@[j]@),
{
    let mut j: usize = 0;
    while j < needles.len()
        invariant
            j <= needles@.len(),
            forall|k: int| 0 <= k < j ==> !contains_seq(hay@, needles@[k]@),
        decreases needles@.len() - j,
    {
        if contains_substr(hay, needles[j].as_str()) {
            return true;
        }
        j += 1;
    }
    false
}

/// Whether `p` lies in the subtree rooted at `root`.
pub fn in_subtree_exec(root: &str, p: &str) -> (r: bool)
    ensures
        r == in_subtree(root@, p@),
{
    if str_eq(root, p) {
        true
    } else {
        let mut sep = root.to_owned();
        sep.append("/");
        is_prefix_exec(sep.as_str(), p)
    }
}

/// Recursive byte size of the subtree at `root`, capped at the largest
/// representable value.
pub fn subtree_size(entries: &Vec<FsEntry>, root: &str) -> (r: u64)
    ensures
        r == saturate_u64(subtree_size_spec(entries@, root@)),
{
    let mut acc: u64 = 0;
    let mut i: usize = 0;
    while i < entries.len()
        invariant
            i <= entries@.len(),
            acc == saturate_u64(subtree_size_spec(entries@.take(i as int), root@)),
        decreases entries@.len() - i,
    {
        let ghost pre = entries@.take(i as int);
        let ghost post = entries@.take(i + 1);
        proof {
            assert(post.drop_last() =~= pre);
            assert(post.last() == entries@[i as int]);
        }
        if !entries[i].is_dir && in_subtree_exec(root, entries[i].path.as_str()) {
            let add = entries[i].file_size;
            if acc <= u64::MAX - add {
                acc = acc + add;
            } else {
                acc = u64::MAX;
            }
        }
        i += 1;
    }
    proof {
        assert(entries@.take(entries@.len() as int) =~= entries@);
    }
    acc
}

/// Number of snapshot entries in the subtree at `root`, the root included.
pub fn subtree_count(entries: &Vec<FsEntry>, root: &str) -> (r: usize)
    ensures
        r == subtree_count_spec(entries@, root@),
{
    let mut acc: usize = 0;
    let mut i: usize = 0;
    while i < entries.len()
        invariant
            i <= entries@.len(),
            acc == subtree_count_spec(entries@.take(i as int), root@),
            acc <= i,
        decreases entries@.len() - i,
    {
        let ghost pre = entries@.take(i as int);
        let ghost post = entries@.take(i + 1);
        proof {
            assert(post.drop_last() =~= pre);
            assert(post.last() == entries@[i as int]);
        }
        if in_subtree_exec(root, entries[i].path.as_str()) {
            acc = acc + 1;
        }
        i += 1;
    }
    proof {
        assert(entries@.take(entries@.len() as int) =~= entries@);
    }
    acc
}

/// Inserts a candidate into a size-sorted list, keeping it sorted.
fn insert_sorted(out: &mut Vec<DirInfo>, d: DirInfo)
    requires
        sorted_desc(dir_views(old(out)@)),
    ensures
        sorted_desc(dir_views(final(out)@)),
        dir_views(final(out)@).to_multiset() == dir_views(old(out)@).to_multiset().insert(d@),
        final(out)@.len() == old(out)@.len() + 1,
{
    broadcast use vstd::seq_lib::group_to_multiset_ensures;

    let ghost orig = out@;
    let mut k: usize = 0;
    while k < out.len() && out[k].size_bytes >= d.size_bytes
        invariant
            out@ == orig,
            k <= out@.len(),
            forall|j: int| 0 <= j < k ==> dir_views(out@)[j].size_bytes >= d@.size_bytes,
        decreases out@.len() - k,
    {
        proof {
            assert(dir_views(out@)[k as int] == out@[k as int]@);
        }
        k += 1;
    }
    proof {
        if k < out@.len() {
            assert(dir_views(out@)[k as int] == out@[k as int]@);
            assert(dir_views(out@)[k as int].size_bytes < d@.size_bytes);
        }
    }
    out.insert(k, d);
    proof {
        assert(dir_views(out@) =~= dir_views(orig).insert(k as int, d@));
        let s = dir_views(orig);
        let t = dir_views(out@);
        assert(sorted_desc(t)) by {
            assert(forall|i: int, j: int|
                0 <= i <= j < t.len() ==> #[trigger] t[i].size_bytes
                    >= #[trigger] t[j].size_bytes) by {
                assert(forall|i: int| 0 <= i < k ==> t[i] == s[i]);
                assert(t[k as int] == d@);
                assert(forall|i: int| k < i < t.len() ==> t[i] == s[i - 1]);
            }
        }
    }
}

/// Sorts candidates by descending size; ties keep no promised order.
fn sort_by_size_desc(v: Vec<DirInfo>) -> (r: Vec<DirInfo>)
    ensures
        sorted_desc(dir_views(r@)),
        dir_views(r@).to_multiset() == dir_views(v@).to_multiset(),
        r@.len() == v@.len(),
{
    broadcast use vstd::seq_lib::group_to_multiset_ensures;

    let ghost orig = v@;
    let mut src = v;
    let mut out: Vec<DirInfo> = Vec::new();
    proof {
        assert(dir_views(out@).to_multiset().add(dir_views(src@).to_multiset()) =~= dir_views(
            orig,
        ).to_multiset());
    }
    loop
        invariant
            sorted_desc(dir_views(out@)),
            dir_views(out@).to_multiset().add(dir_views(src@).to_multiset()) == dir_views(
                orig,
            ).to_multiset(),
            out@.len() + src@.len() == orig.len(),
        ensures
            src@.len() == 0,
        decreases src@.len(),
    {
        let ghost before = src@;
        match src.pop() {
            Option::Some(d) => {
                proof {
                    assert(dir_views(before).drop_last() =~= dir_views(src@));
                    assert(dir_views(before) =~= dir_views(src@).push(d@));
                    vstd::seq_lib::to_multiset_build(dir_views(src@), d@);
                }
                insert_sorted(&mut out, d);
                proof {
                    assert(dir_views(out@).to_multiset().add(dir_views(src@).to_multiset())
                        =~= dir_views(orig).to_multiset());
                }
            },
            Option::None => {
                break ;
            },
        }
    }
    proof {
        let ms = dir_views(src@).to_multiset();
        assert(forall|x: DirInfoModel| #[trigger] ms.count(x) == 0) by {
            assert forall|x: DirInfoModel| #[trigger] ms.count(x) == 0 by {
                assert(!dir_views(src@).contains(x));
            }
        }
        assert(ms =~= Multiset::empty());
        assert(dir_views(out@).to_multiset() =~= dir_views(orig).to_multiset());
    }
    out
}

/// Walks the snapshot, keeps the directories that pass every filter, fills
/// in their measured size, age and item count, and returns them sorted by
/// descending size. A snapshot that omits unreadable subtrees simply yields
/// no candidates from them; nothing here can fail.
pub fn find_directories(entries: &Vec<FsEntry>, c: &FilterCriteria) -> (r: Vec<DirInfo>)
    ensures
        sorted_desc(dir_views(r@)),
        dir_views(r@).to_multiset() == survivors(entries@, *c).to_multiset(),
        forall|k: int|
            0 <= k < r@.len() ==> exists|i: int|
                qualifies(entries@, i, *c) && #[trigger] r@[k]@ == cand_model(entries@, i),
        forall|k: int| 0 <= k < r@.len() ==> !excluded(#[trigger] r@[k]@.path, c.excludes@),
        forall|k: int|
            0 <= k < r@.len() ==> (c.min_size matches Option::Some(m)
                ==> #[trigger] r@[k]@.size_bytes >= m),
        forall|k: int|
            0 <= k < r@.len() ==> (c.min_age matches Option::Some(m)
                ==> (#[trigger] r@[k]@.age_days matches Option::Some(a) && a >= m)),
{
    broadcast use vstd::seq_lib::group_to_multiset_ensures;

    let mut found: Vec<DirInfo> = Vec::new();
    let mut i: usize = 0;
    while i < entries.len()
        invariant
            i <= entries@.len(),
            dir_views(found@) == survivors_upto(entries@, *c, i as int),
        decreases entries@.len() - i,
    {
        let is_dir = entries[i].is_dir;
        let excl = any_contains(entries[i].path.as_str(), &c.excludes);
        let name_ok = any_contains(entries[i].name.as_str(), &c.targets);
        let depth_ok = match c.max_depth {
            Option::Some(d) => d == 0 || entries[i].depth <= d,
            Option::None => true,
        };
        let age_ok = match c.min_age {
            Option::Some(m) => match entries[i].age_days {
                Option::Some(a) => a >= m,
                Option::None => false,
            },
            Option::None => true,
        };
        if is_dir && !excl && name_ok && depth_ok && age_ok {
            let size = subtree_size(entries, entries[i].path.as_str());
            let size_ok = match c.min_size {
                Option::Some(m) => size >= m,
                Option::None => true,
            };
            if size_ok {
                let count = subtree_count(entries, entries[i].path.as_str());
                proof {
                    lemma_count_le_len(entries@, entries@[i as int].path@);
                }
                let d = DirInfo {
                    path: entries[i].path.clone(),
                    size_bytes: size,
                    age_days: entries[i].age_days,
                    item_count: Option::Some(count),
                };
                proof {
                    assert(d@ == cand_model(entries@, i as int));
                }
                let ghost before = found@;
                found.push(d);
                proof {
                    assert(dir_views(found@) =~= dir_views(before).push(
                        cand_model(entries@, i as int),
                    ));
                    assert(dir_views(found@) =~= survivors_upto(entries@, *c, i + 1));
                }
            } else {
                proof {
                    assert(!qualifies(entries@, i as int, *c));
                    assert(survivors_upto(entries@, *c, i + 1) =~= dir_views(found@));
                }
            }
        } else {
            proof {
                assert(!qualifies(entries@, i as int, *c));
                assert(survivors_upto(entries@, *c, i + 1) =~= dir_views(found@));
            }
        }
        i += 1;
    }
    let r = sort_by_size_desc(found);
    proof {
        let all = survivors(entries@, *c);
        assert(forall|k: int|
            0 <= k < r@.len() ==> exists|i: int|
                qualifies(entries@, i, *c) && #[trigger] r@[k]@ == cand_model(entries@, i)) by {
            assert forall|k: int| 0 <= k < r@.len() implies exists|i: int|
                qualifies(entries@, i, *c) && #[trigger] r@[k]@ == cand_model(entries@, i) by {
                assert(dir_views(r@)[k] == r@[k]@);
                assert(dir_views(r@).contains(r@[k]@));
                assert(dir_views(r@).to_multiset().count(r@[k]@) > 0);
                assert(all.to_multiset().count(r@[k]@) > 0);
                assert(all.contains(r@[k]@));
                lemma_survivors_elem(entries@, *c, entries@.len() as int, r@[k]@);
            }
        }
    }
    r
}

} // verus!
