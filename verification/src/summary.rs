//! Summary statistics over the final candidate list, as plain structured
//! records: total size, count, and the oldest and newest ages among
//! candidates whose age is known. Serialization happens outside the library.

use vstd::prelude::*;
use crate::discovery::saturate_u64;
use crate::model::DirInfo;

verus! {

/// Aggregate figures of a run's candidate list.
pub struct SummaryStats {
    /// Sum of all candidate sizes, capped at the largest representable
    /// value.
    pub total_size_bytes: u64,
    /// Number of candidates.
    pub count: usize,
    /// Largest age among candidates with a known age.
    pub oldest_days: Option<i64>,
    /// Smallest age among candidates with a known age.
    pub newest_days: Option<i64>,
}

/// Mathematical sum of the candidate sizes.
pub open spec fn total_size_spec(dirs: Seq<DirInfo>) -> nat
    decreases dirs.len(),
{
    if dirs.len() == 0 {
        0
    } else {
        total_size_spec(dirs.drop_last()) + dirs.last().size_bytes as nat
    }
}

/// Largest known age, `None` when no candidate has one.
pub open spec fn oldest_spec(dirs: Seq<DirInfo>) -> Option<i64>
    decreases dirs.len(),
{
    if dirs.len() == 0 {
        Option::None
    } else {
        let rest = oldest_spec(dirs.drop_last());
        match (rest, dirs.last().age_days) {
            (Option::None, a) => a,
            (Option::Some(r), Option::None) => Option::Some(r),
            (Option::Some(r), Option::Some(a)) => Option::Some(
                if a >= r {
                    a
                } else {
                    r
                },
            ),
        }
    }
}

/// Smallest known age, `None` when no candidate has one.
pub open spec fn newest_spec(dirs: Seq<DirInfo>) -> Option<i64>
    decreases dirs.len(),
{
    if dirs.len() == 0 {
        Option::None
    } else {
        let rest = newest_spec(dirs.drop_last());
        match (rest, dirs.last().age_days) {
            (Option::None, a) => a,
            (Option::Some(r), Option::None) => Option::Some(r),
            (Option::Some(r), Option::Some(a)) => Option::Some(
                if a <= r {
                    a
                } else {
                    r
                },
            ),
        }
    }
}

/// Computes the aggregate figures of a candidate list.
pub fn summarize(dirs: &Vec<DirInfo>) -> (r: SummaryStats)
    ensures
        r.total_size_bytes == saturate_u64(total_size_spec(dirs@)),
        r.count == dirs@.len(),
        r.oldest_days == oldest_spec(dirs@),
        r.newest_days == newest_spec(dirs@),
{
    let mut total: u64 = 0;
    let mut oldest: Option<i64> = Option::None;
    let mut newest: Option<i64> = Option::None;
    let mut i: usize = 0;
    while i < dirs.len()
        invariant
            i <= dirs@.len(),
            total == saturate_u64(total_size_spec(dirs@.take(i as int))),
            oldest == oldest_spec(dirs@.take(i as int)),
            newest == newest_spec(dirs@.take(i as int)),
        decreases dirs@.len() - i,
    {
        proof {
            assert(dirs@.take(i + 1).drop_last() =~= dirs@.take(i as int));
            assert(dirs@.take(i + 1).last() == dirs@[i as int]);
        }
        let add = dirs[i].size_bytes;
        if total <= u64::MAX - add {
            total = total + add;
        } else {
            total = u64::MAX;
        }
        match dirs[i].age_days {
            Option::Some(a) => {
                oldest = match oldest {
                    Option::Some(r) => Option::Some(
                        if a >= r {
                            a
                        } else {
                            r
                        },
                    ),
                    Option::None => Option::Some(a),
                };
                newest = match newest {
                    Option::Some(r) => Option::Some(
                        if a <= r {
                            a
                        } else {
                            r
                        },
                    ),
                    Option::None => Option::Some(a),
                };
            },
            Option::None => {},
        }
        i += 1;
    }
    proof {
        assert(dirs@.take(dirs@.len() as int) =~= dirs@);
    }
    SummaryStats { total_size_bytes: total, count: dirs.len(), oldest_days: oldest, newest_days: newest }
}

} // verus!
