//! The directory analyzer: from the direct entries of one directory it takes
//! the entry count (the "mass") and the latest modification time among them.
//!
//! An entry is given as `Some(t)`, its modification time in whole seconds
//! since the epoch, or as `None` when that time could not be read. Every
//! entry counts toward the mass; only the readable times compete for the
//! latest. With no readable time the latest is the epoch itself, zero.

use vstd::prelude::*;

verus! {

/// The latest modification time among `entries`, zero (the epoch) where none
/// is readable.
pub open spec fn spec_latest(entries: Seq<Option<u64>>) -> u64
    decreases entries.len(),
{
    if entries.len() == 0 {
        0u64
    } else {
        let prev = spec_latest(entries.drop_last());
        match entries.last() {
            Some(t) => if t > prev {
                t
            } else {
                prev
            },
            None => prev,
        }
    }
}

/// Counts the direct entries of a directory and finds the latest modification
/// time among them: the pair (mass, latest). Every entry counts, whether or
/// not its time was readable; with no readable time the latest is zero.
pub fn analyze_world(entries: &Vec<Option<u64>>) -> (r: (u64, u64))
    ensures
        r.0 == entries@.len(),
        r.1 == spec_latest(entries@),
{
    let mut latest: u64 = 0;
    let mut i: usize = 0;
    let n: usize = entries.len();
    while i < n
        invariant
            i <= n,
            n == entries@.len(),
            latest == spec_latest(entries@.take(i as int)),
        decreases n - i,
    {
        match entries[i] {
            Some(t) => {
                if t > latest {
                    latest = t;
                }
            },
            None => {},
        }
        proof {
            assert(entries@.take(i + 1).drop_last() =~= entries@.take(i as int));
            assert(entries@.take(i + 1).last() == entries@[i as int]);
        }
        i = i + 1;
    }
    proof {
        assert(entries@.take(n as int) =~= entries@);
    }
    (n as u64, latest)
}

} // verus!
