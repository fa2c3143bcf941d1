//! The system scanner: from the direct entries of a root directory it builds
//! one status record per immediate subdirectory, in enumeration order.
//!
//! A root entry is given as its base name, whether it is a directory, and —
//! for a directory — the modification times of its own direct entries, as the
//! analyzer expects them. Entries of the root that are not directories yield
//! no record. A root that could not be read at all is given as no entries,
//! which yields the empty report.

use crate::analyze::{analyze_world, spec_latest};
use crate::stability::{spec_elapsed, spec_remaining, Stability};
use vstd::prelude::*;

verus! {

/// One direct entry of the root: its base name, whether it is a directory,
/// and the modification times of its own direct entries (in whole seconds
/// since the epoch, `None` where unreadable). For an entry that is not a
/// directory, `entries` is empty and unused.
pub struct RootEntry {
    pub name: String,
    pub is_dir: bool,
    pub entries: Vec<Option<u64>>,
}

/// The mathematical content of a `RootEntry`.
pub struct RootEntryModel {
    pub name: Seq<char>,
    pub is_dir: bool,
    pub entries: Seq<Option<u64>>,
}

impl View for RootEntry {
    type V = RootEntryModel;

    open spec fn view(&self) -> RootEntryModel {
        RootEntryModel { name: self.name@, is_dir: self.is_dir, entries: self.entries@ }
    }
}

/// The status of one subdirectory: its base name, its mass (the count of its
/// direct entries) and its stability score.
pub struct WorldStatus {
    pub name: String,
    pub mass: u64,
    pub stability: Stability,
}

/// The mathematical content of a `WorldStatus`; `stability` is the score's
/// view, the seconds of the decay period still remaining.
pub struct WorldStatusModel {
    pub name: Seq<char>,
    pub mass: u64,
    pub stability: u64,
}

impl View for WorldStatus {
    type V = WorldStatusModel;

    open spec fn view(&self) -> WorldStatusModel {
        WorldStatusModel { name: self.name@, mass: self.mass, stability: self.stability@ }
    }
}

/// The views of a sequence of root entries, element by element.
pub open spec fn root_models(entries: Seq<RootEntry>) -> Seq<RootEntryModel> {
    entries.map_values(|e: RootEntry| e@)
}

/// The views of a sequence of status records, element by element.
pub open spec fn status_models(statuses: Seq<WorldStatus>) -> Seq<WorldStatusModel> {
    statuses.map_values(|w: WorldStatus| w@)
}

/// The status record of one subdirectory, evaluated at `now_secs`: the mass
/// is the count of its direct entries, and the stability score decays with
/// the time elapsed since the latest modification among them.
pub open spec fn spec_status_of(now_secs: u64, entry: RootEntryModel) -> WorldStatusModel {
    WorldStatusModel {
        name: entry.name,
        mass: entry.entries.len() as u64,
        stability: spec_remaining(spec_elapsed(now_secs, spec_latest(entry.entries))),
    }
}

/// The report for the root entries `entries` at `now_secs`: one status per
/// directory, in order; entries that are not directories yield nothing.
pub open spec fn spec_scan(now_secs: u64, entries: Seq<RootEntryModel>) -> Seq<WorldStatusModel>
    decreases entries.len(),
{
    if entries.len() == 0 {
        Seq::empty()
    } else {
        let rest = spec_scan(now_secs, entries.drop_last());
        if entries.last().is_dir {
            rest.push(spec_status_of(now_secs, entries.last()))
        } else {
            rest
        }
    }
}

/// Builds the report for a root whose direct entries are `root_entries`,
/// evaluated at `now_secs`: one status record per directory among them, in
/// the given order, with the mass and stability that the analyzer and the
/// score define. Entries that are not directories are excluded.
pub fn scan_system(now_secs: u64, root_entries: &Vec<RootEntry>) -> (system: Vec<WorldStatus>)
    ensures
        status_models(system@) == spec_scan(now_secs, root_models(root_entries@)),
{
    let ghost modeled: Seq<RootEntryModel> = root_models(root_entries@);
    let mut system: Vec<WorldStatus> = Vec::new();
    let mut i: usize = 0;
    let n: usize = root_entries.len();
    while i < n
        invariant
            i <= n,
            n == root_entries@.len(),
            modeled == root_models(root_entries@),
            status_models(system@) == spec_scan(now_secs, modeled.take(i as int)),
        decreases n - i,
    {
        let entry = &root_entries[i];
        let ghost before: Seq<WorldStatusModel> = status_models(system@);
        if entry.is_dir {
            let (count, last_modified) = analyze_world(&entry.entries);
            let stability = Stability::from_times(now_secs, last_modified);
            system.push(WorldStatus { name: entry.name.clone(), mass: count, stability });
            proof {
                assert(status_models(system@) =~= before.push(
                    spec_status_of(now_secs, modeled[i as int]),
                ));
            }
        }
        proof {
            assert(modeled.take(i + 1).drop_last() =~= modeled.take(i as int));
            assert(modeled.take(i + 1).last() == modeled[i as int]);
        }
        i = i + 1;
    }
    proof {
        assert(modeled.take(n as int) =~= modeled);
    }
    system
}

} // verus!
