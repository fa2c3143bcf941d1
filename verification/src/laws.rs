//! General properties of the scanner, the score and the classification,
//! stated over the spec functions that the contracts use and proved once and
//! for all inputs.

use crate::render::spec_rendered_score;
use crate::scan::{spec_scan, spec_status_of, RootEntryModel, WorldStatusModel};
use crate::stability::{
    spec_classification, spec_elapsed, spec_hundredths, spec_remaining, Classification,
    DECAY_PERIOD_SECS, FALLING_THRESHOLD_SECS, STABLE_THRESHOLD_SECS,
};
use vstd::prelude::*;

verus! {

/// A root none of whose entries is a directory — none at all, or files only —
/// yields the empty report.
pub proof fn lemma_no_directories_empty_report(now_secs: u64, entries: Seq<RootEntryModel>)
    requires
        forall|i: int| 0 <= i < entries.len() ==> !(#[trigger] entries[i]).is_dir,
    ensures
        spec_scan(now_secs, entries) == Seq::<WorldStatusModel>::empty(),
    decreases entries.len(),
{
    if entries.len() > 0 {
        assert forall|i: int| 0 <= i < entries.drop_last().len() implies !(#[trigger] entries.drop_last()[i]).is_dir by {
            assert(entries.drop_last()[i] == entries[i]);
        }
        lemma_no_directories_empty_report(now_secs, entries.drop_last());
    }
}

/// The mass of a subdirectory's status record is exactly the number of its
/// direct entries, whatever they are — files, directories, or entries whose
/// modification time could not be read.
pub proof fn lemma_mass_counts_every_entry(now_secs: u64, entry: RootEntryModel)
    requires
        entry.entries.len() <= u64::MAX,
    ensures
        spec_status_of(now_secs, entry).mass == entry.entries.len(),
{
}

/// A subdirectory modified just now has the full score: the whole decay
/// period remains, which rounds to 1.00 and classifies as stable.
pub proof fn lemma_fresh_is_fully_stable(now_secs: u64)
    ensures
        spec_remaining(spec_elapsed(now_secs, now_secs)) == DECAY_PERIOD_SECS,
        spec_hundredths(DECAY_PERIOD_SECS) == 100,
        spec_rendered_score(DECAY_PERIOD_SECS) == "1.00"@,
        spec_classification(DECAY_PERIOD_SECS) == Classification::Stable,
{
    reveal_strlit("1");
    reveal_strlit("0");
    reveal_strlit(".");
    reveal_strlit("1.00");
    assert(spec_rendered_score(DECAY_PERIOD_SECS) =~= "1.00"@);
}

/// A subdirectory last modified exactly one decay period ago has score zero:
/// nothing remains, which rounds to 0.00 and classifies as a collision
/// warning.
pub proof fn lemma_decay_period_old_is_zero(now_secs: u64, last_modified_secs: u64)
    requires
        last_modified_secs + DECAY_PERIOD_SECS == now_secs,
    ensures
        spec_remaining(spec_elapsed(now_secs, last_modified_secs)) == 0,
        spec_hundredths(0) == 0,
        spec_rendered_score(0) == "0.00"@,
        spec_classification(0) == Classification::CollisionWarning,
{
    reveal_strlit("0");
    reveal_strlit(".");
    reveal_strlit("0.00");
    assert(spec_rendered_score(0) =~= "0.00"@);
}

/// A subdirectory last modified more than one decay period ago is clamped to
/// score zero — the remainder cannot go below it.
pub proof fn lemma_older_than_decay_period_clamped(now_secs: u64, last_modified_secs: u64)
    requires
        last_modified_secs + DECAY_PERIOD_SECS < now_secs,
    ensures
        spec_remaining(spec_elapsed(now_secs, last_modified_secs)) == 0,
{
}

/// The classification boundaries are strict: a score of exactly 0.70 (seven
/// tenths of the decay period remaining) is falling, not stable, and a score
/// of exactly 0.30 is a collision warning, not falling; one second above
/// either boundary tips the class.
pub proof fn lemma_classification_boundaries()
    ensures
        spec_hundredths(STABLE_THRESHOLD_SECS) == 70,
        spec_classification(STABLE_THRESHOLD_SECS) == Classification::Falling,
        spec_classification((STABLE_THRESHOLD_SECS + 1) as u64) == Classification::Stable,
        spec_hundredths(FALLING_THRESHOLD_SECS) == 30,
        spec_classification(FALLING_THRESHOLD_SECS) == Classification::CollisionWarning,
        spec_classification((FALLING_THRESHOLD_SECS + 1) as u64) == Classification::Falling,
{
}

/// Entries of the root that are not directories leave the report untouched:
/// scanning the root is scanning its directories alone.
pub proof fn lemma_files_are_excluded(now_secs: u64, entries: Seq<RootEntryModel>)
    ensures
        spec_scan(now_secs, entries) == spec_scan(
            now_secs,
            entries.filter(|e: RootEntryModel| e.is_dir),
        ),
    decreases entries.len(),
{
    reveal(Seq::filter);
    let pred = |e: RootEntryModel| e.is_dir;
    if entries.len() > 0 {
        lemma_files_are_excluded(now_secs, entries.drop_last());
        let kept = entries.drop_last().filter(pred);
        if entries.last().is_dir {
            assert(entries.filter(pred) == kept.push(entries.last()));
            assert(kept.push(entries.last()).drop_last() =~= kept);
            assert(kept.push(entries.last()).last() == entries.last());
        } else {
            assert(entries.filter(pred) == kept);
        }
    }
}

} // verus!
