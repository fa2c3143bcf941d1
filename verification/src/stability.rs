//! The stability score of a subdirectory.
//!
//! Stability is a freshness measure in [0, 1] that decays linearly from 1
//! (modified just now) to 0 (modified a whole decay period ago or earlier).
//! The score is kept exactly, as the number of seconds remaining before the
//! decay period runs out; the fraction `remaining / DECAY_PERIOD_SECS` is the
//! score itself, and `hundredths` rounds it to two decimal places for display.

use vstd::prelude::*;

verus! {

/// The decay period: seven days, in seconds. A subdirectory untouched for
/// this long (or longer) has stability zero.
pub const DECAY_PERIOD_SECS: u64 = 604800;

/// A score strictly above 0.70 classifies as stable; this is seven tenths of
/// the decay period, in remaining seconds.
pub const STABLE_THRESHOLD_SECS: u64 = 7 * DECAY_PERIOD_SECS / 10;

/// A score strictly above 0.30 (and not above 0.70) classifies as falling;
/// this is three tenths of the decay period, in remaining seconds.
pub const FALLING_THRESHOLD_SECS: u64 = 3 * DECAY_PERIOD_SECS / 10;

/// Seconds elapsed between the latest modification and now, clamped to zero
/// when the modification time is not in the past (clock skew).
pub open spec fn spec_elapsed(now_secs: u64, last_modified_secs: u64) -> u64 {
    if last_modified_secs >= now_secs {
        0u64
    } else {
        (now_secs - last_modified_secs) as u64
    }
}

/// Seconds of the decay period still remaining after `elapsed_secs`, clamped
/// to zero: the numerator of the stability score over `DECAY_PERIOD_SECS`.
pub open spec fn spec_remaining(elapsed_secs: u64) -> u64 {
    if elapsed_secs >= DECAY_PERIOD_SECS {
        0u64
    } else {
        (DECAY_PERIOD_SECS - elapsed_secs) as u64
    }
}

/// The stability score rounded to hundredths (round half up): what a
/// two-decimal rendering of `remaining / DECAY_PERIOD_SECS` shows.
pub open spec fn spec_hundredths(remaining_secs: u64) -> u64 {
    ((remaining_secs * 100 + DECAY_PERIOD_SECS / 2) / (DECAY_PERIOD_SECS as int)) as u64
}

/// The classification of a stability score: strictly above 0.70 is stable,
/// strictly above 0.30 is falling, anything else is a collision warning.
#[derive(Clone, Copy, Debug, PartialEq, Eq, Structural)]
pub enum Classification {
    Stable,
    Falling,
    CollisionWarning,
}

/// The classification of the score `remaining_secs / DECAY_PERIOD_SECS`,
/// decided on the exact remaining seconds so that the boundaries are strict.
pub open spec fn spec_classification(remaining_secs: u64) -> Classification {
    if remaining_secs > STABLE_THRESHOLD_SECS {
        Classification::Stable
    } else if remaining_secs > FALLING_THRESHOLD_SECS {
        Classification::Falling
    } else {
        Classification::CollisionWarning
    }
}

/// A stability score. Its view is the number of seconds of the decay period
/// still remaining, always at most `DECAY_PERIOD_SECS`; the score itself is
/// that view divided by `DECAY_PERIOD_SECS`.
#[derive(Clone, Copy, Debug)]
pub struct Stability {
    remaining_secs: u64,
}

impl View for Stability {
    type V = u64;

    closed spec fn view(&self) -> u64 {
        self.remaining_secs
    }
}

impl Stability {
    #[verifier::type_invariant]
    spec fn inv(self) -> bool {
        self.remaining_secs <= DECAY_PERIOD_SECS
    }

    /// The score of a subdirectory whose latest modification was at
    /// `last_modified_secs`, evaluated at `now_secs` (both in whole seconds
    /// since the epoch).
    pub fn from_times(now_secs: u64, last_modified_secs: u64) -> (s: Self)
        ensures
            s@ == spec_remaining(spec_elapsed(now_secs, last_modified_secs)),
    {
        let elapsed: u64 = if last_modified_secs >= now_secs {
            0
        } else {
            now_secs - last_modified_secs
        };
        let remaining: u64 = if elapsed >= DECAY_PERIOD_SECS {
            0
        } else {
            DECAY_PERIOD_SECS - elapsed
        };
        Stability { remaining_secs: remaining }
    }

    /// The seconds of the decay period still remaining (the view itself).
    pub fn remaining(&self) -> (r: u64)
        ensures
            r == self@,
            r <= DECAY_PERIOD_SECS,
    {
        proof {
            use_type_invariant(self);
        }
        self.remaining_secs
    }

    /// The score rounded to hundredths, between 0 (score 0.00) and
    /// 100 (score 1.00).
    pub fn hundredths(&self) -> (h: u64)
        ensures
            h == spec_hundredths(self@),
            h <= 100,
    {
        proof {
            use_type_invariant(self);
        }
        (self.remaining_secs * 100 + DECAY_PERIOD_SECS / 2) / DECAY_PERIOD_SECS
    }

    /// The classification of the score.
    pub fn classification(&self) -> (c: Classification)
        ensures
            c == spec_classification(self@),
    {
        if self.remaining_secs > STABLE_THRESHOLD_SECS {
            Classification::Stable
        } else if self.remaining_secs > FALLING_THRESHOLD_SECS {
            Classification::Falling
        } else {
            Classification::CollisionWarning
        }
    }
}

} // verus!
