//! The rule the session store applies to a session's best lap when the
//! session closes. A session can close more than once (a rewind reopens it),
//! so the stored best only ever improves.
use crate::float_order::{f32_lt, less_than, ZERO};
use vstd::prelude::*;

verus! {

/// The stored best lap after `offered` (bits; `-1.0` for "no lap") is merged
/// into `stored`: a positive offered lap replaces a missing or slower stored
/// best, and anything else keeps what is stored.
pub open spec fn merged_best_lap(stored: Option<u32>, offered: u32) -> Option<u32> {
    if f32_lt(ZERO, offered) && (stored is None || f32_lt(offered, stored->0)) {
        Some(offered)
    } else {
        stored
    }
}

/// Merges the best lap offered at close into the stored one.
pub fn merged_best(stored: Option<u32>, offered: u32) -> (r: Option<u32>)
    ensures
        r == merged_best_lap(stored, offered),
{
    if less_than(ZERO, offered) {
        match stored {
            None => Some(offered),
            Some(best) => if less_than(offered, best) {
                Some(offered)
            } else {
                stored
            },
        }
    } else {
        stored
    }
}

/// The stored best never gets worse on close: a later, slower lap, or the
/// "no lap" marker, keeps the stored best; only a faster positive lap
/// replaces it.
pub proof fn lemma_stored_best_never_worsens(stored: u32, offered: u32)
    ensures
        merged_best_lap(Some(stored), offered) == Some(stored) || f32_lt(
            merged_best_lap(Some(stored), offered)->0,
            stored,
        ),
        !f32_lt(ZERO, offered) ==> merged_best_lap(Some(stored), offered) == Some(stored),
{
}

/// A positive lap is stored when there is no best yet or it beats the stored
/// one; a non-positive lap (the `-1.0` "no lap" marker) never creates a best.
pub proof fn lemma_stored_best_takes_faster_lap(stored: Option<u32>, offered: u32)
    ensures
        f32_lt(ZERO, offered) && stored is None ==> merged_best_lap(stored, offered) == Some(offered),
        f32_lt(ZERO, offered) && stored is Some && f32_lt(offered, stored->0) ==> merged_best_lap(
            stored,
            offered,
        ) == Some(offered),
        stored is Some && !f32_lt(offered, stored->0) ==> merged_best_lap(stored, offered) == stored,
        !f32_lt(ZERO, offered) ==> merged_best_lap(stored, offered) == stored,
{
}

} // verus!
