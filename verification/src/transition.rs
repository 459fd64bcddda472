//! Choice of the transition effect played between two images.

use vstd::prelude::*;
use crate::config::{ConfigError, TransitionMode, lemma_mode_with_index};

verus! {

/// Number of transition effects the renderer knows (modes `0..=19`).
pub const TRANSITION_MODE_COUNT: i32 = 20;

/// Draws a value with `rand::random_range(0..upper)` from the thread-local
/// generator. The contract claims what the documentation of `random_range`
/// states for a non-empty half-open range: the value lies in `0..upper`.
/// Which value comes out is left to chance and not stated.
#[verifier::external_body]
fn random_below(upper: i32) -> (r: i32)
    requires
        0 < upper,
    ensures
        0 <= r < upper,
{
    rand::random_range(0..upper)
}

/// The transition mode whose index is `k`, for an index the renderer knows.
pub fn mode_from_index(k: i32) -> (m: TransitionMode)
    requires
        0 <= k < TRANSITION_MODE_COUNT,
    ensures
        m.index() == k,
{
    let r: Result<TransitionMode, ConfigError> = TransitionMode::try_from(k);
    proof {
        lemma_mode_with_index(k);
    }
    match r {
        Ok(m) => m,
        Err(_) => {
            proof {
                assert(false);
            }
            TransitionMode::default()
        },
    }
}

/// Picks one of the available transition effects at random; every result is
/// a valid mode index.
pub fn random_mode() -> (m: TransitionMode)
    ensures
        0 <= m.index() < TRANSITION_MODE_COUNT,
{
    let k = random_below(TRANSITION_MODE_COUNT);
    mode_from_index(k)
}

} // verus!
