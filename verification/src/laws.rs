use vstd::prelude::*;

use crate::{Mode, SRDataV, sr_inv, MIN_E_FACTOR};
use crate::spaced_repetition::{
    next_state, noise_ok, same_day_failed, scaled_interval, updated_ease,
};

verus! {

/// A perfect review of a `Learning` item never lowers the ease factor, and
/// the result stays at or above the hard floor.
pub proof fn lemma_perfect_review_raises_ease(s: SRDataV, noise: int, today: int)
    requires
        sr_inv(s),
        s.mode == Mode::Learning,
    ensures
        next_state(s, 5, noise, today).e_factor >= s.e_factor,
        next_state(s, 5, noise, today).e_factor >= MIN_E_FACTOR,
{
}

/// After any review of any well-formed state the ease factor is at or above
/// its hard floor.
pub proof fn lemma_ease_floor(s: SRDataV, r: int, noise: int, today: int)
    requires
        sr_inv(s),
    ensures
        next_state(s, r, noise, today).e_factor >= MIN_E_FACTOR,
{
}

/// The first two successful reviews use fixed intervals: one day after the
/// first success, six days after the second. (A `Failed` item retried on the
/// day of its last review keeps its interval instead: the same-day guard.)
pub proof fn lemma_early_intervals(s: SRDataV, r: int, noise: int, today: int)
    requires
        sr_inv(s),
        r >= 3,
        !same_day_failed(s, today),
    ensures
        s.n == 0 ==> next_state(s, r, noise, today).interval == 1,
        s.n == 1 ==> next_state(s, r, noise, today).interval == 6,
{
}

/// A failed review of a `Learning` item demotes it: the item enters `Failed`
/// mode with its streak reset to one and a one-day interval, whatever its
/// prior interval and ease were.
pub proof fn lemma_learning_failure_demotes(s: SRDataV, r: int, noise: int, today: int)
    requires
        sr_inv(s),
        s.mode == Mode::Learning,
        r < 3,
    ensures
        ({
            let t = next_state(s, r, noise, today);
            &&& t.mode == Mode::Failed
            &&& t.n == 1
            &&& t.interval == 1
        }),
{
}

/// A `Failed` item retried successfully on the day of its last review
/// graduates back to `Learning` with its interval, ease and streak untouched;
/// the real rescheduling happens on its next review.
pub proof fn lemma_failed_same_day_success(s: SRDataV, r: int, noise: int, today: int)
    requires
        s.mode == Mode::Failed,
        s.last_review == Some(today),
        r >= 3,
    ensures
        ({
            let t = next_state(s, r, noise, today);
            &&& t.mode == Mode::Learning
            &&& t.interval == s.interval
            &&& t.e_factor == s.e_factor
            &&& t.n == s.n
            &&& t.last_review == s.last_review
            &&& t.review_count == s.review_count
            &&& t.created == s.created
        }),
{
}

/// A `Failed` item retried unsuccessfully on the day of its last review is
/// left exactly as it was.
pub proof fn lemma_failed_same_day_failure(s: SRDataV, r: int, noise: int, today: int)
    requires
        s.mode == Mode::Failed,
        s.last_review == Some(today),
        r < 3,
    ensures
        next_state(s, r, noise, today) == s,
{
}

/// Without jitter the engine is a pure function: two runs over the same
/// inputs give the same state.
pub proof fn lemma_engine_deterministic(
    s: SRDataV,
    r: int,
    today: int,
    first: SRDataV,
    second: SRDataV,
)
    requires
        first == next_state(s, r, 0, today),
        second == next_state(s, r, 0, today),
    ensures
        first == second,
{
}

/// With jitter enabled, a grown interval lands within a tenth of the prior
/// interval around the scaled value, and for prior intervals of at most four
/// days the jitter is exactly zero.
pub proof fn lemma_noisy_interval_bounds(s: SRDataV, r: int, noise: int, today: int)
    requires
        sr_inv(s),
        !same_day_failed(s, today),
        r >= 3,
        s.n >= 2,
        noise_ok(s, true, noise),
    ensures
        ({
            let grown = scaled_interval(s.interval, updated_ease(s, r));
            let t = next_state(s, r, noise, today);
            &&& grown - s.interval / 10 <= t.interval <= grown + s.interval / 10
            &&& s.interval <= 4 ==> t.interval == grown
        }),
{
}

} // verus!
