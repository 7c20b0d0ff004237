use vstd::prelude::*;

use crate::{Mode, SRData, SRDataV, sr_inv, E_FACTOR_LIMIT, INTERVAL_LIMIT, MIN_E_FACTOR};

verus! {

/// Recall-quality grade for one review, ordered from complete failure to
/// perfect recall. Grades of rank 3 and above count as successful.
#[derive(Clone, Copy, Debug, PartialEq, Eq, Structural)]
pub enum Evaluation {
    Blackout,
    IncorrectButRemembered,
    IncorrectWithEasyRecall,
    CorrectButHard,
    CorrectWithHesitation,
    Perfect,
}

/// Numeric rank of a grade, 0 through 5.
pub open spec fn rank(e: Evaluation) -> int {
    match e {
        Evaluation::Blackout => 0,
        Evaluation::IncorrectButRemembered => 1,
        Evaluation::IncorrectWithEasyRecall => 2,
        Evaluation::CorrectButHard => 3,
        Evaluation::CorrectWithHesitation => 4,
        Evaluation::Perfect => 5,
    }
}

impl Evaluation {
    /// The grade's numeric rank, 0 through 5.
    pub fn get_num(&self) -> (r: i64)
        ensures
            r == rank(*self),
    {
        match self {
            Evaluation::Blackout => 0,
            Evaluation::IncorrectButRemembered => 1,
            Evaluation::IncorrectWithEasyRecall => 2,
            Evaluation::CorrectButHard => 3,
            Evaluation::CorrectWithHesitation => 4,
            Evaluation::Perfect => 5,
        }
    }

    /// Converts a numeric rank to its grade; out-of-range values are rejected
    /// with `None` rather than passed further into the scheduling logic.
    pub fn from_num(value: i64) -> (r: Option<Evaluation>)
        ensures
            r is Some <==> 0 <= value <= 5,
            r is Some ==> rank(r->0) == value,
    {
        match value {
            0 => Some(Evaluation::Blackout),
            1 => Some(Evaluation::IncorrectButRemembered),
            2 => Some(Evaluation::IncorrectWithEasyRecall),
            3 => Some(Evaluation::CorrectButHard),
            4 => Some(Evaluation::CorrectWithHesitation),
            5 => Some(Evaluation::Perfect),
            _ => None,
        }
    }
}

/// Change of the ease factor, in hundredths, for a review of rank `r`: a
/// perfect recall gains a tenth, and every point below perfect compounds a
/// quadratic penalty.
pub open spec fn ease_delta(r: int) -> int {
    10 - (5 - r) * (8 + (5 - r) * 2)
}

/// The adjusted ease factor, clamped to its hard floor.
pub open spec fn next_ease(e: int, r: int) -> int {
    if e + ease_delta(r) >= MIN_E_FACTOR {
        e + ease_delta(r)
    } else {
        MIN_E_FACTOR as int
    }
}

/// The ease factor after a review: only `Learning` items have their ease
/// adjusted; for other modes it is untouched.
pub open spec fn updated_ease(s: SRDataV, r: int) -> int {
    if s.mode == Mode::Learning {
        next_ease(s.e_factor, r)
    } else {
        s.e_factor
    }
}

/// The old interval scaled by the new ease factor, rounded up to whole days.
pub open spec fn scaled_interval(interval: int, ease: int) -> int {
    (interval * ease + 99) / 100
}

/// The interval after a successful review: fixed one- and six-day steps for
/// the first two successes, then multiplicative growth plus optional jitter.
pub open spec fn next_interval(s: SRDataV, ease: int, noise: int) -> int {
    if s.n == 0 {
        1
    } else if s.n == 1 {
        6
    } else {
        scaled_interval(s.interval, ease) + noise
    }
}

/// Whether the state is a `Failed` item whose most recent review happened on
/// the given day: the same-day retry guard of the scheduler.
pub open spec fn same_day_failed(s: SRDataV, today: int) -> bool {
    s.mode == Mode::Failed && s.last_review == Some(today)
}

/// What the jitter added to a grown interval may be: zero when jitter is off
/// or the prior interval is at most four days, and otherwise at most a tenth
/// of the prior interval in either direction.
pub open spec fn noise_ok(s: SRDataV, add_noise: bool, noise: int) -> bool {
    if add_noise && s.interval > 4 {
        -(s.interval / 10) <= noise <= s.interval / 10
    } else {
        noise == 0
    }
}

/// The schedule state after one review of rank `r` on day `today`, with
/// jitter `noise`. Evaluated in order: the same-day guard for `Failed` items;
/// the ease adjustment for `Learning` items; then the success or failure
/// branch. Fields not reassigned carry over unchanged.
pub open spec fn next_state(s: SRDataV, r: int, noise: int, today: int) -> SRDataV {
    if same_day_failed(s, today) {
        if r >= 3 {
            SRDataV { mode: Mode::Learning, ..s }
        } else {
            s
        }
    } else {
        let ease = updated_ease(s, r);
        if r >= 3 {
            SRDataV {
                mode: Mode::Learning,
                e_factor: ease,
                interval: next_interval(s, ease, noise),
                n: s.n + 1,
                ..s
            }
        } else if s.mode == Mode::Learning {
            SRDataV { mode: Mode::Failed, e_factor: ease, n: 1, interval: 1, ..s }
        } else {
            s
        }
    }
}

/// Relies on `rand::random_range`: returns a value drawn from the given
/// inclusive range, which must be non-empty.
#[verifier::external_body]
fn draw_in_range(lo: i64, hi: i64) -> (r: i64)
    requires
        lo <= hi,
    ensures
        lo <= r <= hi,
{
    rand::random_range(lo..=hi)
}

/// Random jitter for a grown interval: zero for short intervals, and
/// otherwise at most a tenth of the interval in either direction.
pub fn generate_noise(input: i64) -> (r: i64)
    requires
        input >= 0,
    ensures
        input <= 4 ==> r == 0,
        input > 4 ==> -(input / 10) <= r <= input / 10,
{
    if input <= 4 {
        return 0;
    }

    let bound: i64 = input / 10;
    draw_in_range(-bound, bound)
}

/// The scheduling engine: computes the schedule state after one review.
///
/// The state must satisfy the schedule invariant, a `Failed` state must carry
/// a last-review date (the same-day guard reads it), and the ease factor and
/// interval must be small enough that the grown interval fits in `i64`.
///
/// The result is exactly `next_state` for some admissible jitter; with jitter
/// disabled it is exactly `next_state` with zero jitter, so the engine is a
/// pure function of its arguments.
pub fn compute_sr_data(
    sr_data: &SRData,
    evaluation: &Evaluation,
    add_noise_to_interval: bool,
    today: i64,
) -> (output: SRData)
    requires
        sr_inv(sr_data@),
        sr_data.mode == Mode::Failed ==> sr_data.last_review is Some,
        sr_data.e_factor <= E_FACTOR_LIMIT,
        sr_data.interval <= INTERVAL_LIMIT,
        sr_data.n < i64::MAX,
    ensures
        exists|noise: int|
            noise_ok(sr_data@, add_noise_to_interval, noise) && output@ == next_state(
                sr_data@,
                rank(*evaluation),
                noise,
                today as int,
            ),
        !add_noise_to_interval ==> output@ == next_state(sr_data@, rank(*evaluation), 0, today as int),
        sr_inv(output@),
{
    let mut output: SRData = *sr_data;

    if let Mode::Failed = sr_data.mode {
        if sr_data.last_review.unwrap() == today {
            if evaluation.get_num() >= 3 {
                output.mode = Mode::Learning;
            }
            assert(noise_ok(sr_data@, add_noise_to_interval, 0) && output@ == next_state(
                sr_data@,
                rank(*evaluation),
                0,
                today as int,
            ));
            return output;
        }
    }

    if let Mode::Learning = sr_data.mode {
        let r: i64 = evaluation.get_num();
        let shortfall: i64 = 5 - r;
        assert(0 <= shortfall * (8 + shortfall * 2) <= 90) by (nonlinear_arith)
            requires
                0 <= shortfall <= 5,
        ;
        let delta: i64 = 10 - shortfall * (8 + shortfall * 2);
        let bumped: i64 = sr_data.e_factor + delta;
        output.e_factor = if bumped >= MIN_E_FACTOR {
            bumped
        } else {
            MIN_E_FACTOR
        };
        assert(output.e_factor == updated_ease(sr_data@, rank(*evaluation)));
    }

    let ghost noise_used: int = 0;

    if evaluation.get_num() >= 3 {
        output.mode = Mode::Learning;

        if sr_data.n == 0 {
            output.interval = 1;
        } else if sr_data.n == 1 {
            output.interval = 6;
        } else {
            let noise: i64 = if add_noise_to_interval {
                generate_noise(sr_data.interval)
            } else {
                0
            };
            proof {
                noise_used = noise as int;
                assert(sr_data@.interval * output@.e_factor <= INTERVAL_LIMIT as int * (
                E_FACTOR_LIMIT + 10) as int) by (nonlinear_arith)
                    requires
                        1 <= sr_data@.interval <= INTERVAL_LIMIT as int,
                        MIN_E_FACTOR <= output@.e_factor <= (E_FACTOR_LIMIT + 10) as int,
                ;
                assert(sr_data@.interval * output@.e_factor >= MIN_E_FACTOR as int)
                    by (nonlinear_arith)
                    requires
                        1 <= sr_data@.interval,
                        MIN_E_FACTOR as int <= output@.e_factor,
                ;
            }
            output.interval = (sr_data.interval * output.e_factor + 99) / 100 + noise;
            proof {
                lemma_grown_interval_at_least_one(
                    sr_data@.interval,
                    output@.e_factor,
                    noise as int,
                );
            }
        }

        output.n = sr_data.n + 1;
    } else {
        if let Mode::Learning = sr_data.mode {
            output.mode = Mode::Failed;
            output.n = 1;
            output.interval = 1;
        }
    }

    assert(noise_ok(sr_data@, add_noise_to_interval, noise_used) && output@ == next_state(
        sr_data@,
        rank(*evaluation),
        noise_used,
        today as int,
    ));
    output
}

/// A grown interval stays at least one day: scaling an interval of at least
/// five days by an ease of at least the floor outweighs the largest possible
/// downward jitter, and shorter intervals get no jitter at all.
proof fn lemma_grown_interval_at_least_one(interval: int, ease: int, noise: int)
    requires
        interval >= 1,
        ease >= MIN_E_FACTOR,
        noise == 0 || (interval > 4 && -(interval / 10) <= noise <= interval / 10),
    ensures
        scaled_interval(interval, ease) + noise >= 1,
{
    assert(interval * ease >= interval * MIN_E_FACTOR) by (nonlinear_arith)
        requires
            interval >= 1,
            ease >= MIN_E_FACTOR,
    ;
    assert(interval * MIN_E_FACTOR == interval * 130);
    if noise == 0 {
        assert((interval * 130 + 99) / 100 >= 1);
        assert(scaled_interval(interval, ease) >= (interval * 130 + 99) / 100) by {
            vstd::arithmetic::div_mod::lemma_div_is_ordered(
                interval * 130 + 99,
                interval * ease + 99,
                100,
            );
        }
    } else {
        assert(interval >= 5);
        assert((interval * 130 + 99) / 100 >= (interval / 10) + 1) by {
            vstd::arithmetic::div_mod::lemma_div_is_ordered(
                100 * ((interval / 10) + 1),
                interval * 130 + 99,
                100,
            );
            vstd::arithmetic::div_mod::lemma_div_by_multiple((interval / 10) + 1, 100);
        }
        assert(scaled_interval(interval, ease) >= (interval * 130 + 99) / 100) by {
            vstd::arithmetic::div_mod::lemma_div_is_ordered(
                interval * 130 + 99,
                interval * ease + 99,
                100,
            );
        }
    }
}

} // verus!
