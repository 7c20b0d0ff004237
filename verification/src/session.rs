use vstd::prelude::*;

use std::collections::VecDeque;

use crate::{Command, Mode, SRData, SRDataV, sr_inv, E_FACTOR_LIMIT, INTERVAL_LIMIT};
use crate::spaced_repetition::{compute_sr_data, next_state, noise_ok, rank, Evaluation};
use crate::utilities::{trim_of, trimmed};

verus! {

/// Maps a user rating in 1 through 3, together with whether the literal
/// answer matched, to a recall grade: correct answers map to grades 3
/// through 5, incorrect ones to grades 0 through 2. Any other rating is
/// rejected with `None`, never silently coerced.
pub fn classify_rating(is_correct: bool, rating: i64) -> (r: Option<Evaluation>)
    ensures
        r is Some <==> 1 <= rating <= 3,
        r is Some ==> rank(r->0) == rating - 1 + if is_correct {
            3int
        } else {
            0int
        },
{
    if rating >= 1 && rating <= 3 {
        let num: i64 = rating - 1 + if is_correct {
            3
        } else {
            0
        };
        Evaluation::from_num(num)
    } else {
        None
    }
}

/// Grades an answer for an item outside `Learning` mode, where no rating is
/// solicited: a correct answer counts as correct-but-hard, an incorrect one
/// as a blackout.
pub fn auto_classify(is_correct: bool) -> (r: Evaluation)
    ensures
        r == if is_correct {
            Evaluation::CorrectButHard
        } else {
            Evaluation::Blackout
        },
{
    if is_correct {
        Evaluation::CorrectButHard
    } else {
        Evaluation::Blackout
    }
}

/// Whether the user's input matches the expected command: exact,
/// case-sensitive equality after trimming the input.
pub fn check_answer(expected: &String, user_input: &String) -> (r: bool)
    ensures
        r <==> expected@ == trim_of(user_input@),
{
    let t: String = trimmed(user_input);
    expected.eq(&t)
}

/// Whether the item must be retried later in the same session: failed grades
/// re-enter the queue, successful ones retire the item for the session.
pub fn should_requeue(evaluation: &Evaluation) -> (r: bool)
    ensures
        r <==> rank(*evaluation) < 3,
{
    evaluation.get_num() < 3
}

/// The three anticipated outcomes shown for a `Learning` item before the
/// user picks a grade, computed speculatively with jitter disabled: after a
/// correct answer the states for grades 3, 4 and 5, after an incorrect one
/// the states for grades 0, 1 and 2.
pub fn preview_outcomes(sr_data: &SRData, is_correct: bool, today: i64) -> (r: (
    SRData,
    SRData,
    SRData,
))
    requires
        sr_inv(sr_data@),
        sr_data.mode == Mode::Failed ==> sr_data.last_review is Some,
        sr_data.e_factor <= E_FACTOR_LIMIT,
        sr_data.interval <= INTERVAL_LIMIT,
        sr_data.n < i64::MAX,
    ensures
        ({
            let base: int = if is_correct {
                3
            } else {
                0
            };
            &&& r.0@ == next_state(sr_data@, base, 0, today as int)
            &&& r.1@ == next_state(sr_data@, base + 1, 0, today as int)
            &&& r.2@ == next_state(sr_data@, base + 2, 0, today as int)
        }),
{
    if is_correct {
        (
            compute_sr_data(sr_data, &Evaluation::CorrectButHard, false, today),
            compute_sr_data(sr_data, &Evaluation::CorrectWithHesitation, false, today),
            compute_sr_data(sr_data, &Evaluation::Perfect, false, today),
        )
    } else {
        (
            compute_sr_data(sr_data, &Evaluation::Blackout, false, today),
            compute_sr_data(sr_data, &Evaluation::IncorrectButRemembered, false, today),
            compute_sr_data(sr_data, &Evaluation::IncorrectWithEasyRecall, false, today),
        )
    }
}

/// Commits one completed review to an item, as the review session does:
/// counts the review, stamps today as the last review date, and reschedules
/// through the engine with jitter enabled. Everything but the schedule state
/// is left untouched.
pub fn apply_review(command: &mut Command, evaluation: &Evaluation, today: i64)
    requires
        sr_inv(old(command).sr_data@),
        old(command).sr_data.review_count < i64::MAX,
        old(command).sr_data.n < i64::MAX,
        old(command).sr_data.e_factor <= E_FACTOR_LIMIT,
        old(command).sr_data.interval <= INTERVAL_LIMIT,
    ensures
        ({
            let stamped = SRDataV {
                review_count: old(command).sr_data@.review_count + 1,
                last_review: Some(today as int),
                ..old(command).sr_data@
            };
            exists|noise: int|
                noise_ok(stamped, true, noise) && final(command).sr_data@ == next_state(
                    stamped,
                    rank(*evaluation),
                    noise,
                    today as int,
                )
        }),
        sr_inv(final(command).sr_data@),
        final(command).id == old(command).id,
        final(command).task == old(command).task,
        final(command).context == old(command).context,
        final(command).prompt == old(command).prompt,
        final(command).command == old(command).command,
        final(command).response == old(command).response,
        final(command).tags == old(command).tags,
{
    command.sr_data.review_count = command.sr_data.review_count + 1;
    command.sr_data.last_review = Some(today);
    let updated: SRData = compute_sr_data(&command.sr_data, evaluation, true, today);
    command.sr_data = updated;
}

/// After an item's review is committed: a failed grade re-appends the item
/// to the back of the queue for another attempt this session, a successful
/// one keeps the queue as it is.
pub fn finish_review_item(
    queue: &mut VecDeque<Command>,
    command: Command,
    evaluation: &Evaluation,
)
    ensures
        rank(*evaluation) < 3 ==> final(queue)@ == old(queue)@.push(command),
        rank(*evaluation) >= 3 ==> final(queue)@ == old(queue)@,
{
    if should_requeue(evaluation) {
        queue.push_back(command);
    }
}

/// Practice discipline: a wrong answer re-enqueues the item at the back of
/// the queue, a correct one discards it from this run.
pub fn finish_practice_item(queue: &mut VecDeque<Command>, command: Command, is_correct: bool)
    ensures
        !is_correct ==> final(queue)@ == old(queue)@.push(command),
        is_correct ==> final(queue)@ == old(queue)@,
{
    if !is_correct {
        queue.push_back(command);
    }
}

} // verus!
