use std::collections::VecDeque;

use recli::session::{
    apply_review, auto_classify, check_answer, classify_rating, finish_practice_item,
    finish_review_item, preview_outcomes, should_requeue,
};
use recli::{Command, Evaluation, Mode, SRData};

fn sample_command(task: &str, expected: &str, sr_data: SRData) -> Command {
    Command {
        id: Some(1),
        task: task.to_string(),
        context: None,
        prompt: None,
        command: expected.to_string(),
        response: None,
        tags: None,
        sr_data,
    }
}

#[test]
fn ratings_map_to_grades() {
    assert_eq!(classify_rating(true, 1), Some(Evaluation::CorrectButHard));
    assert_eq!(classify_rating(true, 2), Some(Evaluation::CorrectWithHesitation));
    assert_eq!(classify_rating(true, 3), Some(Evaluation::Perfect));
    assert_eq!(classify_rating(false, 1), Some(Evaluation::Blackout));
    assert_eq!(classify_rating(false, 2), Some(Evaluation::IncorrectButRemembered));
    assert_eq!(classify_rating(false, 3), Some(Evaluation::IncorrectWithEasyRecall));
}

#[test]
fn out_of_range_ratings_rejected() {
    assert_eq!(classify_rating(true, 0), None);
    assert_eq!(classify_rating(true, 4), None);
    assert_eq!(classify_rating(false, -7), None);
}

#[test]
fn auto_grades_for_unlearned_items() {
    assert_eq!(auto_classify(true), Evaluation::CorrectButHard);
    assert_eq!(auto_classify(false), Evaluation::Blackout);
}

#[test]
fn answers_are_trimmed_before_comparison() {
    let expected = String::from("git log --oneline");
    assert!(check_answer(&expected, &String::from("  git log --oneline \n")));
    assert!(check_answer(&expected, &String::from("git log --oneline")));
    assert!(!check_answer(&expected, &String::from("git log")));
    assert!(!check_answer(&expected, &String::from("GIT LOG --ONELINE")));
}

#[test]
fn failed_grades_requeue() {
    assert!(should_requeue(&Evaluation::Blackout));
    assert!(should_requeue(&Evaluation::IncorrectWithEasyRecall));
    assert!(!should_requeue(&Evaluation::CorrectButHard));
    assert!(!should_requeue(&Evaluation::Perfect));
}

#[test]
fn review_requeues_only_failures() {
    let sr = SRData::default();
    let mut queue: VecDeque<Command> = VecDeque::new();
    finish_review_item(&mut queue, sample_command("a", "x", sr), &Evaluation::Blackout);
    assert_eq!(queue.len(), 1);
    finish_review_item(&mut queue, sample_command("b", "y", sr), &Evaluation::Perfect);
    assert_eq!(queue.len(), 1);
    assert_eq!(queue[0].task, "a");
}

#[test]
fn practice_requeues_only_wrong_answers() {
    let sr = SRData::default();
    let mut queue: VecDeque<Command> = VecDeque::new();
    finish_practice_item(&mut queue, sample_command("a", "x", sr), false);
    finish_practice_item(&mut queue, sample_command("b", "y", sr), true);
    assert_eq!(queue.len(), 1);
    assert_eq!(queue[0].task, "a");
}

#[test]
fn preview_shows_three_learning_outcomes() {
    let state = SRData {
        created: 1000,
        last_review: Some(1002),
        mode: Mode::Learning,
        review_count: 2,
        n: 2,
        e_factor: 260,
        interval: 6,
    };
    let (hard, good, perfect) = preview_outcomes(&state, true, 1008);
    assert_eq!(hard.e_factor, 246);
    assert_eq!(hard.interval, 15); // ceil(6 * 2.46) = 15
    assert_eq!(good.e_factor, 260);
    assert_eq!(good.interval, 16); // ceil(6 * 2.60) = 16
    assert_eq!(perfect.e_factor, 270);
    assert_eq!(perfect.interval, 17); // ceil(6 * 2.70) = 17

    let (blackout, remembered, easy) = preview_outcomes(&state, false, 1008);
    assert_eq!(blackout.e_factor, 180);
    assert_eq!(remembered.e_factor, 206);
    assert_eq!(easy.e_factor, 228);
    assert_eq!(blackout.mode, Mode::Failed);
    assert_eq!(remembered.interval, 1);
    assert_eq!(easy.n, 1);
}

#[test]
fn committed_review_stamps_and_reschedules() {
    let mut command = sample_command(
        "list files",
        "ls",
        SRData {
            created: 1000,
            last_review: Some(1050),
            mode: Mode::Failed,
            review_count: 4,
            n: 1,
            e_factor: 210,
            interval: 8,
        },
    );
    apply_review(&mut command, &Evaluation::CorrectButHard, 1070);
    // The stamped last-review date makes the same-day guard fire: the item
    // graduates back to Learning with interval and ease untouched.
    assert_eq!(command.sr_data.review_count, 5);
    assert_eq!(command.sr_data.last_review, Some(1070));
    assert_eq!(command.sr_data.mode, Mode::Learning);
    assert_eq!(command.sr_data.interval, 8);
    assert_eq!(command.sr_data.e_factor, 210);
    assert_eq!(command.task, "list files");
}
