use recli::{compute_sr_data, generate_noise, get_current_date, Evaluation, Mode, SRData};

#[test]
fn it_works() {
    let today = get_current_date();
    println!(
        "{:#?}",
        compute_sr_data(
            &SRData {
                last_review: Some(today - 30),
                interval: 1,
                n: 0,
                mode: Mode::Learning,
                ..Default::default()
            },
            &Evaluation::CorrectButHard,
            false,
            today,
        )
    );
}

#[test]
fn fresh_item_first_success() {
    let state = SRData {
        created: 1000,
        last_review: None,
        mode: Mode::New,
        review_count: 0,
        n: 0,
        e_factor: 250,
        interval: 1,
    };
    let next = compute_sr_data(&state, &Evaluation::CorrectButHard, false, 1000);
    assert_eq!(next.mode, Mode::Learning);
    assert_eq!(next.n, 1);
    assert_eq!(next.interval, 1);
    assert_eq!(next.e_factor, 250);
}

#[test]
fn second_success_six_days_and_ease_bump() {
    let state = SRData {
        created: 1000,
        last_review: Some(1001),
        mode: Mode::Learning,
        review_count: 1,
        n: 1,
        e_factor: 250,
        interval: 1,
    };
    let next = compute_sr_data(&state, &Evaluation::Perfect, false, 1002);
    assert_eq!(next.mode, Mode::Learning);
    assert_eq!(next.n, 2);
    assert_eq!(next.interval, 6);
    assert_eq!(next.e_factor, 260);
}

#[test]
fn third_success_grows_interval() {
    let state = SRData {
        created: 1000,
        last_review: Some(1002),
        mode: Mode::Learning,
        review_count: 2,
        n: 2,
        e_factor: 260,
        interval: 6,
    };
    let next = compute_sr_data(&state, &Evaluation::Perfect, false, 1008);
    assert_eq!(next.e_factor, 270);
    assert_eq!(next.interval, 17);
    assert_eq!(next.n, 3);
}

#[test]
fn learning_failure_demotes() {
    let state = SRData {
        created: 1000,
        last_review: Some(1050),
        mode: Mode::Learning,
        review_count: 9,
        n: 5,
        e_factor: 250,
        interval: 20,
    };
    let next = compute_sr_data(&state, &Evaluation::Blackout, false, 1070);
    assert_eq!(next.mode, Mode::Failed);
    assert_eq!(next.n, 1);
    assert_eq!(next.interval, 1);
    assert_eq!(next.e_factor, 170);
}

#[test]
fn perfect_never_lowers_ease() {
    let state = SRData {
        created: 1000,
        last_review: Some(1050),
        mode: Mode::Learning,
        review_count: 3,
        n: 2,
        e_factor: 130,
        interval: 5,
    };
    let next = compute_sr_data(&state, &Evaluation::Perfect, false, 1060);
    assert!(next.e_factor >= state.e_factor);
    assert!(next.e_factor >= 130);
}

#[test]
fn ease_clamped_at_floor() {
    let state = SRData {
        created: 1000,
        last_review: Some(1050),
        mode: Mode::Learning,
        review_count: 3,
        n: 2,
        e_factor: 130,
        interval: 5,
    };
    let next = compute_sr_data(&state, &Evaluation::Blackout, false, 1060);
    assert_eq!(next.e_factor, 130);
}

#[test]
fn failed_same_day_success_graduates_without_reschedule() {
    let state = SRData {
        created: 1000,
        last_review: Some(1060),
        mode: Mode::Failed,
        review_count: 4,
        n: 1,
        e_factor: 210,
        interval: 8,
    };
    let next = compute_sr_data(&state, &Evaluation::CorrectButHard, true, 1060);
    assert_eq!(next.mode, Mode::Learning);
    assert_eq!(next.interval, 8);
    assert_eq!(next.e_factor, 210);
    assert_eq!(next.n, 1);
}

#[test]
fn failed_same_day_failure_changes_nothing() {
    let state = SRData {
        created: 1000,
        last_review: Some(1060),
        mode: Mode::Failed,
        review_count: 4,
        n: 1,
        e_factor: 210,
        interval: 8,
    };
    let next = compute_sr_data(&state, &Evaluation::Blackout, true, 1060);
    assert_eq!(next, state);
}

#[test]
fn failed_next_day_success_reschedules() {
    let state = SRData {
        created: 1000,
        last_review: Some(1060),
        mode: Mode::Failed,
        review_count: 4,
        n: 1,
        e_factor: 210,
        interval: 8,
    };
    let next = compute_sr_data(&state, &Evaluation::CorrectButHard, false, 1061);
    assert_eq!(next.mode, Mode::Learning);
    assert_eq!(next.interval, 6);
    assert_eq!(next.n, 2);
    assert_eq!(next.e_factor, 210);
}

#[test]
fn engine_is_deterministic_without_noise() {
    let state = SRData {
        created: 1000,
        last_review: Some(1050),
        mode: Mode::Learning,
        review_count: 6,
        n: 4,
        e_factor: 280,
        interval: 15,
    };
    let first = compute_sr_data(&state, &Evaluation::CorrectWithHesitation, false, 1070);
    let second = compute_sr_data(&state, &Evaluation::CorrectWithHesitation, false, 1070);
    assert_eq!(first, second);
}

#[test]
fn noisy_interval_stays_within_tenth() {
    let state = SRData {
        created: 1000,
        last_review: Some(1050),
        mode: Mode::Learning,
        review_count: 6,
        n: 4,
        e_factor: 250,
        interval: 20,
    };
    // ceil(20 * 2.50) = 50, jitter at most 20 / 10 = 2 either way.
    for _ in 0..50 {
        let next = compute_sr_data(&state, &Evaluation::CorrectWithHesitation, true, 1080);
        assert!(48 <= next.interval && next.interval <= 52);
    }
}

#[test]
fn no_noise_for_short_intervals() {
    for _ in 0..20 {
        assert_eq!(generate_noise(4), 0);
        assert_eq!(generate_noise(1), 0);
        let drawn = generate_noise(20);
        assert!(-2 <= drawn && drawn <= 2);
    }
}

#[test]
fn rank_round_trip() {
    for value in 0..6 {
        let eval = Evaluation::from_num(value).unwrap();
        assert_eq!(eval.get_num(), value);
    }
    assert_eq!(Evaluation::from_num(-1), None);
    assert_eq!(Evaluation::from_num(6), None);
}

#[test]
fn default_state_is_fresh() {
    let state = SRData::default();
    assert_eq!(state.mode, Mode::New);
    assert_eq!(state.last_review, None);
    assert_eq!(state.review_count, 0);
    assert_eq!(state.n, 0);
    assert_eq!(state.e_factor, 250);
    assert_eq!(state.interval, 1);
}

#[test]
fn mode_names() {
    assert_eq!(Mode::New.to_string(), "New");
    assert_eq!(Mode::Learning.to_string(), "Learning");
    assert_eq!(Mode::Failed.to_string(), "Failed");
}

#[test]
fn mode_names_round_trip() {
    for mode in [Mode::New, Mode::Learning, Mode::Failed] {
        assert_eq!(Mode::from_string(&mode.to_string()), mode);
    }
    assert_eq!(Mode::from_string(&String::from("anything else")), Mode::New);
}
