use iching::divination_method::DivinationMethod;
use iching::line::Error;
use iching::line::Line;

#[test]
fn from_digit_maps_the_casting_convention() {
    assert_eq!(Line::from_digit(6), Ok(Line::broken_changing()));
    assert_eq!(Line::from_digit(7), Ok(Line::unbroken()));
    assert_eq!(Line::from_digit(8), Ok(Line::broken()));
    assert_eq!(Line::from_digit(9), Ok(Line::unbroken_changing()));
}

#[test]
fn from_digit_rejects_every_out_of_range_integer() {
    for n in 0..=255u8 {
        if (6..=9).contains(&n) {
            assert!(Line::from_digit(n).is_ok());
        } else {
            assert_eq!(Line::from_digit(n), Err(Error::IntegerOutOfRange(n)));
        }
    }
}

#[test]
fn the_four_lines_are_distinct() {
    let lines = [
        Line::broken(),
        Line::broken_changing(),
        Line::unbroken(),
        Line::unbroken_changing(),
    ];
    for (i, a) in lines.iter().enumerate() {
        for (j, b) in lines.iter().enumerate() {
            assert_eq!(i == j, a == b);
        }
    }
}

#[test]
fn is_changing_reads_the_changing_mark() {
    assert!(!Line::broken().is_changing());
    assert!(Line::broken_changing().is_changing());
    assert!(!Line::unbroken().is_changing());
    assert!(Line::unbroken_changing().is_changing());
}

#[test]
fn settle_flips_changing_lines_and_keeps_settled_ones() {
    assert_eq!(Line::broken().settle(), Line::broken());
    assert_eq!(Line::unbroken().settle(), Line::unbroken());
    assert_eq!(Line::broken_changing().settle(), Line::unbroken());
    assert_eq!(Line::unbroken_changing().settle(), Line::broken());
}

#[test]
fn settle_is_idempotent_for_every_digit_line() {
    for n in 6..=9u8 {
        let line = Line::from_digit(n).unwrap();
        let settled = line.settle();
        assert!(!settled.is_changing());
        assert_eq!(settled.settle(), settled);
        assert_eq!(settled.settle().settle(), settled);
    }
}

#[test]
fn coin_draws_have_the_simplified_single_draw_weights() {
    let mut counts = [0usize; 4];
    for d in 1..=16u8 {
        match Line::from_coin_draw(d) {
            Line::Broken { changing: true } => counts[0] += 1,
            Line::Broken { changing: false } => counts[1] += 1,
            Line::Unbroken { changing: true } => counts[2] += 1,
            Line::Unbroken { changing: false } => counts[3] += 1,
        }
    }
    assert_eq!(counts, [2, 6, 2, 6]);
}

#[test]
fn yarrow_draws_have_the_traditional_weights() {
    let mut counts = [0usize; 4];
    for d in 1..=16u8 {
        match Line::from_yarrow_draw(d) {
            Line::Broken { changing: true } => counts[0] += 1,
            Line::Broken { changing: false } => counts[1] += 1,
            Line::Unbroken { changing: true } => counts[2] += 1,
            Line::Unbroken { changing: false } => counts[3] += 1,
        }
    }
    assert_eq!(counts, [1, 7, 3, 5]);
}

fn empirical_frequencies<F: FnMut() -> Line>(draws: usize, mut generate: F) -> [f64; 4] {
    let mut counts = [0usize; 4];
    for _ in 0..draws {
        match generate() {
            Line::Broken { changing: true } => counts[0] += 1,
            Line::Broken { changing: false } => counts[1] += 1,
            Line::Unbroken { changing: true } => counts[2] += 1,
            Line::Unbroken { changing: false } => counts[3] += 1,
        }
    }
    let total = draws as f64;
    [
        counts[0] as f64 / total,
        counts[1] as f64 / total,
        counts[2] as f64 / total,
        counts[3] as f64 / total,
    ]
}

#[test]
fn yarrow_stalk_generation_converges_to_its_distribution() {
    fastrand::seed(7);
    let draws = 160_000;
    let frequencies = empirical_frequencies(draws, Line::from_yarrow_stalks);
    let expected = [1.0 / 16.0, 7.0 / 16.0, 3.0 / 16.0, 5.0 / 16.0];
    for (frequency, target) in frequencies.iter().zip(expected.iter()) {
        assert!(
            (frequency - target).abs() < 0.01,
            "frequency {frequency} is too far from {target}"
        );
    }
}

#[test]
fn coin_toss_generation_converges_to_its_distribution() {
    fastrand::seed(11);
    let draws = 160_000;
    let frequencies =
        empirical_frequencies(draws, || Line::new_random(DivinationMethod::CoinToss));
    let expected = [2.0 / 16.0, 6.0 / 16.0, 2.0 / 16.0, 6.0 / 16.0];
    for (frequency, target) in frequencies.iter().zip(expected.iter()) {
        assert!(
            (frequency - target).abs() < 0.01,
            "frequency {frequency} is too far from {target}"
        );
    }
}
