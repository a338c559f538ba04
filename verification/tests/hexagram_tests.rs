use iching::divination_method::DivinationMethod;
use iching::line::Line;
use iching::trigram::Trigram;
use iching::trigram::TrigramName;
use iching::Hexagram;

fn all_unbroken() -> Trigram {
    Trigram(Line::unbroken(), Line::unbroken(), Line::unbroken())
}

#[test]
fn the_creative_heaven_scenario() {
    let hexagram = Hexagram::new(all_unbroken(), all_unbroken());
    assert_eq!(
        hexagram.trigram_names(false),
        (TrigramName::Qian, TrigramName::Qian)
    );
    assert_eq!(hexagram.sequence_number(false), 1);
    assert_eq!(hexagram.symbol(false), "䷀");
    assert!(hexagram.get_changing_line_positions().is_empty());
    assert_eq!(hexagram.relating_hexagram(), None);
}

#[test]
fn one_changing_line_relates_to_small_taming() {
    let above = Trigram(Line::unbroken(), Line::unbroken(), Line::unbroken_changing());
    let hexagram = Hexagram::new(above, all_unbroken());

    assert_eq!(
        hexagram.trigram_names(false),
        (TrigramName::Qian, TrigramName::Qian)
    );
    assert_eq!(hexagram.sequence_number(false), 1);
    assert_eq!(hexagram.get_changing_line_positions(), vec![3]);

    let relating = hexagram.relating_hexagram().unwrap();
    assert_eq!(
        relating.trigram_names(false),
        (TrigramName::Xun, TrigramName::Qian)
    );
    assert_eq!(relating.sequence_number(false), 9);
    assert_eq!(hexagram.sequence_number(true), 9);
    assert!(relating.get_changing_line_positions().is_empty());
}

#[test]
fn relating_hexagram_exists_exactly_when_lines_change() {
    let lines = [
        Line::broken(),
        Line::broken_changing(),
        Line::unbroken(),
        Line::unbroken_changing(),
    ];
    for a in lines {
        for b in lines {
            let hexagram = Hexagram::new(
                Trigram(a, Line::unbroken(), Line::broken()),
                Trigram(Line::broken(), b, Line::unbroken()),
            );
            let positions = hexagram.get_changing_line_positions();
            assert_eq!(hexagram.relating_hexagram().is_none(), positions.is_empty());
            if let Some(relating) = hexagram.relating_hexagram() {
                assert!(relating.get_changing_line_positions().is_empty());
                assert_eq!(relating.relating_hexagram(), None);
            }
        }
    }
}

#[test]
fn changing_line_positions_scan_above_then_below() {
    let hexagram = Hexagram::new(
        Trigram(Line::broken_changing(), Line::broken(), Line::unbroken_changing()),
        Trigram(Line::unbroken(), Line::broken_changing(), Line::unbroken_changing()),
    );
    assert_eq!(hexagram.get_changing_line_positions(), vec![1, 3, 5, 6]);
}

#[test]
fn hexagram_lines_come_back_above_first() {
    let above = Trigram(Line::broken(), Line::unbroken(), Line::broken_changing());
    let below = Trigram(Line::unbroken_changing(), Line::broken(), Line::unbroken());
    let hexagram = Hexagram::new(above, below);
    assert_eq!(
        hexagram.lines(),
        vec![
            Line::broken(),
            Line::unbroken(),
            Line::broken_changing(),
            Line::unbroken_changing(),
            Line::broken(),
            Line::unbroken(),
        ]
    );
    assert_eq!(*hexagram.above(), above);
    assert_eq!(*hexagram.below(), below);
}

#[test]
fn from_digits_builds_the_cast_hexagram() {
    let hexagram = Hexagram::from_digits([7, 7, 7, 7, 7, 7]).unwrap();
    assert_eq!(hexagram.sequence_number(false), 1);
    assert_eq!(hexagram.relating_hexagram(), None);

    let cast = Hexagram::from_digits([7, 7, 9, 7, 7, 7]).unwrap();
    assert_eq!(cast.sequence_number(false), 1);
    assert_eq!(cast.sequence_number(true), 9);
    assert_eq!(cast.get_changing_line_positions(), vec![3]);

    let receptive = Hexagram::from_digits([8, 8, 8, 8, 8, 8]).unwrap();
    assert_eq!(receptive.sequence_number(false), 2);
    assert_eq!(receptive.symbol(false), "䷁");
}

#[test]
fn from_digits_rejects_the_first_bad_digit() {
    assert_eq!(
        Hexagram::from_digits([5, 7, 7, 7, 7, 7]),
        Err(iching::line::Error::IntegerOutOfRange(5))
    );
    assert_eq!(
        Hexagram::from_digits([7, 7, 7, 7, 7, 10]),
        Err(iching::line::Error::IntegerOutOfRange(10))
    );
    assert_eq!(
        Hexagram::from_digits([7, 0, 7, 5, 7, 7]),
        Err(iching::line::Error::IntegerOutOfRange(0))
    );
}

#[test]
fn symbol_with_changes_shows_the_settled_figure() {
    let cast = Hexagram::from_digits([7, 7, 9, 7, 7, 7]).unwrap();
    assert_eq!(cast.symbol(false), "䷀");
    assert_eq!(cast.symbol(true), "䷈");
}

#[test]
fn random_hexagrams_stay_in_the_king_wen_range() {
    fastrand::seed(5);
    for _ in 0..100 {
        let hexagram = Hexagram::new_random(DivinationMethod::AncientYarrowStalk);
        assert!((1..=64).contains(&hexagram.sequence_number(false)));
        assert!((1..=64).contains(&hexagram.sequence_number(true)));
        let settled = hexagram.sequence_number(true);
        if let Some(relating) = hexagram.relating_hexagram() {
            assert_eq!(relating.sequence_number(false), settled);
        } else {
            assert_eq!(hexagram.sequence_number(false), settled);
        }
    }
}
