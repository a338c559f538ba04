use iching::hexagram_info;
use iching::hexagram_info::ChangingLineMeaning;
use iching::hexagram_info::NameTranslations;
use iching::hexagram_info::TrigramUsizePair;
use iching::trigram;
use iching::trigram::Trigram;
use iching::trigram::TrigramName;

fn meaning(position: usize, text: &str) -> ChangingLineMeaning {
    ChangingLineMeaning {
        position,
        meaning: String::from(text),
    }
}

#[test]
fn line_meanings_keep_matching_positions_in_order() {
    let meanings = vec![
        meaning(1, "at the beginning"),
        meaning(2, "in the second place"),
        meaning(3, "in the third place"),
        meaning(6, "at the top"),
    ];
    let changing = vec![3, 1, 6];
    let kept = hexagram_info::line_meanings(&meanings, &changing);
    let summary: Vec<(usize, &str)> = kept
        .iter()
        .map(|m| (m.position, m.meaning.as_str()))
        .collect();
    assert_eq!(
        summary,
        vec![
            (1, "at the beginning"),
            (3, "in the third place"),
            (6, "at the top"),
        ]
    );
}

#[test]
fn line_meanings_of_no_changing_lines_are_empty() {
    let meanings = vec![meaning(1, "at the beginning"), meaning(2, "in the second place")];
    let changing: Vec<usize> = Vec::new();
    assert!(hexagram_info::line_meanings(&meanings, &changing).is_empty());
    let unmatched = vec![4, 5, 6];
    assert!(hexagram_info::line_meanings(&meanings, &unmatched).is_empty());
}

#[test]
fn contains_position_finds_only_present_positions() {
    let positions = vec![2, 4, 6];
    assert!(hexagram_info::contains_position(&positions, 4));
    assert!(!hexagram_info::contains_position(&positions, 3));
    assert!(!hexagram_info::contains_position(&Vec::new(), 1));
}

#[test]
fn trigram_rank_pairs_convert_to_canonical_trigrams() {
    let pair = TrigramUsizePair { above: 5, below: 1 };
    let (above, below) = pair.trigrams().unwrap();
    assert_eq!(above.classify(), TrigramName::Xun);
    assert_eq!(below.classify(), TrigramName::Qian);

    let bad_above = TrigramUsizePair { above: 0, below: 1 };
    assert_eq!(
        bad_above.trigrams(),
        Err(trigram::Error::IntegerOutOfRange(0))
    );
    let bad_below = TrigramUsizePair { above: 3, below: 9 };
    assert_eq!(
        bad_below.trigrams(),
        Err(trigram::Error::IntegerOutOfRange(9))
    );
    let both_bad = TrigramUsizePair { above: 9, below: 0 };
    assert_eq!(
        both_bad.trigrams(),
        Err(trigram::Error::IntegerOutOfRange(9))
    );
}

#[test]
fn name_translations_carry_their_fields() {
    let names = NameTranslations {
        english: String::from("The Creative"),
        chinese: String::from("乾"),
        pinyin: String::from("Qián"),
    };
    assert_eq!(names.english, "The Creative");
    assert_eq!(names.chinese, "乾");
    assert_eq!(names.pinyin, "Qián");
    let qian = Trigram::from_rank(1).unwrap();
    assert_eq!(qian.english(), names.english);
    assert_eq!(qian.chinese(), names.chinese);
    assert_eq!(qian.pinyin(), names.pinyin);
}
