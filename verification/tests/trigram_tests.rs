use iching::divination_method::DivinationMethod;
use iching::line::Line;
use iching::trigram::Error;
use iching::trigram::Trigram;
use iching::trigram::TrigramName;

const ALL_NAMES: [TrigramName; 8] = [
    TrigramName::Qian,
    TrigramName::Dui,
    TrigramName::Li,
    TrigramName::Zhen,
    TrigramName::Xun,
    TrigramName::Kan,
    TrigramName::Gen,
    TrigramName::Kun,
];

#[test]
fn classification_covers_the_eight_canonical_patterns() {
    let broken = Line::broken();
    let unbroken = Line::unbroken();
    let cases = [
        (Trigram(unbroken, unbroken, unbroken), TrigramName::Qian),
        (Trigram(broken, broken, broken), TrigramName::Kun),
        (Trigram(broken, broken, unbroken), TrigramName::Zhen),
        (Trigram(broken, unbroken, broken), TrigramName::Kan),
        (Trigram(unbroken, broken, broken), TrigramName::Gen),
        (Trigram(unbroken, unbroken, broken), TrigramName::Xun),
        (Trigram(unbroken, broken, unbroken), TrigramName::Li),
        (Trigram(broken, unbroken, unbroken), TrigramName::Dui),
    ];
    for (trigram, name) in cases {
        assert_eq!(trigram.classify(), name);
    }
}

#[test]
fn classification_ignores_changing_marks() {
    let all_changing = Trigram(
        Line::unbroken_changing(),
        Line::unbroken_changing(),
        Line::unbroken_changing(),
    );
    assert_eq!(all_changing.classify(), TrigramName::Qian);
    let mixed = Trigram(Line::broken_changing(), Line::unbroken(), Line::broken());
    assert_eq!(mixed.classify(), TrigramName::Kan);
}

#[test]
fn rank_and_classification_round_trip() {
    for rank in 1..=8usize {
        let trigram = Trigram::from_rank(rank).unwrap();
        for line in trigram.lines() {
            assert!(!line.is_changing());
        }
        assert_eq!(trigram.classify().rank(), rank);
        assert_eq!(trigram.number(), rank);
        assert_eq!(Trigram::from_rank(trigram.number()).unwrap(), trigram);
    }
}

#[test]
fn from_rank_rejects_every_out_of_range_integer() {
    for n in [0usize, 9, 10, 64, usize::MAX] {
        assert_eq!(Trigram::from_rank(n), Err(Error::IntegerOutOfRange(n)));
    }
}

#[test]
fn the_eight_names_have_distinct_ranks_and_symbols() {
    let mut seen_ranks = [false; 9];
    for name in ALL_NAMES {
        let rank = name.rank();
        assert!((1..=8).contains(&rank));
        assert!(!seen_ranks[rank]);
        seen_ranks[rank] = true;
    }
    for a in ALL_NAMES {
        for b in ALL_NAMES {
            assert_eq!(a == b, a.symbol() == b.symbol());
        }
    }
}

#[test]
fn metadata_of_qian_matches_the_bagua() {
    let qian = Trigram::from_rank(1).unwrap();
    assert_eq!(qian.symbol(), "☰");
    assert_eq!(qian.pinyin(), "Qián");
    assert_eq!(qian.chinese(), "乾");
    assert_eq!(qian.english(), "The Creative");
    assert_eq!(qian.attribute(), "strong, persisting");
    assert_eq!(qian.image(), "heaven, sky");
    assert_eq!(qian.family_relationship(), "father");
    assert_eq!(qian.number(), 1);
}

#[test]
fn metadata_of_kun_matches_the_bagua() {
    let kun = Trigram::from_rank(8).unwrap();
    assert_eq!(kun.symbol(), "☷");
    assert_eq!(kun.pinyin(), "Kūn");
    assert_eq!(kun.chinese(), "坤");
    assert_eq!(kun.english(), "The Receptive");
    assert_eq!(kun.attribute(), "devoted, yielding");
    assert_eq!(kun.image(), "earth, ground");
    assert_eq!(kun.family_relationship(), "mother");
    assert_eq!(kun.number(), 8);
}

#[test]
fn trigram_lines_come_back_in_order() {
    let trigram = Trigram(Line::broken(), Line::unbroken_changing(), Line::unbroken());
    let lines = trigram.lines();
    assert_eq!(
        lines,
        vec![Line::broken(), Line::unbroken_changing(), Line::unbroken()]
    );
}

#[test]
fn random_trigrams_classify_to_some_name() {
    fastrand::seed(3);
    for _ in 0..100 {
        let trigram = Trigram::new_random(DivinationMethod::AncientYarrowStalk);
        assert!((1..=8).contains(&trigram.number()));
    }
    for _ in 0..100 {
        let coin = Trigram::from_coin_tosses();
        let yarrow = Trigram::from_yarrow_stalks();
        assert!((1..=8).contains(&coin.number()));
        assert!((1..=8).contains(&yarrow.number()));
    }
}
