use iching::sequence_table;
use iching::sequence_table::Error;
use iching::trigram::TrigramName;

const ALL_NAMES: [TrigramName; 8] = [
    TrigramName::Qian,
    TrigramName::Dui,
    TrigramName::Li,
    TrigramName::Zhen,
    TrigramName::Xun,
    TrigramName::Kan,
    TrigramName::Gen,
    TrigramName::Kun,
];

#[test]
fn king_wen_numbers_are_exactly_one_through_sixty_four() {
    let mut seen = [false; 65];
    for above in ALL_NAMES {
        for below in ALL_NAMES {
            let number = sequence_table::king_wen_number(above, below);
            assert!((1..=64).contains(&number));
            assert!(!seen[number as usize], "number {number} repeats");
            seen[number as usize] = true;
        }
    }
    assert!(seen[1..=64].iter().all(|&reached| reached));
}

#[test]
fn king_wen_pair_inverts_king_wen_number() {
    for above in ALL_NAMES {
        for below in ALL_NAMES {
            let number = sequence_table::king_wen_number(above, below);
            assert_eq!(sequence_table::king_wen_pair(number), Ok((above, below)));
        }
    }
    for number in 1..=64u8 {
        let (above, below) = sequence_table::king_wen_pair(number).unwrap();
        assert_eq!(sequence_table::king_wen_number(above, below), number);
    }
}

#[test]
fn king_wen_pair_rejects_every_out_of_range_integer() {
    for n in [0u8, 65, 66, 100, 255] {
        assert_eq!(
            sequence_table::king_wen_pair(n),
            Err(Error::IntegerOutOfRange(n))
        );
    }
}

#[test]
fn symbols_follow_the_unicode_hexagram_block() {
    for above in ALL_NAMES {
        for below in ALL_NAMES {
            let number = sequence_table::king_wen_number(above, below);
            let expected = char::from_u32(0x4DC0 + number as u32 - 1).unwrap().to_string();
            assert_eq!(sequence_table::symbol(above, below), expected);
        }
    }
}

#[test]
fn well_known_hexagrams_have_their_numbers() {
    let cases = [
        (TrigramName::Qian, TrigramName::Qian, 1),
        (TrigramName::Kun, TrigramName::Kun, 2),
        (TrigramName::Kan, TrigramName::Zhen, 3),
        (TrigramName::Gen, TrigramName::Kan, 4),
        (TrigramName::Xun, TrigramName::Qian, 9),
        (TrigramName::Kun, TrigramName::Qian, 11),
        (TrigramName::Qian, TrigramName::Kun, 12),
        (TrigramName::Kan, TrigramName::Kan, 29),
        (TrigramName::Li, TrigramName::Li, 30),
        (TrigramName::Kan, TrigramName::Li, 63),
        (TrigramName::Li, TrigramName::Kan, 64),
    ];
    for (above, below, number) in cases {
        assert_eq!(sequence_table::king_wen_number(above, below), number);
    }
}
