use renderdoc::sys::{
    API_VERSION_1_0_0, API_VERSION_1_0_1, API_VERSION_1_0_2, API_VERSION_1_1_0,
    API_VERSION_1_1_1, API_VERSION_1_1_2, API_VERSION_1_2_0, API_VERSION_1_3_0,
    API_VERSION_1_4_0, API_VERSION_1_4_1, API_VERSION_1_4_2, API_VERSION_1_5_0,
    API_VERSION_1_6_0,
};
use renderdoc::version::{
    from_digits, into_digits, Below, DebugVersion, HasPrevious, Minimum, Version, V100, V101,
    V102, V110, V111, V112, V120, V130, V140, V141, V142, V150, V160,
};

fn versions() -> [((u8, u8, u8), u32); 13] {
    [
        ((1, 0, 0), API_VERSION_1_0_0),
        ((1, 0, 1), API_VERSION_1_0_1),
        ((1, 0, 2), API_VERSION_1_0_2),
        ((1, 1, 0), API_VERSION_1_1_0),
        ((1, 1, 1), API_VERSION_1_1_1),
        ((1, 1, 2), API_VERSION_1_1_2),
        ((1, 2, 0), API_VERSION_1_2_0),
        ((1, 3, 0), API_VERSION_1_3_0),
        ((1, 4, 0), API_VERSION_1_4_0),
        ((1, 4, 1), API_VERSION_1_4_1),
        ((1, 4, 2), API_VERSION_1_4_2),
        ((1, 5, 0), API_VERSION_1_5_0),
        ((1, 6, 0), API_VERSION_1_6_0),
    ]
}

fn codes() -> [u32; 13] {
    [
        V100::VERSION,
        V101::VERSION,
        V102::VERSION,
        V110::VERSION,
        V111::VERSION,
        V112::VERSION,
        V120::VERSION,
        V130::VERSION,
        V140::VERSION,
        V141::VERSION,
        V142::VERSION,
        V150::VERSION,
        V160::VERSION,
    ]
}

fn at_least<A: Minimum<B>, B: Version>() -> bool {
    A::VERSION >= B::VERSION
}

fn strictly_below<A: Below<B>, B: Version>() -> bool {
    A::VERSION < B::VERSION
}

fn neighbours<B: HasPrevious + Minimum<B::Previous>>() -> (u32, u32)
where
    B::Previous: Below<B>,
{
    (B::Previous::VERSION, B::VERSION)
}

#[test]
fn encodes_version_from_digits() {
    for (input_digits, expected_version) in versions() {
        let (major, minor, patch) = input_digits;
        let computed_version = from_digits(major, minor, patch);
        assert_eq!(computed_version, expected_version);
    }
}

#[test]
fn decodes_digits_from_version() {
    for (expected_digits, input_version) in versions() {
        let computed_digits = into_digits(input_version);
        assert_eq!(computed_digits, expected_digits);
    }
}

#[test]
fn round_trip_from_into_digits() {
    let computed_versions = versions()
        .into_iter()
        .map(|((major, minor, patch), _)| from_digits(major, minor, patch));

    for (computed_version, (expected_digits, _)) in computed_versions.zip(versions()) {
        let computed_digits = into_digits(computed_version);
        assert_eq!(computed_digits, expected_digits);
    }
}

#[test]
fn produces_reasonable_debug_output() {
    assert_eq!(DebugVersion(API_VERSION_1_4_2).fmt_debug(), "1.4.2");
}

#[test]
fn tags_carry_the_codes_of_the_host() {
    assert_eq!(
        codes(),
        [
            10000, 10001, 10002, 10100, 10101, 10102, 10200, 10300, 10400, 10401, 10402, 10500,
            10600
        ]
    );
    for (index, (_, code)) in versions().into_iter().enumerate() {
        assert_eq!(codes()[index], code);
    }
}

#[test]
fn codes_strictly_increase_in_list_order() {
    let codes = codes();
    for i in 0..codes.len() {
        for j in (i + 1)..codes.len() {
            assert!(codes[i] < codes[j]);
        }
    }
}

#[test]
fn adjacent_tags_are_related_one_way_only() {
    let pairs = [
        neighbours::<V101>(),
        neighbours::<V102>(),
        neighbours::<V110>(),
        neighbours::<V111>(),
        neighbours::<V112>(),
        neighbours::<V120>(),
        neighbours::<V130>(),
        neighbours::<V140>(),
        neighbours::<V141>(),
        neighbours::<V142>(),
        neighbours::<V150>(),
        neighbours::<V160>(),
    ];
    let codes = codes();
    for (index, (older, newer)) in pairs.into_iter().enumerate() {
        assert_eq!(older, codes[index]);
        assert_eq!(newer, codes[index + 1]);
        // the newer is at least the older, the older is below the newer
        assert!(newer >= older);
        assert!(older < newer);
        // and not the other way round
        assert!(!(older >= newer));
        assert!(!(newer < older));
    }
}

#[test]
fn minimum_holds_wherever_the_code_is_at_least() {
    assert!(at_least::<V100, V100>());
    assert!(at_least::<V101, V100>());
    assert!(at_least::<V101, V101>());
    assert!(at_least::<V102, V101>());
    assert!(at_least::<V110, V102>());
    assert!(at_least::<V111, V110>());
    assert!(at_least::<V112, V111>());
    assert!(at_least::<V120, V112>());
    assert!(at_least::<V130, V120>());
    assert!(at_least::<V140, V130>());
    assert!(at_least::<V141, V140>());
    assert!(at_least::<V142, V141>());
    assert!(at_least::<V150, V142>());
    assert!(at_least::<V160, V150>());
    assert!(at_least::<V160, V160>());
    assert!(at_least::<V160, V100>());
    assert!(at_least::<V140, V102>());
    assert!(at_least::<V130, V110>());
}

#[test]
fn below_holds_wherever_the_code_is_less() {
    assert!(strictly_below::<V100, V101>());
    assert!(strictly_below::<V101, V102>());
    assert!(strictly_below::<V102, V110>());
    assert!(strictly_below::<V110, V111>());
    assert!(strictly_below::<V111, V112>());
    assert!(strictly_below::<V112, V120>());
    assert!(strictly_below::<V120, V130>());
    assert!(strictly_below::<V130, V140>());
    assert!(strictly_below::<V140, V141>());
    assert!(strictly_below::<V141, V142>());
    assert!(strictly_below::<V142, V150>());
    assert!(strictly_below::<V150, V160>());
    assert!(strictly_below::<V100, V160>());
    assert!(strictly_below::<V101, V130>());
    assert!(strictly_below::<V112, V142>());
}

#[test]
fn from_digits_follows_the_formula() {
    assert_eq!(from_digits(0, 0, 0), 0);
    assert_eq!(from_digits(1, 2, 3), 10203);
    assert_eq!(from_digits(0, 0, 255), 255);
    assert_eq!(from_digits(0, 255, 0), 25500);
    assert_eq!(from_digits(255, 255, 255), 2_550_000 + 25_500 + 255);
}

#[test]
fn into_digits_cuts_the_major_digit_to_eight_bits() {
    assert_eq!(into_digits(0), (0, 0, 0));
    assert_eq!(into_digits(99), (0, 0, 99));
    assert_eq!(into_digits(9999), (0, 99, 99));
    assert_eq!(into_digits(2_559_999), (255, 99, 99));
    assert_eq!(into_digits(2_560_000), (0, 0, 0));
    assert_eq!(into_digits(u32::MAX), ((429_496 % 256) as u8, 72, 95));
}

#[test]
fn digits_survive_the_round_trip_below_one_hundred() {
    for major in [0u8, 1, 7, 255] {
        for minor in [0u8, 1, 50, 99] {
            for patch in [0u8, 1, 50, 99] {
                assert_eq!(
                    into_digits(from_digits(major, minor, patch)),
                    (major, minor, patch)
                );
            }
        }
    }
    // a minor digit of 100 carries into the major one
    assert_eq!(into_digits(from_digits(1, 100, 0)), (2, 0, 0));
}

#[test]
fn debug_version_prints_three_decimal_numbers() {
    assert_eq!(DebugVersion(0).fmt_debug(), "0.0.0");
    assert_eq!(DebugVersion(API_VERSION_1_0_0).fmt_debug(), "1.0.0");
    assert_eq!(DebugVersion(API_VERSION_1_6_0).fmt_debug(), "1.6.0");
    assert_eq!(DebugVersion(2_559_999).fmt_debug(), "255.99.99");
    assert_eq!(DebugVersion(123_456).fmt_debug(), "12.34.56");
}

#[test]
fn shader_magic_values_are_those_of_the_host() {
    assert_eq!(
        renderdoc::SHADER_MAGIC_DEBUG_VALUE_BYTE_ARRAY,
        [
            0x20, 0x55, 0xb2, 0xea, 0x70, 0x66, 0x65, 0x48, 0x84, 0x29, 0x6c, 0x8, 0x51, 0x54,
            0x00, 0xff
        ]
    );
    assert_eq!(
        renderdoc::SHADER_MAGIC_DEBUG_VALUE_TRUNCATED,
        0x0485_6670_eab2_5520
    );
}
