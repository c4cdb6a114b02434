use std::collections::BTreeSet;

use renderdoc::overlay_bits::OverlayBits;
use renderdoc::sys::{
    OVERLAY_CAPTURE_LIST, OVERLAY_DEFAULT, OVERLAY_ENABLED, OVERLAY_FRAME_NUMBER,
    OVERLAY_FRAME_RATE,
};
use renderdoc::version::{V100, V101, V160};

#[test]
fn from_bits_truncate_works() {
    let invalid_flag = 0b10000;
    let bits = OVERLAY_CAPTURE_LIST | invalid_flag;
    let truncated = OverlayBits::<V100>::from_bits_truncate(bits);
    assert_eq!(truncated.bits() & invalid_flag, 0);
    assert_eq!(
        truncated.bits() & OVERLAY_CAPTURE_LIST,
        OVERLAY_CAPTURE_LIST
    );
}

#[test]
fn iter_works() {
    let flags: BTreeSet<OverlayBits<V100>> = (OverlayBits::FRAME_RATE() | OverlayBits::ENABLED())
        .iter()
        .into_iter()
        .collect();

    assert_eq!(
        flags,
        BTreeSet::from([OverlayBits::<V100>::ENABLED(), OverlayBits::FRAME_RATE()])
    );

    let all: BTreeSet<OverlayBits<V100>> = OverlayBits::all().iter().into_iter().collect();

    assert_eq!(
        all,
        BTreeSet::from([
            OverlayBits::<V100>::ENABLED(),
            OverlayBits::FRAME_RATE(),
            OverlayBits::FRAME_NUMBER(),
            OverlayBits::CAPTURE_LIST()
        ])
    );
}

#[test]
fn bitand_works() {
    let flags: OverlayBits<V100> = OverlayBits::FRAME_RATE() & OverlayBits::FRAME_NUMBER();
    assert_eq!(flags.bits(), OVERLAY_FRAME_RATE & OVERLAY_FRAME_NUMBER);
}

#[test]
fn bitor_works() {
    let flags: OverlayBits<V100> = OverlayBits::ENABLED() | OverlayBits::FRAME_RATE();
    assert_eq!(flags.bits(), OVERLAY_ENABLED | OVERLAY_FRAME_RATE);
}

#[test]
fn bitnot_works() {
    let flags: OverlayBits<V100> = !OverlayBits::CAPTURE_LIST();
    assert_eq!(flags.bits(), !OVERLAY_CAPTURE_LIST);
}

#[test]
fn fmt_binary_works() {
    let flags: OverlayBits<V100> = OverlayBits::ENABLED() | OverlayBits::CAPTURE_LIST();
    assert_eq!(flags.fmt_binary(), format!("{:b}", flags.bits()));
}

#[test]
fn fmt_debug_works() {
    let flags: OverlayBits<V100> = OverlayBits::FRAME_NUMBER() | OverlayBits::CAPTURE_LIST();
    assert_eq!(flags.fmt_debug(), "FRAME_NUMBER | CAPTURE_LIST");

    let empty: OverlayBits<V100> = OverlayBits::empty();
    assert_eq!(empty.fmt_debug(), "(empty)");

    let all: OverlayBits<V100> = OverlayBits::all();
    assert_eq!(
        all.fmt_debug(),
        "ENABLED | FRAME_RATE | FRAME_NUMBER | CAPTURE_LIST"
    );
}

#[test]
fn partial_eq_with_same_version() {
    let first: OverlayBits<V100> = OverlayBits::ENABLED();
    let second: OverlayBits<V100> = OverlayBits::ENABLED();
    assert_eq!(first, second);
    assert_eq!(second, first);
}

#[test]
fn partial_eq_with_different_versions() {
    let first: OverlayBits<V100> = OverlayBits::ENABLED();
    let second: OverlayBits<V101> = OverlayBits::ENABLED();
    assert_eq!(first, second);
    assert_eq!(second, first);
}

#[test]
fn flag_constants_have_the_hosts_values() {
    assert_eq!(OverlayBits::<V100>::ENABLED().bits(), 0x1);
    assert_eq!(OverlayBits::<V100>::FRAME_RATE().bits(), 0x2);
    assert_eq!(OverlayBits::<V100>::FRAME_NUMBER().bits(), 0x4);
    assert_eq!(OverlayBits::<V100>::CAPTURE_LIST().bits(), 0x8);
    assert_eq!(OverlayBits::<V100>::DEFAULT().bits(), 0xf);
    assert_eq!(OverlayBits::<V160>::DEFAULT().bits(), OVERLAY_DEFAULT);
    assert_eq!(OverlayBits::<V100>::all().bits(), u32::MAX);
    assert_eq!(OverlayBits::<V100>::empty().bits(), 0);
}

#[test]
fn from_bits_keeps_unknown_bits() {
    let flags = OverlayBits::<V100>::from_bits(0xdead_beef);
    assert_eq!(flags.bits(), 0xdead_beef);
}

#[test]
fn from_bits_truncate_drops_exactly_the_unknown_bits() {
    for bits in [0u32, 0x1, 0x5, 0xf, 0x10, 0x1f, 0xffff_fff0, 0xdead_beef, u32::MAX] {
        let truncated = OverlayBits::<V100>::from_bits_truncate(bits);
        assert_eq!(truncated.bits(), bits & 0xf);
        assert_eq!(truncated.bits() & !0xf, 0);
        for flag in [
            OVERLAY_ENABLED,
            OVERLAY_FRAME_RATE,
            OVERLAY_FRAME_NUMBER,
            OVERLAY_CAPTURE_LIST,
        ] {
            assert_eq!(truncated.bits() & flag, bits & flag);
        }
    }
}

#[test]
fn contains_compares_all_bits_of_the_other() {
    let both: OverlayBits<V100> = OverlayBits::ENABLED() | OverlayBits::FRAME_RATE();
    assert!(both.contains(OverlayBits::ENABLED()));
    assert!(both.contains(OverlayBits::FRAME_RATE()));
    assert!(both.contains(both));
    assert!(both.contains(OverlayBits::empty()));
    assert!(!both.contains(OverlayBits::CAPTURE_LIST()));
    assert!(!OverlayBits::<V100>::ENABLED().contains(both));
}

#[test]
fn is_default_asks_for_all_four_flags() {
    assert!(OverlayBits::<V100>::DEFAULT().is_default());
    assert!(OverlayBits::<V100>::all().is_default());
    assert!(OverlayBits::<V100>::from_bits(0x1f).is_default());
    assert!(!OverlayBits::<V100>::from_bits(0x7).is_default());
    assert!(!OverlayBits::<V100>::empty().is_default());
}

#[test]
fn is_empty_and_is_all_look_at_the_whole_mask() {
    assert!(OverlayBits::<V100>::empty().is_empty());
    assert!(!OverlayBits::<V100>::ENABLED().is_empty());
    assert!(!OverlayBits::<V100>::from_bits(0x10).is_empty());
    assert!(OverlayBits::<V100>::all().is_all());
    assert!(!OverlayBits::<V100>::DEFAULT().is_all());
    assert!((!OverlayBits::<V100>::empty()).is_all());
}

#[test]
fn iter_reports_flags_in_their_fixed_order() {
    let flags: Vec<u32> = (OverlayBits::<V100>::CAPTURE_LIST() | OverlayBits::ENABLED())
        .iter()
        .iter()
        .map(|flag| flag.bits())
        .collect();
    assert_eq!(flags, vec![OVERLAY_ENABLED, OVERLAY_CAPTURE_LIST]);
    assert!(OverlayBits::<V100>::empty().iter().is_empty());
    assert!(OverlayBits::<V100>::from_bits(0xf0).iter().is_empty());
}

#[test]
fn fmt_binary_of_edge_masks() {
    assert_eq!(OverlayBits::<V100>::empty().fmt_binary(), "0");
    assert_eq!(OverlayBits::<V100>::ENABLED().fmt_binary(), "1");
    assert_eq!(OverlayBits::<V100>::DEFAULT().fmt_binary(), "1111");
    assert_eq!(
        OverlayBits::<V100>::all().fmt_binary(),
        "11111111111111111111111111111111"
    );
}

#[test]
fn fmt_debug_ignores_unknown_bits() {
    assert_eq!(OverlayBits::<V100>::from_bits(0x10).fmt_debug(), "(empty)");
    assert_eq!(OverlayBits::<V100>::from_bits(0x12).fmt_debug(), "FRAME_RATE");
    assert_eq!(OverlayBits::<V100>::ENABLED().fmt_debug(), "ENABLED");
}

#[test]
fn total_order_agrees_with_the_partial_one() {
    let masks = [0u32, 1, 2, 8, 0xf, 0x10, u32::MAX];
    for a in masks {
        for b in masks {
            let left: OverlayBits<V100> = OverlayBits::from_bits(a);
            let right: OverlayBits<V100> = OverlayBits::from_bits(b);
            assert_eq!(left.cmp(&right), a.cmp(&b));
            assert_eq!(left.partial_cmp(&right), Some(a.cmp(&b)));
            assert_eq!(left == right, a == b);
        }
    }
}

#[test]
fn order_is_that_of_the_masks() {
    let small: OverlayBits<V100> = OverlayBits::ENABLED();
    let large: OverlayBits<V100> = OverlayBits::CAPTURE_LIST();
    assert!(small < large);
    assert!(large > small);
    assert!(small <= small);
    assert_eq!(
        small.partial_cmp(&large),
        Some(std::cmp::Ordering::Less)
    );
    assert_eq!(
        large.partial_cmp(&small),
        Some(std::cmp::Ordering::Greater)
    );
    assert_eq!(
        small.partial_cmp(&small),
        Some(std::cmp::Ordering::Equal)
    );
}

#[test]
fn clone_and_copy_keep_the_mask() {
    let flags: OverlayBits<V100> = OverlayBits::from_bits(0x2a);
    let copied = flags;
    let cloned = flags.clone();
    assert_eq!(copied.bits(), 0x2a);
    assert_eq!(cloned.bits(), 0x2a);
    assert_eq!(flags, cloned);
}

#[test]
fn unequal_masks_are_unequal_across_markers() {
    let first: OverlayBits<V100> = OverlayBits::ENABLED();
    let second: OverlayBits<V101> = OverlayBits::FRAME_RATE();
    assert!(first != second);
    assert!(second != first);
}
