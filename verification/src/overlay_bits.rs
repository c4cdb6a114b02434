//! Bit flags that configure the overlay.

use vstd::prelude::*;
use vstd::std_specs::cmp::{PartialEqSpecImpl, PartialOrdSpecImpl};
use vstd::std_specs::ops::{BitAndSpecImpl, BitOrSpecImpl, NotSpecImpl};
use std::cmp::Ordering;
use std::marker::PhantomData;
use std::ops::{BitAnd, BitOr, Not};
use vstd::string::StringExecFns;
use crate::fmt::{binary, join, push_digits};
use crate::sys::{
    OVERLAY_ALL,
    OVERLAY_CAPTURE_LIST,
    OVERLAY_DEFAULT,
    OVERLAY_ENABLED,
    OVERLAY_FRAME_NUMBER,
    OVERLAY_FRAME_RATE,
    OVERLAY_NONE,
};
use crate::version::{Minimum, V100};

verus! {

/// Bit flags for configuring the overlay.
///
/// A value is a plain 32-bit mask; the marker `V` only decides which named
/// flags are on offer. Two values compare by their bits, whatever their
/// markers are. The overlay starts out as [`OverlayBits::DEFAULT`].
#[derive(Debug, Ord)]
pub struct OverlayBits<V = V100> {
    bits: u32,
    _min_version: PhantomData<V>,
}

impl<V> View for OverlayBits<V> {
    type V = u32;

    /// The raw mask.
    closed spec fn view(&self) -> u32 {
        self.bits
    }
}

/// The flags that stand for one element of the overlay each, in the order in
/// which [`OverlayBits::iter`] reports them.
pub open spec fn single_flags() -> Seq<u32> {
    seq![OVERLAY_ENABLED, OVERLAY_FRAME_RATE, OVERLAY_FRAME_NUMBER, OVERLAY_CAPTURE_LIST]
}

/// Whether every bit of `flag` is set in `bits`.
pub open spec fn has_flag(bits: u32, flag: u32) -> bool {
    bits & flag == flag
}

/// The single flags that are set in `bits`, in the order of [`single_flags`].
pub open spec fn flags_in(bits: u32) -> Seq<u32> {
    single_flags().filter(|flag: u32| has_flag(bits, flag))
}

/// The name under which a single flag is printed.
pub open spec fn flag_name(flag: u32) -> Seq<char> {
    if flag == OVERLAY_ENABLED {
        "ENABLED"@
    } else if flag == OVERLAY_FRAME_RATE {
        "FRAME_RATE"@
    } else if flag == OVERLAY_FRAME_NUMBER {
        "FRAME_NUMBER"@
    } else {
        "CAPTURE_LIST"@
    }
}

/// How a mask is printed for a reader: the names of its single flags with
/// ` | ` between them, or `(empty)` where it has none.
pub open spec fn debug_text(bits: u32) -> Seq<char> {
    let names = flags_in(bits).map_values(|flag: u32| flag_name(flag));
    if names.len() == 0 {
        "(empty)"@
    } else {
        join(names, " | "@)
    }
}

/// The name of a single flag.
fn name_of(flag: u32) -> (name: &'static str)
    ensures
        name@ == flag_name(flag),
{
    if flag == OVERLAY_ENABLED {
        "ENABLED"
    } else if flag == OVERLAY_FRAME_RATE {
        "FRAME_RATE"
    } else if flag == OVERLAY_FRAME_NUMBER {
        "FRAME_NUMBER"
    } else {
        "CAPTURE_LIST"
    }
}

impl<V: Minimum<V100>> OverlayBits<V> {
    /// Enable the overlay globally.
    #[allow(non_snake_case)]
    pub fn ENABLED() -> (flags: Self)
        ensures
            flags@ == OVERLAY_ENABLED,
    {
        Self::from_bits(OVERLAY_ENABLED)
    }

    /// Show the frame rate counter, with average, minimum and maximum frame
    /// times in milliseconds.
    #[allow(non_snake_case)]
    pub fn FRAME_RATE() -> (flags: Self)
        ensures
            flags@ == OVERLAY_FRAME_RATE,
    {
        Self::from_bits(OVERLAY_FRAME_RATE)
    }

    /// Show the number of the current frame.
    #[allow(non_snake_case)]
    pub fn FRAME_NUMBER() -> (flags: Self)
        ensures
            flags@ == OVERLAY_FRAME_NUMBER,
    {
        Self::from_bits(OVERLAY_FRAME_NUMBER)
    }

    /// Show a list of recent captures, out of the total number of captures made.
    #[allow(non_snake_case)]
    pub fn CAPTURE_LIST() -> (flags: Self)
        ensures
            flags@ == OVERLAY_CAPTURE_LIST,
    {
        Self::from_bits(OVERLAY_CAPTURE_LIST)
    }

    /// The configuration of the overlay at startup: all four single flags.
    #[allow(non_snake_case)]
    pub fn DEFAULT() -> (flags: Self)
        ensures
            flags@ == OVERLAY_DEFAULT,
    {
        Self::from_bits(OVERLAY_DEFAULT)
    }
}

impl<V> OverlayBits<V> {
    /// Converts from the underlying mask and keeps every bit, also those that
    /// stand for no flag.
    pub fn from_bits(bits: u32) -> (flags: Self)
        ensures
            flags@ == bits,
    {
        OverlayBits { bits, _min_version: PhantomData }
    }

    /// Converts from the underlying mask and drops the bits that stand for no
    /// flag.
    pub fn from_bits_truncate(bits: u32) -> (flags: Self)
        ensures
            flags@ == bits & OVERLAY_DEFAULT,
    {
        let kept: u32 = (bits & OVERLAY_ENABLED) | (bits & OVERLAY_FRAME_RATE) | (bits
            & OVERLAY_FRAME_NUMBER) | (bits & OVERLAY_CAPTURE_LIST) | (bits & OVERLAY_DEFAULT);
        assert(kept == bits & 0xfu32) by (bit_vector)
            requires
                kept == (bits & 0x1u32) | (bits & 0x2u32) | (bits & 0x4u32) | (bits & 0x8u32) | (
                bits & 0xfu32),
        ;
        OverlayBits { bits: kept, _min_version: PhantomData }
    }

    /// The underlying mask.
    pub fn bits(&self) -> (bits: u32)
        ensures
            bits == self@,
    {
        self.bits
    }

    /// Every bit set.
    pub fn all() -> (flags: Self)
        ensures
            flags@ == OVERLAY_ALL,
    {
        Self::from_bits(OVERLAY_ALL)
    }

    /// No bit set.
    pub fn empty() -> (flags: Self)
        ensures
            flags@ == OVERLAY_NONE,
    {
        Self::from_bits(OVERLAY_NONE)
    }

    /// Whether all the flags of `other` are set in `self`.
    pub fn contains(self, other: Self) -> (found: bool)
        ensures
            found == has_flag(self@, other@),
    {
        self.bits & other.bits == other.bits
    }

    /// Whether the flags of the startup configuration are all set.
    pub fn is_default(self) -> (found: bool)
        ensures
            found == has_flag(self@, OVERLAY_DEFAULT),
    {
        self.bits & OVERLAY_DEFAULT == OVERLAY_DEFAULT
    }

    /// Whether no bit is set.
    pub fn is_empty(self) -> (none: bool)
        ensures
            none == (self@ == OVERLAY_NONE),
    {
        self.bits == OVERLAY_NONE
    }

    /// Whether every bit is set.
    pub fn is_all(self) -> (every: bool)
        ensures
            every == (self@ == OVERLAY_ALL),
    {
        self.bits == OVERLAY_ALL
    }

    /// The single flags that are set, each as a value of its own.
    pub fn iter(self) -> (set: Vec<OverlayBits<V>>)
        ensures
            set@.map_values(|flags: OverlayBits<V>| flags@) == flags_in(self@),
    {
        let candidates: [u32; 4] = [
            OVERLAY_ENABLED,
            OVERLAY_FRAME_RATE,
            OVERLAY_FRAME_NUMBER,
            OVERLAY_CAPTURE_LIST,
        ];
        let ghost pred = |flag: u32| has_flag(self@, flag);
        let ghost bits_of = |flags: OverlayBits<V>| flags@;
        let mut set: Vec<OverlayBits<V>> = Vec::new();
        let mut i: usize = 0;
        assert(candidates@ == single_flags());
        assert(single_flags().take(0) == Seq::<u32>::empty());
        assert(set@.map_values(bits_of) == Seq::<u32>::empty());
        while i < 4
            invariant
                i <= 4,
                candidates@ == single_flags(),
                pred == |flag: u32| has_flag(self@, flag),
                bits_of == |flags: OverlayBits<V>| flags@,
                set@.map_values(bits_of) == single_flags().take(i as int).filter(pred),
            decreases 4 - i,
        {
            let flag: u32 = candidates[i];
            proof {
                let before = single_flags().take(i as int);
                assert(single_flags().take(i + 1) == before.push(flag));
                assert(before.push(flag).drop_last() == before);
                reveal_with_fuel(Seq::filter, 2);
            }
            if self.bits & flag == flag {
                let ghost old_set = set@;
                set.push(Self::from_bits(flag));
                assert(set@.map_values(bits_of) == old_set.map_values(bits_of).push(flag));
            }
            i += 1;
        }
        assert(single_flags().take(4) == single_flags());
        set
    }
}

impl<V> OverlayBits<V> {
    /// The mask in binary, without leading zeros.
    pub fn fmt_binary(&self) -> (text: String)
        ensures
            text@ == binary(self@ as nat),
    {
        let mut text = String::new();
        push_digits(&mut text, self.bits, 2);
        text
    }

    /// The names of the single flags that are set, with ` | ` between them;
    /// `(empty)` if none is set.
    pub fn fmt_debug(&self) -> (text: String)
        ensures
            text@ == debug_text(self@),
    {
        let set = self.iter();
        if set.len() == 0 {
            return String::from_str("(empty)");
        }
        let ghost names = flags_in(self@).map_values(|flag: u32| flag_name(flag));
        let ghost bits_of = |flags: OverlayBits<V>| flags@;
        assert(set@.map_values(bits_of).len() == set@.len());
        let mut text = String::new();
        let mut i: usize = 0;
        while i < set.len()
            invariant
                i <= set.len(),
                set.len() == names.len(),
                forall|k: int| 0 <= k < set.len() ==> flag_name(#[trigger] set[k]@) == names[k],
                text@ == join(names.take(i as int), " | "@),
            decreases set.len() - i,
        {
            if i > 0 {
                text.append(" | ");
            }
            text.append(name_of(set[i].bits()));
            proof {
                let done = names.take(i + 1);
                assert(done.drop_last() == names.take(i as int));
                assert(done.last() == names[i as int]);
                if i == 0 {
                    assert(text@ == done[0]);
                }
            }
            i += 1;
        }
        assert(names.take(set.len() as int) == names);
        text
    }
}

/// [`OverlayBits::from_bits_truncate`] drops exactly the bits outside the known
/// flags: of a single flag it keeps what `bits` had, and nothing else stays.
pub proof fn lemma_truncate_keeps_known_flags(bits: u32, flag: u32)
    requires
        single_flags().contains(flag),
    ensures
        has_flag(bits & OVERLAY_DEFAULT, flag) == has_flag(bits, flag),
        (bits & OVERLAY_DEFAULT) & !OVERLAY_DEFAULT == 0,
        (bits & OVERLAY_DEFAULT) | (bits & !OVERLAY_DEFAULT) == bits,
{
    assert(flag == 0x1u32 || flag == 0x2u32 || flag == 0x4u32 || flag == 0x8u32);
    assert(flag == 0x1u32 || flag == 0x2u32 || flag == 0x4u32 || flag == 0x8u32 ==> ((bits
        & 0xfu32) & flag == flag) == (bits & flag == flag)) by (bit_vector);
    assert((bits & 0xfu32) & !0xfu32 == 0) by (bit_vector);
    assert((bits & 0xfu32) | (bits & !0xfu32) == bits) by (bit_vector);
}

impl<V> Clone for OverlayBits<V> {
    fn clone(&self) -> (copy: Self)
        ensures
            copy == *self,
    {
        OverlayBits { bits: self.bits, _min_version: PhantomData }
    }
}

impl<V> Copy for OverlayBits<V> {

}

/// The flags that both values have.
impl<V> BitAnd for OverlayBits<V> {
    type Output = Self;

    fn bitand(self, rhs: Self) -> (both: Self)
        ensures
            both@ == self@ & rhs@,
    {
        OverlayBits { bits: self.bits & rhs.bits, _min_version: PhantomData }
    }
}

impl<V> BitAndSpecImpl for OverlayBits<V> {
    open spec fn obeys_bitand_spec() -> bool {
        true
    }

    open spec fn bitand_req(self, rhs: Self) -> bool {
        true
    }

    closed spec fn bitand_spec(self, rhs: Self) -> Self {
        OverlayBits { bits: self.bits & rhs.bits, _min_version: PhantomData }
    }
}

/// The flags that either value has.
impl<V> BitOr for OverlayBits<V> {
    type Output = Self;

    fn bitor(self, rhs: Self) -> (either: Self)
        ensures
            either@ == self@ | rhs@,
    {
        OverlayBits { bits: self.bits | rhs.bits, _min_version: PhantomData }
    }
}

impl<V> BitOrSpecImpl for OverlayBits<V> {
    open spec fn obeys_bitor_spec() -> bool {
        true
    }

    open spec fn bitor_req(self, rhs: Self) -> bool {
        true
    }

    closed spec fn bitor_spec(self, rhs: Self) -> Self {
        OverlayBits { bits: self.bits | rhs.bits, _min_version: PhantomData }
    }
}

/// The complement of the mask.
impl<V> Not for OverlayBits<V> {
    type Output = Self;

    fn not(self) -> (rest: Self)
        ensures
            rest@ == !self@,
    {
        OverlayBits { bits: !self.bits, _min_version: PhantomData }
    }
}

impl<V> NotSpecImpl for OverlayBits<V> {
    open spec fn obeys_not_spec() -> bool {
        true
    }

    open spec fn not_req(self) -> bool {
        true
    }

    closed spec fn not_spec(self) -> Self {
        OverlayBits { bits: !self.bits, _min_version: PhantomData }
    }
}

/// Equality is that of the masks, across markers.
impl<V1, V2> PartialEq<OverlayBits<V2>> for OverlayBits<V1> {
    fn eq(&self, rhs: &OverlayBits<V2>) -> (same: bool) {
        self.bits == rhs.bits
    }
}

impl<V1, V2> PartialEqSpecImpl<OverlayBits<V2>> for OverlayBits<V1> {
    open spec fn obeys_eq_spec() -> bool {
        true
    }

    open spec fn eq_spec(&self, rhs: &OverlayBits<V2>) -> bool {
        self@ == rhs@
    }
}

impl<V> Eq for OverlayBits<V> {

}

/// The order is that of the masks as numbers.
impl<V> PartialOrd for OverlayBits<V> {
    fn partial_cmp(&self, other: &Self) -> (order: Option<Ordering>) {
        if self.bits < other.bits {
            Some(Ordering::Less)
        } else if self.bits == other.bits {
            Some(Ordering::Equal)
        } else {
            Some(Ordering::Greater)
        }
    }
}

impl<V> PartialOrdSpecImpl for OverlayBits<V> {
    open spec fn obeys_partial_cmp_spec() -> bool {
        true
    }

    open spec fn partial_cmp_spec(&self, other: &Self) -> Option<Ordering> {
        if self@ < other@ {
            Some(Ordering::Less)
        } else if self@ == other@ {
            Some(Ordering::Equal)
        } else {
            Some(Ordering::Greater)
        }
    }
}

} // verus!
