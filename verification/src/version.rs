//! Version tags of the in-application API and the order between them.
//!
//! Every tag is a zero-sized marker type with the numeric code that the host's
//! entry point understands. [`Minimum`] and [`Below`] lift the order of the
//! codes to the type level, so that an operation can be offered only to handles
//! whose tag lies in the range of versions that has it.

use vstd::prelude::*;
use vstd::string::StringExecFns;
use crate::fmt::{decimal, push_decimal};
use crate::sys::{
    API_VERSION_1_0_0,
    API_VERSION_1_0_1,
    API_VERSION_1_0_2,
    API_VERSION_1_1_0,
    API_VERSION_1_1_1,
    API_VERSION_1_1_2,
    API_VERSION_1_2_0,
    API_VERSION_1_3_0,
    API_VERSION_1_4_0,
    API_VERSION_1_4_1,
    API_VERSION_1_4_2,
    API_VERSION_1_5_0,
    API_VERSION_1_6_0,
};

verus! {

/// A version of the API, as a marker type.
///
/// The set of tags is closed: an implementation has to show that its code is
/// one of [`version_codes`].
pub trait Version {
    /// The code that the host's entry point is asked for.
    const VERSION: u32;

    /// The code is one of the published ones.
    proof fn listed()
        ensures
            version_codes().contains(Self::VERSION),
    ;
}

/// `A: Minimum<B>` says that `A` is `B` or newer.
pub trait Minimum<V: Version>: Version {
    /// The code of `Self` is at least that of `V`.
    proof fn at_least()
        ensures
            minimum(Self::VERSION, V::VERSION),
    ;
}

/// `A: Below<B>` says that `A` is strictly older than `B`.
pub trait Below<V: Version>: Version {
    /// The code of `Self` is less than that of `V`.
    proof fn strictly_below()
        ensures
            below(Self::VERSION, V::VERSION),
    ;
}

/// A tag that has an immediate predecessor in the list of versions.
///
/// The tag is at least its predecessor, and the predecessor is below the tag:
/// an implementation is accepted only where both bounds are met.
pub trait HasPrevious: Version + Sized where Self: Minimum<Self::Previous> {
    /// The tag just before this one.
    type Previous: Version + Below<Self>;

    /// `Previous` and `Self` stand next to each other in [`version_codes`].
    proof fn adjacent()
        ensures
            adjacent_codes(Self::Previous::VERSION, Self::VERSION),
    ;
}

/// Version 1.0.0.
#[derive(Clone, Copy, Debug, PartialEq, Eq, PartialOrd, Ord, Hash)]
pub struct V100;

/// Version 1.0.1.
#[derive(Clone, Copy, Debug, PartialEq, Eq, PartialOrd, Ord, Hash)]
pub struct V101;

/// Version 1.0.2.
#[derive(Clone, Copy, Debug, PartialEq, Eq, PartialOrd, Ord, Hash)]
pub struct V102;

/// Version 1.1.0.
#[derive(Clone, Copy, Debug, PartialEq, Eq, PartialOrd, Ord, Hash)]
pub struct V110;

/// Version 1.1.1.
#[derive(Clone, Copy, Debug, PartialEq, Eq, PartialOrd, Ord, Hash)]
pub struct V111;

/// Version 1.1.2.
#[derive(Clone, Copy, Debug, PartialEq, Eq, PartialOrd, Ord, Hash)]
pub struct V112;

/// Version 1.2.0.
#[derive(Clone, Copy, Debug, PartialEq, Eq, PartialOrd, Ord, Hash)]
pub struct V120;

/// Version 1.3.0.
#[derive(Clone, Copy, Debug, PartialEq, Eq, PartialOrd, Ord, Hash)]
pub struct V130;

/// Version 1.4.0.
#[derive(Clone, Copy, Debug, PartialEq, Eq, PartialOrd, Ord, Hash)]
pub struct V140;

/// Version 1.4.1.
#[derive(Clone, Copy, Debug, PartialEq, Eq, PartialOrd, Ord, Hash)]
pub struct V141;

/// Version 1.4.2.
#[derive(Clone, Copy, Debug, PartialEq, Eq, PartialOrd, Ord, Hash)]
pub struct V142;

/// Version 1.5.0.
#[derive(Clone, Copy, Debug, PartialEq, Eq, PartialOrd, Ord, Hash)]
pub struct V150;

/// Version 1.6.0.
#[derive(Clone, Copy, Debug, PartialEq, Eq, PartialOrd, Ord, Hash)]
pub struct V160;

/// The codes of all tags, oldest first.
pub open spec fn version_codes() -> Seq<u32> {
    seq![
        API_VERSION_1_0_0,
        API_VERSION_1_0_1,
        API_VERSION_1_0_2,
        API_VERSION_1_1_0,
        API_VERSION_1_1_1,
        API_VERSION_1_1_2,
        API_VERSION_1_2_0,
        API_VERSION_1_3_0,
        API_VERSION_1_4_0,
        API_VERSION_1_4_1,
        API_VERSION_1_4_2,
        API_VERSION_1_5_0,
        API_VERSION_1_6_0,
    ]
}

/// The code of version `major.minor.patch`.
pub open spec fn version_code(major: nat, minor: nat, patch: nat) -> nat {
    major * 10_000 + minor * 100 + patch
}

/// The order behind [`Minimum`]: code `a` is at least code `b`.
pub open spec fn minimum(a: u32, b: u32) -> bool {
    a >= b
}

/// The order behind [`Below`]: code `a` is less than code `b`.
pub open spec fn below(a: u32, b: u32) -> bool {
    a < b
}

/// `older` and `newer` are neighbours in [`version_codes`], in this order.
pub open spec fn adjacent_codes(older: u32, newer: u32) -> bool {
    exists|i: int|
        0 <= i < version_codes().len() - 1 && #[trigger] version_codes()[i] == older
            && version_codes()[i + 1] == newer
}

impl Version for V100 {
    const VERSION: u32 = API_VERSION_1_0_0;

    proof fn listed() {
        assert(version_codes()[0] == Self::VERSION);
    }
}

impl Version for V101 {
    const VERSION: u32 = API_VERSION_1_0_1;

    proof fn listed() {
        assert(version_codes()[1] == Self::VERSION);
    }
}

impl Version for V102 {
    const VERSION: u32 = API_VERSION_1_0_2;

    proof fn listed() {
        assert(version_codes()[2] == Self::VERSION);
    }
}

impl Version for V110 {
    const VERSION: u32 = API_VERSION_1_1_0;

    proof fn listed() {
        assert(version_codes()[3] == Self::VERSION);
    }
}

impl Version for V111 {
    const VERSION: u32 = API_VERSION_1_1_1;

    proof fn listed() {
        assert(version_codes()[4] == Self::VERSION);
    }
}

impl Version for V112 {
    const VERSION: u32 = API_VERSION_1_1_2;

    proof fn listed() {
        assert(version_codes()[5] == Self::VERSION);
    }
}

impl Version for V120 {
    const VERSION: u32 = API_VERSION_1_2_0;

    proof fn listed() {
        assert(version_codes()[6] == Self::VERSION);
    }
}

impl Version for V130 {
    const VERSION: u32 = API_VERSION_1_3_0;

    proof fn listed() {
        assert(version_codes()[7] == Self::VERSION);
    }
}

impl Version for V140 {
    const VERSION: u32 = API_VERSION_1_4_0;

    proof fn listed() {
        assert(version_codes()[8] == Self::VERSION);
    }
}

impl Version for V141 {
    const VERSION: u32 = API_VERSION_1_4_1;

    proof fn listed() {
        assert(version_codes()[9] == Self::VERSION);
    }
}

impl Version for V142 {
    const VERSION: u32 = API_VERSION_1_4_2;

    proof fn listed() {
        assert(version_codes()[10] == Self::VERSION);
    }
}

impl Version for V150 {
    const VERSION: u32 = API_VERSION_1_5_0;

    proof fn listed() {
        assert(version_codes()[11] == Self::VERSION);
    }
}

impl Version for V160 {
    const VERSION: u32 = API_VERSION_1_6_0;

    proof fn listed() {
        assert(version_codes()[12] == Self::VERSION);
    }
}

impl<V: Version> Minimum<V100> for V {
    proof fn at_least() {
        V::listed();
        let i = choose|i: int| 0 <= i < version_codes().len() && version_codes()[i] == V::VERSION;
        if i > 0 {
            lemma_codes_increase(0, i);
        }
    }
}

impl Minimum<V101> for V101 {
    proof fn at_least() {
    }
}

impl<V: Minimum<V102>> Minimum<V101> for V {
    proof fn at_least() {
        <V as Minimum<V102>>::at_least();
    }
}

impl Minimum<V102> for V102 {
    proof fn at_least() {
    }
}

impl<V: Minimum<V110>> Minimum<V102> for V {
    proof fn at_least() {
        <V as Minimum<V110>>::at_least();
    }
}

impl Minimum<V110> for V110 {
    proof fn at_least() {
    }
}

impl<V: Minimum<V111>> Minimum<V110> for V {
    proof fn at_least() {
        <V as Minimum<V111>>::at_least();
    }
}

impl Minimum<V111> for V111 {
    proof fn at_least() {
    }
}

impl<V: Minimum<V112>> Minimum<V111> for V {
    proof fn at_least() {
        <V as Minimum<V112>>::at_least();
    }
}

impl Minimum<V112> for V112 {
    proof fn at_least() {
    }
}

impl<V: Minimum<V120>> Minimum<V112> for V {
    proof fn at_least() {
        <V as Minimum<V120>>::at_least();
    }
}

impl Minimum<V120> for V120 {
    proof fn at_least() {
    }
}

impl<V: Minimum<V130>> Minimum<V120> for V {
    proof fn at_least() {
        <V as Minimum<V130>>::at_least();
    }
}

impl Minimum<V130> for V130 {
    proof fn at_least() {
    }
}

impl<V: Minimum<V140>> Minimum<V130> for V {
    proof fn at_least() {
        <V as Minimum<V140>>::at_least();
    }
}

impl Minimum<V140> for V140 {
    proof fn at_least() {
    }
}

impl<V: Minimum<V141>> Minimum<V140> for V {
    proof fn at_least() {
        <V as Minimum<V141>>::at_least();
    }
}

impl Minimum<V141> for V141 {
    proof fn at_least() {
    }
}

impl<V: Minimum<V142>> Minimum<V141> for V {
    proof fn at_least() {
        <V as Minimum<V142>>::at_least();
    }
}

impl Minimum<V142> for V142 {
    proof fn at_least() {
    }
}

impl<V: Minimum<V150>> Minimum<V142> for V {
    proof fn at_least() {
        <V as Minimum<V150>>::at_least();
    }
}

impl Minimum<V150> for V150 {
    proof fn at_least() {
    }
}

impl<V: Minimum<V160>> Minimum<V150> for V {
    proof fn at_least() {
        <V as Minimum<V160>>::at_least();
    }
}

impl Minimum<V160> for V160 {
    proof fn at_least() {
    }
}

impl Below<V160> for V150 {
    proof fn strictly_below() {
    }
}

impl<V: Below<V150>> Below<V160> for V {
    proof fn strictly_below() {
        <V as Below<V150>>::strictly_below();
    }
}

impl Below<V150> for V142 {
    proof fn strictly_below() {
    }
}

impl<V: Below<V142>> Below<V150> for V {
    proof fn strictly_below() {
        <V as Below<V142>>::strictly_below();
    }
}

impl Below<V142> for V141 {
    proof fn strictly_below() {
    }
}

impl<V: Below<V141>> Below<V142> for V {
    proof fn strictly_below() {
        <V as Below<V141>>::strictly_below();
    }
}

impl Below<V141> for V140 {
    proof fn strictly_below() {
    }
}

impl<V: Below<V140>> Below<V141> for V {
    proof fn strictly_below() {
        <V as Below<V140>>::strictly_below();
    }
}

impl Below<V140> for V130 {
    proof fn strictly_below() {
    }
}

impl<V: Below<V130>> Below<V140> for V {
    proof fn strictly_below() {
        <V as Below<V130>>::strictly_below();
    }
}

impl Below<V130> for V120 {
    proof fn strictly_below() {
    }
}

impl<V: Below<V120>> Below<V130> for V {
    proof fn strictly_below() {
        <V as Below<V120>>::strictly_below();
    }
}

impl Below<V120> for V112 {
    proof fn strictly_below() {
    }
}

impl<V: Below<V112>> Below<V120> for V {
    proof fn strictly_below() {
        <V as Below<V112>>::strictly_below();
    }
}

impl Below<V112> for V111 {
    proof fn strictly_below() {
    }
}

impl<V: Below<V111>> Below<V112> for V {
    proof fn strictly_below() {
        <V as Below<V111>>::strictly_below();
    }
}

impl Below<V111> for V110 {
    proof fn strictly_below() {
    }
}

impl<V: Below<V110>> Below<V111> for V {
    proof fn strictly_below() {
        <V as Below<V110>>::strictly_below();
    }
}

impl Below<V110> for V102 {
    proof fn strictly_below() {
    }
}

impl<V: Below<V102>> Below<V110> for V {
    proof fn strictly_below() {
        <V as Below<V102>>::strictly_below();
    }
}

impl Below<V102> for V101 {
    proof fn strictly_below() {
    }
}

impl<V: Below<V101>> Below<V102> for V {
    proof fn strictly_below() {
        <V as Below<V101>>::strictly_below();
    }
}

impl Below<V101> for V100 {
    proof fn strictly_below() {
    }
}

impl HasPrevious for V101 {
    type Previous = V100;

    proof fn adjacent() {
        assert(version_codes()[0] == V100::VERSION && version_codes()[1] == V101::VERSION);
    }
}

impl HasPrevious for V102 {
    type Previous = V101;

    proof fn adjacent() {
        assert(version_codes()[1] == V101::VERSION && version_codes()[2] == V102::VERSION);
    }
}

impl HasPrevious for V110 {
    type Previous = V102;

    proof fn adjacent() {
        assert(version_codes()[2] == V102::VERSION && version_codes()[3] == V110::VERSION);
    }
}

impl HasPrevious for V111 {
    type Previous = V110;

    proof fn adjacent() {
        assert(version_codes()[3] == V110::VERSION && version_codes()[4] == V111::VERSION);
    }
}

impl HasPrevious for V112 {
    type Previous = V111;

    proof fn adjacent() {
        assert(version_codes()[4] == V111::VERSION && version_codes()[5] == V112::VERSION);
    }
}

impl HasPrevious for V120 {
    type Previous = V112;

    proof fn adjacent() {
        assert(version_codes()[5] == V112::VERSION && version_codes()[6] == V120::VERSION);
    }
}

impl HasPrevious for V130 {
    type Previous = V120;

    proof fn adjacent() {
        assert(version_codes()[6] == V120::VERSION && version_codes()[7] == V130::VERSION);
    }
}

impl HasPrevious for V140 {
    type Previous = V130;

    proof fn adjacent() {
        assert(version_codes()[7] == V130::VERSION && version_codes()[8] == V140::VERSION);
    }
}

impl HasPrevious for V141 {
    type Previous = V140;

    proof fn adjacent() {
        assert(version_codes()[8] == V140::VERSION && version_codes()[9] == V141::VERSION);
    }
}

impl HasPrevious for V142 {
    type Previous = V141;

    proof fn adjacent() {
        assert(version_codes()[9] == V141::VERSION && version_codes()[10] == V142::VERSION);
    }
}

impl HasPrevious for V150 {
    type Previous = V142;

    proof fn adjacent() {
        assert(version_codes()[10] == V142::VERSION && version_codes()[11] == V150::VERSION);
    }
}

impl HasPrevious for V160 {
    type Previous = V150;

    proof fn adjacent() {
        assert(version_codes()[11] == V150::VERSION && version_codes()[12] == V160::VERSION);
    }
}

/// The code of each tag.
pub proof fn lemma_tag_codes()
    ensures
        V100::VERSION == API_VERSION_1_0_0,
        V101::VERSION == API_VERSION_1_0_1,
        V102::VERSION == API_VERSION_1_0_2,
        V110::VERSION == API_VERSION_1_1_0,
        V111::VERSION == API_VERSION_1_1_1,
        V112::VERSION == API_VERSION_1_1_2,
        V120::VERSION == API_VERSION_1_2_0,
        V130::VERSION == API_VERSION_1_3_0,
        V140::VERSION == API_VERSION_1_4_0,
        V141::VERSION == API_VERSION_1_4_1,
        V142::VERSION == API_VERSION_1_4_2,
        V150::VERSION == API_VERSION_1_5_0,
        V160::VERSION == API_VERSION_1_6_0,
{
}

/// The codes grow strictly along the list.
pub proof fn lemma_codes_increase(i: int, j: int)
    requires
        0 <= i < j < version_codes().len(),
    ensures
        version_codes()[i] < version_codes()[j],
{
}

/// Of two neighbouring tags the newer is at least the older, and the older is
/// below the newer; neither holds the other way round.
pub proof fn lemma_adjacent_tags(older: u32, newer: u32)
    requires
        adjacent_codes(older, newer),
    ensures
        !minimum(older, newer),
        minimum(newer, older),
        below(older, newer),
        !below(newer, older),
{
    let i = choose|i: int|
        0 <= i < version_codes().len() - 1 && #[trigger] version_codes()[i] == older
            && version_codes()[i + 1] == newer;
    lemma_codes_increase(i, i + 1);
}

/// Wherever the bound `A: Minimum<B>` is met, the code of `A` is at least that of `B`.
pub proof fn lemma_minimum_sound<A: Minimum<B>, B: Version>()
    ensures
        A::VERSION >= B::VERSION,
{
    A::at_least();
}

/// Wherever the bound `A: Below<B>` is met, the code of `A` is less than that of `B`.
pub proof fn lemma_below_sound<A: Below<B>, B: Version>()
    ensures
        A::VERSION < B::VERSION,
{
    A::strictly_below();
}

/// A tag's predecessor is strictly older than the tag.
pub proof fn lemma_previous_is_older<V: HasPrevious>()
    ensures
        V::Previous::VERSION < V::VERSION,
{
    V::adjacent();
    lemma_adjacent_tags(V::Previous::VERSION, V::VERSION);
}

/// Encodes the digits of a version as the code that the host understands.
pub fn from_digits(major: u8, minor: u8, patch: u8) -> (version: u32)
    ensures
        version == version_code(major as nat, minor as nat, patch as nat),
{
    let mut version: u32 = major as u32 * 10_000;
    version += minor as u32 * 100;
    version += patch as u32;
    version
}

/// The digits that [`into_digits`] reads from a code: the major digit is cut to
/// eight bits, the other two are below 100.
pub open spec fn digits_of(version: u32) -> (u8, u8, u8) {
    (((version / 10_000) % 256) as u8, (version % 10_000 / 100) as u8, (version % 100) as u8)
}

/// Decodes a code into its major, minor and patch digits.
pub fn into_digits(version: u32) -> (digits: (u8, u8, u8))
    ensures
        digits == digits_of(version),
{
    let patch: u32 = version % 100;
    let minor: u32 = version % 10_000 / 100;
    let major: u32 = version / 10_000;
    assert(major as u8 == (major % 256) as u8) by (bit_vector);
    (#[verifier::truncate] (major as u8), minor as u8, patch as u8)
}

/// Decoding the code of `major.minor.patch` gives the three digits back,
/// provided that minor and patch are below 100.
pub proof fn lemma_digits_round_trip(major: u8, minor: u8, patch: u8)
    requires
        minor < 100,
        patch < 100,
    ensures
        digits_of(version_code(major as nat, minor as nat, patch as nat) as u32) == (
            major,
            minor,
            patch,
        ),
{
}

/// A version code that prints as `major.minor.patch`.
pub struct DebugVersion(pub u32);

/// How the code `version` is printed: its three digits in decimal, with a dot
/// between them.
pub open spec fn version_text(version: u32) -> Seq<char> {
    let digits = digits_of(version);
    decimal(digits.0 as nat) + seq!['.'] + decimal(digits.1 as nat) + seq!['.'] + decimal(
        digits.2 as nat,
    )
}

impl DebugVersion {
    /// The version as `major.minor.patch`.
    pub fn fmt_debug(&self) -> (text: String)
        ensures
            text@ == version_text(self.0),
    {
        let digits: (u8, u8, u8) = into_digits(self.0);
        proof {
            reveal_strlit(".");
        }
        let mut text = String::new();
        push_decimal(&mut text, digits.0 as u32);
        text.append(".");
        push_decimal(&mut text, digits.1 as u32);
        text.append(".");
        push_decimal(&mut text, digits.2 as u32);
        assert(text@ =~= version_text(self.0));
        text
    }
}

} // verus!
