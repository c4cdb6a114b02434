//! Text as the host takes it: its bytes with a zero behind them.

use vstd::prelude::*;
use vstd::string::StringSliceAdditionalSpecFns;

verus! {

/// Whether one of `bytes` is zero.
pub open spec fn has_nul(bytes: Seq<u8>) -> bool {
    exists|i: int| 0 <= i < bytes.len() && bytes[i] == 0
}

/// `bytes` with the zero that ends a text for the host.
pub open spec fn terminated(bytes: Seq<u8>) -> Seq<u8> {
    bytes.push(0)
}

/// The bytes of `text` with a zero behind them, or nothing if `text` holds a
/// zero itself: such a text would end early for the host.
pub fn c_string(text: &str) -> (encoded: Option<Vec<u8>>)
    ensures
        encoded is None <==> has_nul(text.spec_bytes()),
        encoded matches Some(bytes) ==> bytes@ == terminated(text.spec_bytes()),
{
    let bytes = text.as_bytes();
    let mut encoded: Vec<u8> = Vec::new();
    let mut i: usize = 0;
    while i < bytes.len()
        invariant
            i <= bytes.len(),
            bytes@ == text.spec_bytes(),
            encoded@ == bytes@.take(i as int),
            !has_nul(bytes@.take(i as int)),
        decreases bytes.len() - i,
    {
        let byte: u8 = bytes[i];
        if byte == 0 {
            return None;
        }
        encoded.push(byte);
        proof {
            assert(bytes@.take(i + 1) == bytes@.take(i as int).push(byte));
        }
        i += 1;
    }
    assert(bytes@.take(bytes.len() as int) == bytes@);
    encoded.push(0);
    Some(encoded)
}

} // verus!
