//! What it means for a content-map entry to be valid hexadecimal, and the
//! check itself, performed by the `hex` crate.

use vstd::prelude::*;
use vstd::string::StringSliceAdditionalSpecFns;

verus! {

/// An ASCII hexadecimal digit: `0-9`, `a-f` or `A-F`.
pub open spec fn is_hex_digit(b: u8) -> bool {
    (0x30 <= b <= 0x39) || (0x61 <= b <= 0x66) || (0x41 <= b <= 0x46)
}

/// A byte string that decodes as hexadecimal: an even number of bytes, each an
/// ASCII hexadecimal digit.
pub open spec fn is_hex_bytes(b: Seq<u8>) -> bool {
    b.len() % 2 == 0 && (forall|i: int| 0 <= i < b.len() ==> is_hex_digit(b[i]))
}

/// Relies on `hex::decode`, which returns `Ok` exactly when its input holds an
/// even number of bytes and every byte is an ASCII hexadecimal digit.
#[verifier::external_body]
pub(crate) fn decodes_as_hex(s: &str) -> (r: bool)
    ensures
        r == is_hex_bytes(s.spec_bytes()),
{
    hex::decode(s).is_ok()
}

} // verus!
