//! Lowercase hexadecimal rendering of submission hashes, as used in the
//! per-iteration outcome lines.

use vstd::prelude::*;
use crate::types::TxHash;

verus! {

/// The lowercase hexadecimal digit of a nibble value.
pub open spec fn hex_digit(n: int) -> char {
    if n < 10 {
        ((48 + n) as u8) as char
    } else {
        ((87 + n) as u8) as char
    }
}

/// Lowercase hexadecimal of a byte string: two digits per byte, high
/// nibble first, in input order.
pub open spec fn hex_seq(b: Seq<u8>) -> Seq<char> {
    Seq::new(
        b.len() * 2,
        |i: int|
            if i % 2 == 0 {
                hex_digit((b[i / 2] / 16) as int)
            } else {
                hex_digit((b[i / 2] % 16) as int)
            },
    )
}

/// Relies on hex::encode: it renders bytes as lowercase hexadecimal, two
/// digits per byte, high nibble first, in input order.
#[verifier::external_body]
fn encode_hex(b: &Vec<u8>) -> (r: String)
    ensures
        r@ == hex_seq(b@),
{
    hex::encode(b.as_slice())
}

/// The canonical lowercase-hex rendering of a submission hash.
pub fn submission_hash_hex(h: &TxHash) -> (r: String)
    requires
        h.wf(),
    ensures
        r@ == hex_seq(h.bytes@),
        r@.len() == 64,
{
    encode_hex(&h.bytes)
}

} // verus!
