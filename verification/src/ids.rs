//! Identifiers: a UUID is held as its 128-bit value.
use vstd::prelude::*;
use vstd::arithmetic::power2::pow2;
use crate::text::{hex_text, lemma_hex_text_shape};

verus! {

/// Byte `i` (0 is the most significant) of the big-endian form of `x`.
pub open spec fn be_byte(x: u128, i: int) -> u8 {
    ((x as int / pow2((8 * (15 - i)) as nat) as int) % 256) as u8
}

/// The 16 big-endian bytes of `x`.
pub open spec fn be_bytes(x: u128) -> Seq<u8> {
    Seq::new(16, |i: int| be_byte(x, i))
}

/// Hyphenated lowercase form of a UUID: 8-4-4-4-12 hex digits.
pub open spec fn uuid_text(x: u128) -> Seq<char> {
    let b = be_bytes(x);
    hex_text(b.subrange(0, 4)) + seq!['-'] + hex_text(b.subrange(4, 6)) + seq!['-'] + hex_text(
        b.subrange(6, 8),
    ) + seq!['-'] + hex_text(b.subrange(8, 10)) + seq!['-'] + hex_text(b.subrange(10, 16))
}

pub proof fn lemma_uuid_text_len(x: u128)
    ensures
        uuid_text(x).len() == 36,
{
    let b = be_bytes(x);
    lemma_hex_text_shape(b.subrange(0, 4));
    lemma_hex_text_shape(b.subrange(4, 6));
    lemma_hex_text_shape(b.subrange(6, 8));
    lemma_hex_text_shape(b.subrange(8, 10));
    lemma_hex_text_shape(b.subrange(10, 16));
}

/// `Uuid::from_u128(id).to_string()`: the UUID's big-endian bytes in the
/// hyphenated lowercase form.
#[verifier::external_body]
pub(crate) fn uuid_string(id: u128) -> (r: String)
    ensures
        r@ == uuid_text(id),
{
    uuid::Uuid::from_u128(id).to_string()
}

} // verus!
