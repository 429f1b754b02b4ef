//! The content addresser: a stable 256-bit digest of a byte buffer,
//! rendered as fixed-width lowercase hexadecimal. Identical payloads always
//! map to the same address, which is what makes duplicate output detection
//! possible.

use vstd::prelude::*;

verus! {

/// The 32-byte digest that the hash function assigns to a byte buffer.
/// A function of the input bytes alone: the same bytes give the same
/// digest in every run.
pub uninterp spec fn blake3_of(bytes: Seq<u8>) -> Seq<u8>;

/// Relies on blake3::hash and blake3::Hash::as_bytes: a 32-byte digest
/// that depends on the input bytes alone.
#[verifier::external_body]
fn blake3_digest(input: &Vec<u8>) -> (r: Vec<u8>)
    ensures
        r@ == blake3_of(input@),
        r@.len() == 32,
{
    blake3::hash(input.as_slice()).as_bytes().to_vec()
}

/// The lowercase hexadecimal digit for a value below 16.
pub open spec fn hex_digit(n: u8) -> u8 {
    if n < 10 {
        (48 + n) as u8
    } else {
        (87 + n) as u8
    }
}

/// Lowercase hexadecimal rendering of a byte string, two digits per byte,
/// high digit first, no separators.
pub open spec fn hex_of(bytes: Seq<u8>) -> Seq<u8>
    decreases bytes.len(),
{
    if bytes.len() == 0 {
        Seq::empty()
    } else {
        hex_of(bytes.drop_last()) + seq![
            hex_digit(bytes.last() / 16),
            hex_digit(bytes.last() % 16),
        ]
    }
}

/// A byte is a lowercase hexadecimal digit character.
pub open spec fn is_lower_hex_digit(b: u8) -> bool {
    (48 <= b <= 57) || (97 <= b <= 102)
}

/// Hexadecimal rendering doubles the length, and every byte of it is a
/// lowercase hexadecimal digit.
pub proof fn lemma_hex_of_shape(bytes: Seq<u8>)
    ensures
        hex_of(bytes).len() == 2 * bytes.len(),
        forall|i: int| 0 <= i < hex_of(bytes).len() ==> is_lower_hex_digit(#[trigger] hex_of(bytes)[i]),
    decreases bytes.len(),
{
    if bytes.len() == 0 {
    } else {
        lemma_hex_of_shape(bytes.drop_last());
    }
}

/// Render a byte string as lowercase hexadecimal.
pub fn to_hex_lower(bytes: &Vec<u8>) -> (r: Vec<u8>)
    ensures
        r@ == hex_of(bytes@),
{
    let mut r: Vec<u8> = Vec::new();
    let mut i: usize = 0;
    while i < bytes.len()
        invariant
            i <= bytes.len(),
            r@ == hex_of(bytes@.take(i as int)),
        decreases bytes.len() - i,
    {
        let b = bytes[i];
        let hi: u8 = b / 16;
        let lo: u8 = b % 16;
        let hid: u8 = if hi < 10 { 48 + hi } else { 87 + hi };
        let lod: u8 = if lo < 10 { 48 + lo } else { 87 + lo };
        r.push(hid);
        r.push(lod);
        i = i + 1;
        proof {
            assert(bytes@.take(i as int).drop_last() =~= bytes@.take(i - 1));
            assert(bytes@.take(i as int).last() == bytes@[i - 1]);
            assert(r@ =~= hex_of(bytes@.take(i as int)));
        }
    }
    proof {
        assert(bytes@.take(bytes@.len() as int) =~= bytes@);
    }
    r
}

/// The content address of a payload: the lowercase hexadecimal rendering
/// of its digest.
pub open spec fn spec_address_of(payload: Seq<u8>) -> Seq<u8> {
    hex_of(blake3_of(payload))
}

/// Compute the content address of a payload: 64 lowercase hexadecimal
/// digits derived from the payload's digest.
pub fn address_of(payload: &Vec<u8>) -> (r: Vec<u8>)
    ensures
        r@ == spec_address_of(payload@),
        r@.len() == 64,
        forall|i: int| 0 <= i < r@.len() ==> is_lower_hex_digit(#[trigger] r@[i]),
{
    let d = blake3_digest(payload);
    let r = to_hex_lower(&d);
    proof {
        lemma_hex_of_shape(d@);
    }
    r
}

/// Determinism of content addressing: equal payloads always receive equal
/// addresses, across repeated calls and across runs.
pub proof fn lemma_address_deterministic(a: Seq<u8>, b: Seq<u8>)
    requires
        a == b,
    ensures
        spec_address_of(a) == spec_address_of(b),
{
}

} // verus!
