//! Hashing the arguments of random deterministic functions.
use vstd::prelude::*;
use crate::siprng::le_byte;

verus! {

/// SipHash-2-4 under the all-zero key, of a byte string.
pub uninterp spec fn sip24_of(b: Seq<u8>) -> u64;

/// The little-endian bytes of a sequence of words, word after word.
pub open spec fn le_bytes(ws: Seq<u64>) -> Seq<u8> {
    Seq::new(8 * ws.len(), |j: int| le_byte(ws[j / 8], (j % 8) as nat))
}

/// The hash of a word-sequence argument: SipHash-2-4 of its little-endian
/// bytes.
pub open spec fn arg_hash(ws: Seq<u64>) -> u64 {
    sip24_of(le_bytes(ws))
}

/// Relies on `std::hash::SipHasher`: a hasher made by `new` has both keys
/// zero, and after one `write` of `b`, `finish` gives SipHash-2-4 of `b`,
/// which depends on the bytes alone.
#[verifier::external_body]
fn sip24(b: &[u8]) -> (r: u64)
    ensures
        r == sip24_of(b@),
{
    #[allow(deprecated)]
    let mut h = std::hash::SipHasher::new();
    std::hash::Hasher::write(&mut h, b);
    std::hash::Hasher::finish(&h)
}

/// The little-endian bytes of `ws`, word after word.
pub fn words_to_le_bytes(ws: &[u64]) -> (r: Vec<u8>)
    ensures
        r@ == le_bytes(ws@),
{
    let mut r: Vec<u8> = Vec::new();
    let mut i: usize = 0;
    while i < ws.len()
        invariant
            i <= ws@.len(),
            r@.len() == 8 * i,
            forall|j: int| 0 <= j < 8 * i ==> r@[j] == #[trigger] le_bytes(ws@)[j],
        decreases ws.len() - i,
    {
        let w = ws[i];
        let mut b: usize = 0;
        while b < 8
            invariant
                i < ws@.len(),
                w == ws@[i as int],
                b <= 8,
                r@.len() == 8 * i + b,
                forall|j: int| 0 <= j < 8 * i + b ==> r@[j] == #[trigger] le_bytes(ws@)[j],
            decreases 8 - b,
        {
            r.push((w >> (8 * b as u64)) as u8);
            assert((8 * i + b) / 8 == i && (8 * i + b) % 8 == b) by (nonlinear_arith)
                requires
                    b < 8,
            ;
            b = b + 1;
        }
        i = i + 1;
    }
    assert(r@ =~= le_bytes(ws@));
    r
}

/// Hashes a word-sequence argument.
pub fn hash_words(ws: &[u64]) -> (r: u64)
    ensures
        r == arg_hash(ws@),
{
    let bytes = words_to_le_bytes(ws);
    sip24(bytes.as_slice())
}

} // verus!
