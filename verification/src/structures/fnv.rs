//! The hash by which variable suggestions are keyed: FNV-1a, 64 bits wide.

use vstd::prelude::*;
use vstd::utf8::encode_utf8;

verus! {

/// The value that the hash of no bytes has.
pub const OFFSET_BASIS: u64 = 0xcbf2_9ce4_8422_2325;

/// The factor by which the hash is multiplied after each byte.
pub const PRIME: u64 = 0x0000_0100_0000_01b3;

/// The hash of a sequence of bytes: for each byte in turn, the hash so far is
/// combined with the byte by exclusive or and multiplied by the prime, modulo
/// 2 to the 64.
pub open spec fn fnv1a(bytes: Seq<u8>) -> u64
    decreases bytes.len(),
{
    if bytes.len() == 0 {
        OFFSET_BASIS
    } else {
        (fnv1a(bytes.drop_last()) ^ (bytes.last() as u64)).wrapping_mul(PRIME)
    }
}

/// The hash of a text: that of its UTF-8 encoding.
pub open spec fn text_hash(text: Seq<char>) -> u64 {
    fnv1a(encode_utf8(text))
}

/// Hashes the UTF-8 encoding of `text`.
pub fn hash_line(text: &str) -> (hash: u64)
    ensures
        hash == text_hash(text@),
{
    let bytes = text.as_bytes();
    let mut hash: u64 = OFFSET_BASIS;
    let mut i: usize = 0;
    while i < bytes.len()
        invariant
            i <= bytes.len(),
            bytes@ == encode_utf8(text@),
            hash == fnv1a(bytes@.take(i as int)),
        decreases bytes.len() - i,
    {
        proof {
            let upto = bytes@.take(i + 1);
            assert(upto.drop_last() == bytes@.take(i as int));
            assert(upto.last() == bytes@[i as int]);
        }
        hash = (hash ^ (bytes[i] as u64)).wrapping_mul(PRIME);
        i += 1;
    }
    assert(bytes@.take(bytes.len() as int) == bytes@);
    hash
}

} // verus!
