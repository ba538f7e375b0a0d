//! Exact byte layout of GPU-bound payloads.
//!
//! Every buffer the engine uploads — the per-frame 4×4 matrix, vertex
//! data, index data — is a little-endian stream of fixed-width words.
//! The encoding is defined here as a spec-level function of the word
//! sequence, the executable encoders are proved to produce it, and the
//! decoder is proved to invert it exactly, so re-interpreting an
//! uploaded matrix always reproduces the original sixteen words
//! bit for bit.

use vstd::prelude::*;
use vstd::bytes::{
    spec_u32_to_le_bytes, spec_u32_from_le_bytes, lemma_auto_spec_u32_to_from_le_bytes,
    u32_to_le_bytes, u32_from_le_bytes,
};
use vstd::slice::slice_subrange;
use crate::algebra::Mat4Bits;

verus! {

/// The little-endian byte stream that encodes a sequence of 32-bit
/// words, in order.
pub open spec fn bytes_of_words(ws: Seq<u32>) -> Seq<u8>
    decreases ws.len(),
{
    if ws.len() == 0 {
        Seq::empty()
    } else {
        spec_u32_to_le_bytes(ws[0]) + bytes_of_words(ws.drop_first())
    }
}

/// The words read back, four bytes at a time, from a little-endian
/// byte stream; trailing bytes short of a full word are ignored.
pub open spec fn words_of_bytes(bs: Seq<u8>) -> Seq<u32>
    decreases bs.len(),
{
    if bs.len() < 4 {
        Seq::empty()
    } else {
        seq![spec_u32_from_le_bytes(bs.take(4))] + words_of_bytes(bs.skip(4))
    }
}

/// Each word contributes exactly four bytes.
pub proof fn lemma_bytes_of_words_len(ws: Seq<u32>)
    ensures
        bytes_of_words(ws).len() == 4 * ws.len(),
    decreases ws.len(),
{
    lemma_auto_spec_u32_to_from_le_bytes();
    if ws.len() != 0 {
        lemma_bytes_of_words_len(ws.drop_first());
    }
}

/// Appending one word to the stream appends its four bytes.
pub proof fn lemma_bytes_of_words_push(ws: Seq<u32>, w: u32)
    ensures
        bytes_of_words(ws.push(w)) == bytes_of_words(ws) + spec_u32_to_le_bytes(w),
    decreases ws.len(),
{
    lemma_auto_spec_u32_to_from_le_bytes();
    if ws.len() == 0 {
        assert(ws.push(w).drop_first() =~= ws);
        assert(bytes_of_words(ws.push(w)) =~= bytes_of_words(ws) + spec_u32_to_le_bytes(w));
    } else {
        assert(ws.push(w)[0] == ws[0]);
        assert(ws.push(w).drop_first() =~= ws.drop_first().push(w));
        lemma_bytes_of_words_push(ws.drop_first(), w);
        assert(bytes_of_words(ws.push(w)) =~= bytes_of_words(ws) + spec_u32_to_le_bytes(w));
    }
}

/// Law: decoding an encoded word sequence reproduces it exactly,
/// bit for bit.
pub proof fn lemma_words_round_trip(ws: Seq<u32>)
    ensures
        words_of_bytes(bytes_of_words(ws)) == ws,
    decreases ws.len(),
{
    lemma_auto_spec_u32_to_from_le_bytes();
    if ws.len() == 0 {
        assert(words_of_bytes(bytes_of_words(ws)) =~= ws);
    } else {
        let bs = bytes_of_words(ws);
        let head = spec_u32_to_le_bytes(ws[0]);
        let tail = bytes_of_words(ws.drop_first());
        lemma_bytes_of_words_len(ws.drop_first());
        assert(bs.take(4) =~= head);
        assert(bs.skip(4) =~= tail);
        lemma_words_round_trip(ws.drop_first());
        assert(words_of_bytes(bs) =~= ws);
    }
}

/// Encoding distributes over concatenation of word sequences.
pub proof fn lemma_bytes_of_words_concat(a: Seq<u32>, b: Seq<u32>)
    ensures
        bytes_of_words(a + b) == bytes_of_words(a) + bytes_of_words(b),
    decreases a.len(),
{
    if a.len() == 0 {
        assert(a + b =~= b);
        assert(bytes_of_words(a) + bytes_of_words(b) =~= bytes_of_words(b));
    } else {
        assert((a + b)[0] == a[0]);
        assert((a + b).drop_first() =~= a.drop_first() + b);
        lemma_bytes_of_words_concat(a.drop_first(), b);
        assert(bytes_of_words(a + b) =~= bytes_of_words(a) + bytes_of_words(b));
    }
}

/// The little-endian byte stream that encodes a sequence of 16-bit
/// words, in order.
pub open spec fn bytes_of_shorts(ws: Seq<u16>) -> Seq<u8>
    decreases ws.len(),
{
    if ws.len() == 0 {
        Seq::empty()
    } else {
        vstd::bytes::spec_u16_to_le_bytes(ws[0]) + bytes_of_shorts(ws.drop_first())
    }
}

/// Each 16-bit word contributes exactly two bytes.
pub proof fn lemma_bytes_of_shorts_len(ws: Seq<u16>)
    ensures
        bytes_of_shorts(ws).len() == 2 * ws.len(),
    decreases ws.len(),
{
    vstd::bytes::lemma_auto_spec_u16_to_from_le_bytes();
    if ws.len() != 0 {
        lemma_bytes_of_shorts_len(ws.drop_first());
    }
}

/// Appending one 16-bit word to the stream appends its two bytes.
pub proof fn lemma_bytes_of_shorts_push(ws: Seq<u16>, w: u16)
    ensures
        bytes_of_shorts(ws.push(w)) == bytes_of_shorts(ws) + vstd::bytes::spec_u16_to_le_bytes(w),
    decreases ws.len(),
{
    if ws.len() == 0 {
        assert(ws.push(w).drop_first() =~= ws);
        assert(bytes_of_shorts(ws.push(w)) =~= bytes_of_shorts(ws) + vstd::bytes::spec_u16_to_le_bytes(w));
    } else {
        assert(ws.push(w)[0] == ws[0]);
        assert(ws.push(w).drop_first() =~= ws.drop_first().push(w));
        lemma_bytes_of_shorts_push(ws.drop_first(), w);
        assert(bytes_of_shorts(ws.push(w)) =~= bytes_of_shorts(ws) + vstd::bytes::spec_u16_to_le_bytes(w));
    }
}

/// Serializes a sequence of 32-bit words to its little-endian stream.
pub fn words_to_bytes(ws: &Vec<u32>) -> (out: Vec<u8>)
    ensures
        out@ == bytes_of_words(ws@),
        out@.len() == 4 * ws@.len(),
{
    let mut out: Vec<u8> = Vec::new();
    let mut i: usize = 0;
    assert(ws@.take(0) =~= Seq::<u32>::empty());
    while i < ws.len()
        invariant
            i <= ws@.len(),
            out@ == bytes_of_words(ws@.take(i as int)),
        decreases ws@.len() - i,
    {
        append_word_le(&mut out, ws[i]);
        proof {
            assert(ws@.take(i + 1) =~= ws@.take(i as int).push(ws@[i as int]));
            lemma_bytes_of_words_push(ws@.take(i as int), ws@[i as int]);
        }
        i = i + 1;
    }
    proof {
        assert(ws@.take(ws@.len() as int) =~= ws@);
        lemma_bytes_of_words_len(ws@);
    }
    out
}

/// Serializes a sequence of 16-bit words to its little-endian stream.
pub fn shorts_to_bytes(ws: &Vec<u16>) -> (out: Vec<u8>)
    ensures
        out@ == bytes_of_shorts(ws@),
        out@.len() == 2 * ws@.len(),
{
    let mut out: Vec<u8> = Vec::new();
    let mut i: usize = 0;
    assert(ws@.take(0) =~= Seq::<u16>::empty());
    while i < ws.len()
        invariant
            i <= ws@.len(),
            out@ == bytes_of_shorts(ws@.take(i as int)),
        decreases ws@.len() - i,
    {
        let mut b = vstd::bytes::u16_to_le_bytes(ws[i]);
        out.append(&mut b);
        proof {
            assert(ws@.take(i + 1) =~= ws@.take(i as int).push(ws@[i as int]));
            lemma_bytes_of_shorts_push(ws@.take(i as int), ws@[i as int]);
        }
        i = i + 1;
    }
    proof {
        assert(ws@.take(ws@.len() as int) =~= ws@);
        lemma_bytes_of_shorts_len(ws@);
    }
    out
}

/// Appends the four little-endian bytes of one word.
pub fn append_word_le(out: &mut Vec<u8>, x: u32)
    ensures
        final(out)@ == old(out)@ + spec_u32_to_le_bytes(x),
{
    let mut b = u32_to_le_bytes(x);
    out.append(&mut b);
}

/// Serializes a column-major matrix to its 64-byte uniform payload.
pub fn matrix_to_bytes(m: &Mat4Bits) -> (out: Vec<u8>)
    ensures
        out@ == bytes_of_words(m@),
        out@.len() == 64,
{
    let mut out: Vec<u8> = Vec::new();
    let mut i: usize = 0;
    assert(m@.take(0) =~= Seq::<u32>::empty());
    while i < 16
        invariant
            i <= 16,
            out@ == bytes_of_words(m@.take(i as int)),
        decreases 16 - i,
    {
        append_word_le(&mut out, m[i]);
        proof {
            assert(m@.take(i + 1) =~= m@.take(i as int).push(m@[i as int]));
            lemma_bytes_of_words_push(m@.take(i as int), m@[i as int]);
        }
        i = i + 1;
    }
    proof {
        assert(m@.take(16) =~= m@);
        lemma_bytes_of_words_len(m@);
    }
    out
}

/// Re-interprets a 64-byte payload as the sixteen words of a
/// column-major matrix; any other length is rejected.
pub fn matrix_from_bytes(bs: &[u8]) -> (r: Option<Mat4Bits>)
    ensures
        match r {
            Some(m) => bs@.len() == 64 && m@ == words_of_bytes(bs@),
            None => bs@.len() != 64,
        },
{
    if bs.len() != 64 {
        return None;
    }
    let mut m: Mat4Bits = [0u32; 16];
    let mut i: usize = 0;
    while i < 16
        invariant
            i <= 16,
            bs@.len() == 64,
            m@.len() == 16,
            forall|k: int| 0 <= k < i ==> m@[k] == words_of_bytes(bs@)[k],
        decreases 16 - i,
    {
        let chunk = slice_subrange(bs, 4 * i, 4 * i + 4);
        let w = u32_from_le_bytes(chunk);
        proof {
            lemma_words_of_bytes_index(bs@, i as int);
            assert(chunk@ =~= bs@.skip(4 * i).take(4));
        }
        m[i] = w;
        i = i + 1;
    }
    proof {
        lemma_words_of_bytes_len(bs@);
        assert(m@ =~= words_of_bytes(bs@));
    }
    Some(m)
}

/// A byte stream yields one word per four whole bytes.
pub proof fn lemma_words_of_bytes_len(bs: Seq<u8>)
    ensures
        words_of_bytes(bs).len() == bs.len() / 4,
    decreases bs.len(),
{
    if bs.len() >= 4 {
        lemma_words_of_bytes_len(bs.skip(4));
    }
}

/// The word at position `k` is read from bytes `4k .. 4k + 4`.
pub proof fn lemma_words_of_bytes_index(bs: Seq<u8>, k: int)
    requires
        0 <= k,
        4 * k + 4 <= bs.len(),
    ensures
        words_of_bytes(bs)[k] == spec_u32_from_le_bytes(bs.skip(4 * k).take(4)),
    decreases k,
{
    lemma_words_of_bytes_len(bs);
    if k == 0 {
        assert(bs.skip(0).take(4) =~= bs.take(4));
    } else {
        lemma_words_of_bytes_index(bs.skip(4), k - 1);
        assert(bs.skip(4).skip(4 * (k - 1)) =~= bs.skip(4 * k));
    }
}

} // verus!
