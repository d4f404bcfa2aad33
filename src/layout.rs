//! Byte layouts shared by the mesh packer, the uniform pool and the shaders.
//!
//! Floating-point values are carried as their IEEE-754 bit patterns (`u32`)
//! and serialised explicitly as little-endian bytes, the byte order of every
//! GPU the renderer runs on.
use vstd::prelude::*;

verus! {

/// Size in bytes of a 4x4 matrix of 32-bit floats.
pub const MATRIX_SIZE: u64 = 64;

/// Size in bytes of one 32-bit float.
pub const FLOAT_SIZE: u64 = 4;

/// The little-endian bytes of a 32-bit word.
pub open spec fn le_bytes(w: u32) -> Seq<u8> {
    seq![(w & 0xff) as u8, ((w >> 8) & 0xff) as u8, ((w >> 16) & 0xff) as u8, ((w >> 24) & 0xff) as u8]
}

/// The word that four little-endian bytes spell.
pub open spec fn le_word(b0: u8, b1: u8, b2: u8, b3: u8) -> u32 {
    (b0 as u32) | ((b1 as u32) << 8) | ((b2 as u32) << 16) | ((b3 as u32) << 24)
}

/// The little-endian bytes of a 16-bit word.
pub open spec fn le_bytes16(h: u16) -> Seq<u8> {
    seq![(h & 0xff) as u8, ((h >> 8) & 0xff) as u8]
}

/// A sequence of words laid out back to back, four little-endian bytes each.
pub open spec fn words_bytes(ws: Seq<u32>) -> Seq<u8> {
    Seq::new((4 * ws.len()) as nat, |k: int| le_bytes(ws[k / 4])[k % 4])
}

/// A sequence of 16-bit words laid out back to back, two bytes each.
pub open spec fn halves_bytes(hs: Seq<u16>) -> Seq<u8> {
    Seq::new((2 * hs.len()) as nat, |k: int| le_bytes16(hs[k / 2])[k % 2])
}

/// Reading four bytes back gives the word that was written.
pub proof fn lemma_le_round_trip(w: u32)
    ensures
        le_word(le_bytes(w)[0], le_bytes(w)[1], le_bytes(w)[2], le_bytes(w)[3]) == w,
{
    let b0 = (w & 0xff) as u8;
    let b1 = ((w >> 8) & 0xff) as u8;
    let b2 = ((w >> 16) & 0xff) as u8;
    let b3 = ((w >> 24) & 0xff) as u8;
    assert((b0 as u32) | ((b1 as u32) << 8) | ((b2 as u32) << 16) | ((b3 as u32) << 24) == w)
        by (bit_vector)
        requires
            b0 == (w & 0xff) as u8,
            b1 == ((w >> 8) & 0xff) as u8,
            b2 == ((w >> 16) & 0xff) as u8,
            b3 == ((w >> 24) & 0xff) as u8,
    ;
}

/// Serialises words as consecutive little-endian groups of four bytes.
pub fn words_to_bytes(ws: &[u32]) -> (r: Vec<u8>)
    requires
        4 * ws@.len() <= usize::MAX,
    ensures
        r@ == words_bytes(ws@),
{
    let mut out: Vec<u8> = Vec::new();
    let mut i: usize = 0;
    while i < ws.len()
        invariant
            i <= ws@.len(),
            4 * ws@.len() <= usize::MAX,
            out@ =~= Seq::new((4 * i) as nat, |k: int| le_bytes(ws@[k / 4])[k % 4]),
        decreases ws@.len() - i,
    {
        let w = ws[i];
        out.push((w & 0xff) as u8);
        out.push(((w >> 8) & 0xff) as u8);
        out.push(((w >> 16) & 0xff) as u8);
        out.push(((w >> 24) & 0xff) as u8);
        i = i + 1;
    }
    out
}

/// Serialises 16-bit words as consecutive little-endian pairs of bytes.
pub fn halves_to_bytes(hs: &[u16]) -> (r: Vec<u8>)
    requires
        2 * hs@.len() <= usize::MAX,
    ensures
        r@ == halves_bytes(hs@),
{
    let mut out: Vec<u8> = Vec::new();
    let mut i: usize = 0;
    while i < hs.len()
        invariant
            i <= hs@.len(),
            2 * hs@.len() <= usize::MAX,
            out@ =~= Seq::new((2 * i) as nat, |k: int| le_bytes16(hs@[k / 2])[k % 2]),
        decreases hs@.len() - i,
    {
        let h = hs[i];
        out.push((h & 0xff) as u8);
        out.push(((h >> 8) & 0xff) as u8);
        i = i + 1;
    }
    out
}

/// `data` written over `buf` from byte `off` on.
pub open spec fn write_at(buf: Seq<u8>, off: int, data: Seq<u8>) -> Seq<u8> {
    buf.take(off) + data + buf.skip(off + data.len())
}

/// The word that the four bytes of `buf` from `off` on spell.
pub open spec fn read_word(buf: Seq<u8>, off: int) -> u32 {
    le_word(buf[off], buf[off + 1], buf[off + 2], buf[off + 3])
}

} // verus!
