//! Little-endian byte images of the uniform payloads.
//!
//! The GPU API receives every uniform as a plain byte buffer. On the wire a
//! 32-bit word stands in little-endian order, which on the targets this
//! renderer runs on is exactly the in-memory image of the `f32` value whose
//! bit pattern the word holds.

use crate::math::ColorBits;
use crate::math::MatrixBits;
use vstd::prelude::*;

verus! {

/// The four little-endian bytes of one 32-bit word.
pub open spec fn le4(x: u32) -> Seq<u8> {
    seq![
        (x & 0xFF) as u8,
        ((x >> 8) & 0xFF) as u8,
        ((x >> 16) & 0xFF) as u8,
        ((x >> 24) & 0xFF) as u8,
    ]
}

/// The 64-byte image of a matrix: its cells in column-major order, each as
/// four little-endian bytes.
pub open spec fn matrix_bytes(m: MatrixBits) -> Seq<u8> {
    le4(m.c0) + le4(m.c1) + le4(m.c2) + le4(m.c3) + le4(m.c4) + le4(m.c5) + le4(m.c6) + le4(m.c7)
        + le4(m.c8) + le4(m.c9) + le4(m.c10) + le4(m.c11) + le4(m.c12) + le4(m.c13) + le4(m.c14)
        + le4(m.c15)
}

/// The 16-byte image of a color: r, g, b, a, each as four little-endian bytes.
pub open spec fn color_bytes(c: ColorBits) -> Seq<u8> {
    le4(c.r) + le4(c.g) + le4(c.b) + le4(c.a)
}

/// Appends the four little-endian bytes of `x`.
pub fn push_le4(out: &mut Vec<u8>, x: u32)
    ensures
        final(out)@ == old(out)@ + le4(x),
{
    assert((x & 0xFF) < 256 && ((x >> 8) & 0xFF) < 256 && ((x >> 16) & 0xFF) < 256 && ((x >> 24)
        & 0xFF) < 256) by (bit_vector);
    out.push((x & 0xFF) as u8);
    out.push(((x >> 8) & 0xFF) as u8);
    out.push(((x >> 16) & 0xFF) as u8);
    out.push(((x >> 24) & 0xFF) as u8);
    proof {
        assert(out@ =~= old(out)@ + le4(x));
    }
}

/// Appends the 64-byte image of `m`.
pub fn push_matrix_bytes(out: &mut Vec<u8>, m: &MatrixBits)
    ensures
        final(out)@ == old(out)@ + matrix_bytes(*m),
{
    push_le4(out, m.c0);
    push_le4(out, m.c1);
    push_le4(out, m.c2);
    push_le4(out, m.c3);
    push_le4(out, m.c4);
    push_le4(out, m.c5);
    push_le4(out, m.c6);
    push_le4(out, m.c7);
    push_le4(out, m.c8);
    push_le4(out, m.c9);
    push_le4(out, m.c10);
    push_le4(out, m.c11);
    push_le4(out, m.c12);
    push_le4(out, m.c13);
    push_le4(out, m.c14);
    push_le4(out, m.c15);
    proof {
        assert(out@ =~= old(out)@ + matrix_bytes(*m));
    }
}

/// Appends the 16-byte image of `c`.
pub fn push_color_bytes(out: &mut Vec<u8>, c: &ColorBits)
    ensures
        final(out)@ == old(out)@ + color_bytes(*c),
{
    push_le4(out, c.r);
    push_le4(out, c.g);
    push_le4(out, c.b);
    push_le4(out, c.a);
    proof {
        assert(out@ =~= old(out)@ + color_bytes(*c));
    }
}

} // verus!
