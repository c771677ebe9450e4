//! Matrices and colors as raw bit patterns.
//!
//! The renderer never does arithmetic on matrix cells or color channels: it
//! only copies them into GPU-bound byte buffers. Each numeric value is
//! therefore held as the bit pattern of one IEEE-754 single-precision value,
//! which keeps the whole data model in plain integers.

use vstd::prelude::*;

verus! {

/// Bit pattern of `1.0_f32`: the unit matrix diagonal and the depth clear value.
pub const ONE_BITS: u32 = 0x3F80_0000;

/// A 4x4 matrix as 16 cell bit patterns, column-major: `c{4 * col + row}`
/// holds column `col`, row `row`.
#[derive(Clone, Copy, Debug, PartialEq, Eq, Structural)]
pub struct MatrixBits {
    pub c0: u32,
    pub c1: u32,
    pub c2: u32,
    pub c3: u32,
    pub c4: u32,
    pub c5: u32,
    pub c6: u32,
    pub c7: u32,
    pub c8: u32,
    pub c9: u32,
    pub c10: u32,
    pub c11: u32,
    pub c12: u32,
    pub c13: u32,
    pub c14: u32,
    pub c15: u32,
}

/// The identity matrix: ones on the diagonal, zeroes elsewhere.
pub open spec fn identity_matrix() -> MatrixBits {
    MatrixBits {
        c0: ONE_BITS,
        c1: 0,
        c2: 0,
        c3: 0,
        c4: 0,
        c5: ONE_BITS,
        c6: 0,
        c7: 0,
        c8: 0,
        c9: 0,
        c10: ONE_BITS,
        c11: 0,
        c12: 0,
        c13: 0,
        c14: 0,
        c15: ONE_BITS,
    }
}

impl MatrixBits {
    /// The matrix as a sequence of its 16 cells in column-major order.
    pub open spec fn cells_spec(self) -> Seq<u32> {
        seq![
            self.c0, self.c1, self.c2, self.c3, self.c4, self.c5, self.c6, self.c7, self.c8,
            self.c9, self.c10, self.c11, self.c12, self.c13, self.c14, self.c15,
        ]
    }

    /// The identity matrix.
    pub fn identity() -> (m: MatrixBits)
        ensures
            m == identity_matrix(),
    {
        MatrixBits {
            c0: ONE_BITS,
            c1: 0,
            c2: 0,
            c3: 0,
            c4: 0,
            c5: ONE_BITS,
            c6: 0,
            c7: 0,
            c8: 0,
            c9: 0,
            c10: ONE_BITS,
            c11: 0,
            c12: 0,
            c13: 0,
            c14: 0,
            c15: ONE_BITS,
        }
    }

    /// Builds a matrix from its 16 cell bit patterns in column-major order.
    pub fn from_cells(cells: &[u32; 16]) -> (m: MatrixBits)
        ensures
            m.cells_spec() == cells@,
    {
        let m = MatrixBits {
            c0: cells[0],
            c1: cells[1],
            c2: cells[2],
            c3: cells[3],
            c4: cells[4],
            c5: cells[5],
            c6: cells[6],
            c7: cells[7],
            c8: cells[8],
            c9: cells[9],
            c10: cells[10],
            c11: cells[11],
            c12: cells[12],
            c13: cells[13],
            c14: cells[14],
            c15: cells[15],
        };
        proof {
            assert(m.cells_spec() =~= cells@);
        }
        m
    }

    /// The 16 cell bit patterns in column-major order.
    pub fn cells(&self) -> (cells: [u32; 16])
        ensures
            cells@ == self.cells_spec(),
    {
        let cells = [
            self.c0, self.c1, self.c2, self.c3, self.c4, self.c5, self.c6, self.c7, self.c8,
            self.c9, self.c10, self.c11, self.c12, self.c13, self.c14, self.c15,
        ];
        proof {
            assert(cells@ =~= self.cells_spec());
        }
        cells
    }
}

/// An RGBA color as four channel bit patterns.
#[derive(Clone, Copy, Debug, PartialEq, Eq, Structural)]
pub struct ColorBits {
    pub r: u32,
    pub g: u32,
    pub b: u32,
    pub a: u32,
}

/// The albedo a submesh falls back to when its scene object carries no
/// material for it: all channels zero.
pub open spec fn default_albedo() -> ColorBits {
    ColorBits { r: 0, g: 0, b: 0, a: 0 }
}

/// Opaque black, the clear color of the forward pass.
pub open spec fn opaque_black() -> ColorBits {
    ColorBits { r: 0, g: 0, b: 0, a: ONE_BITS }
}

impl ColorBits {
    /// The default albedo value.
    pub fn default_value() -> (c: ColorBits)
        ensures
            c == default_albedo(),
    {
        ColorBits { r: 0, g: 0, b: 0, a: 0 }
    }
}

} // verus!
