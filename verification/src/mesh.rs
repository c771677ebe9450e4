//! Mesh buffer builder: CPU-side mesh data to GPU vertex/index buffers.
//!
//! A mesh arrives as an opaque vertex byte block (already laid out in the
//! pipeline's vertex format) and a list of indices. The single process-wide
//! index format is 32-bit: every index is written as four little-endian
//! bytes, and a mesh with a different index width simply cannot be expressed.

use crate::bytes::le4;
use crate::bytes::push_le4;
use vstd::prelude::*;

verus! {

/// A CPU-side mesh: vertex data plus indices.
#[derive(Clone, Debug, PartialEq, Eq)]
pub struct MeshData {
    pub vertex_bytes: Vec<u8>,
    pub indices: Vec<u32>,
}

/// Mathematical image of a CPU-side mesh.
pub ghost struct MeshDataView {
    pub vertex_bytes: Seq<u8>,
    pub indices: Seq<u32>,
}

impl View for MeshData {
    type V = MeshDataView;

    open spec fn view(&self) -> MeshDataView {
        MeshDataView { vertex_bytes: self.vertex_bytes@, indices: self.indices@ }
    }
}

/// The index buffer image: each index as four little-endian bytes, in order.
pub open spec fn indices_bytes(s: Seq<u32>) -> Seq<u8>
    decreases s.len(),
{
    if s.len() == 0 {
        Seq::empty()
    } else {
        indices_bytes(s.drop_last()) + le4(s.last())
    }
}

/// The index buffer is sized exactly to the source: four bytes per index.
pub proof fn lemma_indices_bytes_len(s: Seq<u32>)
    ensures
        indices_bytes(s).len() == 4 * s.len(),
    decreases s.len(),
{
    if s.len() > 0 {
        lemma_indices_bytes_len(s.drop_last());
    }
}

/// GPU mesh buffers: one vertex buffer and one index buffer, each sized
/// exactly to the source mesh, plus the recorded element count.
#[derive(Clone, Debug, PartialEq, Eq)]
pub struct MeshBuffers {
    pub vertex_bytes: Vec<u8>,
    pub index_bytes: Vec<u8>,
    pub index_count: u32,
}

/// Mathematical image of GPU mesh buffers.
pub ghost struct MeshBuffersView {
    pub vertex_bytes: Seq<u8>,
    pub index_bytes: Seq<u8>,
    pub index_count: u32,
}

impl View for MeshBuffers {
    type V = MeshBuffersView;

    open spec fn view(&self) -> MeshBuffersView {
        MeshBuffersView {
            vertex_bytes: self.vertex_bytes@,
            index_bytes: self.index_bytes@,
            index_count: self.index_count,
        }
    }
}

/// The buffers a mesh uploads to: its vertex bytes unchanged, its indices in
/// the fixed 32-bit little-endian format, and its index count.
pub open spec fn mesh_buffers_spec(m: MeshDataView) -> MeshBuffersView {
    MeshBuffersView {
        vertex_bytes: m.vertex_bytes,
        index_bytes: indices_bytes(m.indices),
        index_count: m.indices.len() as u32,
    }
}

/// Copies a byte block.
fn copy_bytes(src: &Vec<u8>) -> (out: Vec<u8>)
    ensures
        out@ == src@,
{
    let mut out: Vec<u8> = Vec::new();
    let mut i: usize = 0;
    while i < src.len()
        invariant
            i <= src@.len(),
            out@ == src@.subrange(0, i as int),
        decreases src@.len() - i,
    {
        out.push(src[i]);
        i = i + 1;
        proof {
            assert(out@ =~= src@.subrange(0, i as int));
        }
    }
    proof {
        assert(out@ =~= src@);
    }
    out
}

impl MeshData {
    /// Uploads the mesh: vertex bytes to a vertex buffer, indices to an index
    /// buffer in the fixed 32-bit format, and records the element count.
    pub fn create_buffers(&self) -> (b: MeshBuffers)
        requires
            self.indices@.len() <= u32::MAX,
        ensures
            b@ == mesh_buffers_spec(self@),
            b@.vertex_bytes.len() == self@.vertex_bytes.len(),
            b@.index_bytes.len() == 4 * self@.indices.len(),
    {
        proof {
            lemma_indices_bytes_len(self.indices@);
        }
        let vertex_bytes = copy_bytes(&self.vertex_bytes);
        let mut index_bytes: Vec<u8> = Vec::new();
        let mut i: usize = 0;
        while i < self.indices.len()
            invariant
                i <= self.indices@.len(),
                index_bytes@ == indices_bytes(self.indices@.subrange(0, i as int)),
            decreases self.indices@.len() - i,
        {
            push_le4(&mut index_bytes, self.indices[i]);
            i = i + 1;
            proof {
                let done = self.indices@.subrange(0, i as int);
                assert(done.drop_last() =~= self.indices@.subrange(0, i - 1));
                assert(done.last() == self.indices@[i - 1]);
            }
        }
        proof {
            assert(self.indices@.subrange(0, self.indices@.len() as int) =~= self.indices@);
        }
        MeshBuffers { vertex_bytes, index_bytes, index_count: self.indices.len() as u32 }
    }
}

} // verus!
