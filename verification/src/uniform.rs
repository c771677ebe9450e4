//! Uniform descriptors: camera, per-object transform, per-submesh material.
//!
//! Each uniform kind can describe its binding layout, allocate a backing
//! buffer holding its current byte image, and produce a binding set that
//! binds that buffer at binding index 0 under a given layout. Layouts are
//! pure values of the uniform's shape, so binding sets and pipelines created
//! at different times stay compatible.

use crate::bytes::color_bytes;
use crate::bytes::matrix_bytes;
use crate::bytes::push_color_bytes;
use crate::bytes::push_matrix_bytes;
use crate::math::ColorBits;
use crate::math::MatrixBits;
use vstd::prelude::*;

verus! {

/// The three uniform kinds the forward pipeline binds, one slot each.
#[derive(Clone, Copy, Debug, PartialEq, Eq, Structural)]
pub enum UniformKind {
    Camera,
    Transform,
    Material,
}

/// The declared shape of one binding-set slot: which uniform kind it carries,
/// the binding index its buffer occupies, and the buffer's exact byte size.
#[derive(Clone, Copy, Debug, PartialEq, Eq, Structural)]
pub struct BindingLayout {
    pub kind: UniformKind,
    pub binding_index: u32,
    pub byte_size: u64,
}

/// Byte size of the camera uniform: two 4x4 matrices.
pub const CAMERA_UNIFORM_BYTES: u64 = 128;

/// Byte size of the transform uniform: one 4x4 matrix.
pub const TRANSFORM_UNIFORM_BYTES: u64 = 64;

/// Byte size of the material uniform: one RGBA color.
pub const MATERIAL_UNIFORM_BYTES: u64 = 16;

/// The camera uniform's binding layout.
pub open spec fn camera_layout() -> BindingLayout {
    BindingLayout {
        kind: UniformKind::Camera,
        binding_index: 0,
        byte_size: CAMERA_UNIFORM_BYTES as u64,
    }
}

/// The transform uniform's binding layout.
pub open spec fn transform_layout() -> BindingLayout {
    BindingLayout {
        kind: UniformKind::Transform,
        binding_index: 0,
        byte_size: TRANSFORM_UNIFORM_BYTES as u64,
    }
}

/// The material uniform's binding layout.
pub open spec fn material_layout() -> BindingLayout {
    BindingLayout {
        kind: UniformKind::Material,
        binding_index: 0,
        byte_size: MATERIAL_UNIFORM_BYTES as u64,
    }
}

/// A GPU-visible buffer, modelled by the bytes it was created with.
#[derive(Clone, Debug, PartialEq, Eq)]
pub struct UniformBuffer {
    pub bytes: Vec<u8>,
}

impl View for UniformBuffer {
    type V = Seq<u8>;

    open spec fn view(&self) -> Seq<u8> {
        self.bytes@
    }
}

/// A binding set: one buffer bound at `binding_index` under `layout`.
#[derive(Clone, Debug, PartialEq, Eq)]
pub struct BindingSet {
    pub layout: BindingLayout,
    pub binding_index: u32,
    pub buffer: UniformBuffer,
}

/// Mathematical image of a binding set.
pub ghost struct BindingSetView {
    pub layout: BindingLayout,
    pub binding_index: u32,
    pub bytes: Seq<u8>,
}

impl View for BindingSet {
    type V = BindingSetView;

    open spec fn view(&self) -> BindingSetView {
        BindingSetView {
            layout: self.layout,
            binding_index: self.binding_index,
            bytes: self.buffer@,
        }
    }
}

/// The binding set a transform uniform with matrix `model` produces under the
/// canonical transform layout.
pub open spec fn transform_binding(model: MatrixBits) -> BindingSetView {
    BindingSetView { layout: transform_layout(), binding_index: 0, bytes: matrix_bytes(model) }
}

/// The binding set a material uniform with color `albedo` produces under the
/// canonical material layout.
pub open spec fn material_binding(albedo: ColorBits) -> BindingSetView {
    BindingSetView { layout: material_layout(), binding_index: 0, bytes: color_bytes(albedo) }
}

/// The camera uniform: view and projection matrices.
#[derive(Clone, Copy, Debug, PartialEq, Eq, Structural)]
pub struct CameraUniform {
    pub view: MatrixBits,
    pub proj: MatrixBits,
}

impl CameraUniform {
    /// The uniform's byte image: view matrix, then projection matrix.
    pub open spec fn bytes_spec(self) -> Seq<u8> {
        matrix_bytes(self.view) + matrix_bytes(self.proj)
    }

    /// The camera binding layout; a pure value, stable across calls.
    pub fn layout() -> (l: BindingLayout)
        ensures
            l == camera_layout(),
    {
        BindingLayout { kind: UniformKind::Camera, binding_index: 0, byte_size: CAMERA_UNIFORM_BYTES }
    }

    /// Allocates the backing buffer, sized exactly to the uniform's byte
    /// layout and initialized with its current contents.
    pub fn create_buffer(&self) -> (b: UniformBuffer)
        ensures
            b@ == self.bytes_spec(),
            b@.len() == camera_layout().byte_size,
    {
        let mut bytes: Vec<u8> = Vec::new();
        push_matrix_bytes(&mut bytes, &self.view);
        push_matrix_bytes(&mut bytes, &self.proj);
        UniformBuffer { bytes }
    }

    /// Binds a fresh backing buffer at binding index 0 under `layout`.
    pub fn create_binding_set(&self, layout: &BindingLayout) -> (s: BindingSet)
        ensures
            s@ == (BindingSetView {
                layout: *layout,
                binding_index: 0,
                bytes: self.bytes_spec(),
            }),
    {
        BindingSet { layout: *layout, binding_index: 0, buffer: self.create_buffer() }
    }
}

/// The per-object transform uniform: the object's world matrix.
#[derive(Clone, Copy, Debug, PartialEq, Eq, Structural)]
pub struct TransformUniform {
    pub model: MatrixBits,
}

impl TransformUniform {
    /// The uniform's byte image: the model matrix.
    pub open spec fn bytes_spec(self) -> Seq<u8> {
        matrix_bytes(self.model)
    }

    /// The transform binding layout; a pure value, stable across calls.
    pub fn layout() -> (l: BindingLayout)
        ensures
            l == transform_layout(),
    {
        BindingLayout {
            kind: UniformKind::Transform,
            binding_index: 0,
            byte_size: TRANSFORM_UNIFORM_BYTES,
        }
    }

    /// Allocates the backing buffer, sized exactly to the uniform's byte
    /// layout and initialized with its current contents.
    pub fn create_buffer(&self) -> (b: UniformBuffer)
        ensures
            b@ == self.bytes_spec(),
            b@.len() == transform_layout().byte_size,
    {
        let mut bytes: Vec<u8> = Vec::new();
        push_matrix_bytes(&mut bytes, &self.model);
        UniformBuffer { bytes }
    }

    /// Binds a fresh backing buffer at binding index 0 under `layout`.
    pub fn create_binding_set(&self, layout: &BindingLayout) -> (s: BindingSet)
        ensures
            s@ == (BindingSetView {
                layout: *layout,
                binding_index: 0,
                bytes: self.bytes_spec(),
            }),
    {
        BindingSet { layout: *layout, binding_index: 0, buffer: self.create_buffer() }
    }
}

/// The per-submesh material uniform: a single flat albedo color.
#[derive(Clone, Copy, Debug, PartialEq, Eq, Structural)]
pub struct MaterialUniform {
    pub albedo: ColorBits,
}

impl MaterialUniform {
    /// The uniform's byte image: the albedo color.
    pub open spec fn bytes_spec(self) -> Seq<u8> {
        color_bytes(self.albedo)
    }

    /// The material binding layout; a pure value, stable across calls.
    pub fn layout() -> (l: BindingLayout)
        ensures
            l == material_layout(),
    {
        BindingLayout {
            kind: UniformKind::Material,
            binding_index: 0,
            byte_size: MATERIAL_UNIFORM_BYTES,
        }
    }

    /// Allocates the backing buffer, sized exactly to the uniform's byte
    /// layout and initialized with its current contents.
    pub fn create_buffer(&self) -> (b: UniformBuffer)
        ensures
            b@ == self.bytes_spec(),
            b@.len() == material_layout().byte_size,
    {
        let mut bytes: Vec<u8> = Vec::new();
        push_color_bytes(&mut bytes, &self.albedo);
        UniformBuffer { bytes }
    }

    /// Binds a fresh backing buffer at binding index 0 under `layout`.
    pub fn create_binding_set(&self, layout: &BindingLayout) -> (s: BindingSet)
        ensures
            s@ == (BindingSetView {
                layout: *layout,
                binding_index: 0,
                bytes: self.bytes_spec(),
            }),
    {
        BindingSet { layout: *layout, binding_index: 0, buffer: self.create_buffer() }
    }
}

} // verus!
