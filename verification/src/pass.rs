//! The forward pass: pipeline state, depth target, and pass execution.
//!
//! A pass instance is valid only for the surface configuration it was built
//! with; on any resize or format change the owning renderer discards it and
//! builds a fresh one. Executing the pass records one render pass: clear to
//! opaque black and far-plane depth, bind the pipeline and camera once, then
//! walk the snapshot in input order issuing one indexed draw per submesh.
//! The shader stages are a fixed embedded asset of the unverified shell and
//! carry no decisions, so they have no counterpart in this model.

use crate::math::ColorBits;
use crate::math::ONE_BITS;
use crate::math::opaque_black;
use crate::snapshot::RendererScene;
use crate::snapshot::RendererSceneObjectView;
use crate::snapshot::RendererSceneView;
use crate::uniform::UniformKind;
use vstd::prelude::*;

verus! {

/// The output surface's configuration: extent and pixel format, the format
/// as an opaque code chosen by the surface-acquisition layer.
#[derive(Clone, Copy, Debug, PartialEq, Eq, Structural)]
pub struct SurfaceSpec {
    pub width: u32,
    pub height: u32,
    pub format: u32,
}

/// A texture format: the fixed 32-bit float depth format, or a surface
/// (color) format named by its code.
#[derive(Clone, Copy, Debug, PartialEq, Eq, Structural)]
pub enum TextureFormat {
    Depth32Float,
    Surface { code: u32 },
}

/// A texture allocation request: extent, format, mip and sample counts.
#[derive(Clone, Copy, Debug, PartialEq, Eq, Structural)]
pub struct TextureDesc {
    pub width: u32,
    pub height: u32,
    pub format: TextureFormat,
    pub mip_level_count: u32,
    pub sample_count: u32,
}

/// The render pipeline's fixed-function state and binding-slot protocol.
/// Slots are ordered `[camera, transform, material]`; the execution step
/// binds them under the same numbering.
#[derive(Clone, Copy, Debug, PartialEq, Eq, Structural)]
pub struct PipelineDesc {
    pub color_format: TextureFormat,
    pub depth_format: TextureFormat,
    pub depth_write_enabled: bool,
    pub depth_compare_less: bool,
    pub slot0: UniformKind,
    pub slot1: UniformKind,
    pub slot2: UniformKind,
}

/// The depth target the pass allocates for `c`: the surface's exact extent,
/// single mip, single sample, 32-bit float depth.
pub open spec fn depth_target_spec(c: SurfaceSpec) -> TextureDesc {
    TextureDesc {
        width: c.width,
        height: c.height,
        format: TextureFormat::Depth32Float,
        mip_level_count: 1,
        sample_count: 1,
    }
}

/// The pipeline the pass builds for `c`: one color target in the surface's
/// format, depth test and write enabled with less-than compare, and the
/// `[camera, transform, material]` slot order.
pub open spec fn pipeline_spec(c: SurfaceSpec) -> PipelineDesc {
    PipelineDesc {
        color_format: TextureFormat::Surface { code: c.format },
        depth_format: TextureFormat::Depth32Float,
        depth_write_enabled: true,
        depth_compare_less: true,
        slot0: UniformKind::Camera,
        slot1: UniformKind::Transform,
        slot2: UniformKind::Material,
    }
}

/// The forward pass: a pipeline and a depth target, both tied to one
/// surface configuration.
#[derive(Clone, Copy, Debug, PartialEq, Eq, Structural)]
pub struct ForwardPass {
    pub pipeline: PipelineDesc,
    pub depth_target: TextureDesc,
}

/// The pass a given surface configuration produces.
pub open spec fn forward_pass_spec(c: SurfaceSpec) -> ForwardPass {
    ForwardPass { pipeline: pipeline_spec(c), depth_target: depth_target_spec(c) }
}

/// What a render pass binds: the camera set, an object's transform set, or a
/// submesh's material set. Objects and submeshes are named by their position
/// in the snapshot.
#[derive(Clone, Copy, Debug, PartialEq, Eq, Structural)]
pub enum BindTarget {
    Camera,
    ObjectTransform { object: usize },
    SubmeshMaterial { object: usize, submesh: usize },
}

/// One recorded render-pass command.
#[derive(Clone, Copy, Debug, PartialEq, Eq, Structural)]
pub enum PassCommand {
    SetPipeline,
    SetBindGroup { slot: u32, target: BindTarget },
    SetVertexBuffer { object: usize, submesh: usize },
    SetIndexBuffer { object: usize, submesh: usize },
    DrawIndexed { index_count: u32 },
}

/// The four commands of one submesh: material binding on slot 2, vertex and
/// index buffers, one indexed draw of the submesh's element count.
pub open spec fn submesh_commands(object: usize, submesh: usize, index_count: u32) -> Seq<
    PassCommand,
> {
    seq![
        PassCommand::SetBindGroup {
            slot: 2,
            target: BindTarget::SubmeshMaterial { object, submesh },
        },
        PassCommand::SetVertexBuffer { object, submesh },
        PassCommand::SetIndexBuffer { object, submesh },
        PassCommand::DrawIndexed { index_count },
    ]
}

/// The commands of the first `upto` submeshes of object `object`, in input
/// order.
pub open spec fn object_meshes_commands(
    o: RendererSceneObjectView,
    object: usize,
    upto: int,
) -> Seq<PassCommand>
    decreases upto,
{
    if upto <= 0 {
        Seq::empty()
    } else {
        object_meshes_commands(o, object, upto - 1) + submesh_commands(
            object,
            (upto - 1) as usize,
            o.meshes[upto - 1].index_count,
        )
    }
}

/// The commands of one object: its transform binding on slot 1, then its
/// submeshes in input order.
pub open spec fn object_commands(o: RendererSceneObjectView, object: usize) -> Seq<PassCommand> {
    seq![
        PassCommand::SetBindGroup { slot: 1, target: BindTarget::ObjectTransform { object } },
    ] + object_meshes_commands(o, object, o.meshes.len() as int)
}

/// The commands of the first `upto` objects, in input order.
pub open spec fn objects_commands(objs: Seq<RendererSceneObjectView>, upto: int) -> Seq<
    PassCommand,
>
    decreases upto,
{
    if upto <= 0 {
        Seq::empty()
    } else {
        objects_commands(objs, upto - 1) + object_commands(objs[upto - 1], (upto - 1) as usize)
    }
}

/// The opening of every pass: bind the pipeline and the camera set once.
pub open spec fn pass_prefix() -> Seq<PassCommand> {
    seq![
        PassCommand::SetPipeline,
        PassCommand::SetBindGroup { slot: 0, target: BindTarget::Camera },
    ]
}

/// The full command sequence of one pass over a snapshot: the opening, then
/// every object in input order.
pub open spec fn pass_commands_spec(s: RendererSceneView) -> Seq<PassCommand> {
    pass_prefix() + objects_commands(s.objects, s.objects.len() as int)
}

/// One recorded render pass: clear and store settings for the color and
/// depth attachments, the depth target in use, and the command sequence.
#[derive(Clone, Debug, PartialEq, Eq)]
pub struct PassRecording {
    pub clear_color: ColorBits,
    pub color_store: bool,
    pub depth_target: TextureDesc,
    pub clear_depth_bits: u32,
    pub depth_store: bool,
    pub commands: Vec<PassCommand>,
}

/// Mathematical image of a recorded render pass.
pub ghost struct PassRecordingView {
    pub clear_color: ColorBits,
    pub color_store: bool,
    pub depth_target: TextureDesc,
    pub clear_depth_bits: u32,
    pub depth_store: bool,
    pub commands: Seq<PassCommand>,
}

impl View for PassRecording {
    type V = PassRecordingView;

    open spec fn view(&self) -> PassRecordingView {
        PassRecordingView {
            clear_color: self.clear_color,
            color_store: self.color_store,
            depth_target: self.depth_target,
            clear_depth_bits: self.clear_depth_bits,
            depth_store: self.depth_store,
            commands: self.commands@,
        }
    }
}

/// The recording a pass `p` produces over snapshot `s`: color cleared to
/// opaque black, depth cleared to the far plane, both stored, and the full
/// command sequence.
pub open spec fn pass_recording_spec(p: ForwardPass, s: RendererSceneView) -> PassRecordingView {
    PassRecordingView {
        clear_color: opaque_black(),
        color_store: true,
        depth_target: p.depth_target,
        clear_depth_bits: ONE_BITS,
        depth_store: true,
        commands: pass_commands_spec(s),
    }
}

impl ForwardPass {
    /// Builds the pass for `surface_conf`: a depth target of the surface's
    /// exact extent and a pipeline matching its format, with the
    /// `[camera, transform, material]` slot order.
    pub fn new(surface_conf: &SurfaceSpec) -> (p: ForwardPass)
        ensures
            p == forward_pass_spec(*surface_conf),
    {
        ForwardPass {
            pipeline: PipelineDesc {
                color_format: TextureFormat::Surface { code: surface_conf.format },
                depth_format: TextureFormat::Depth32Float,
                depth_write_enabled: true,
                depth_compare_less: true,
                slot0: UniformKind::Camera,
                slot1: UniformKind::Transform,
                slot2: UniformKind::Material,
            },
            depth_target: TextureDesc {
                width: surface_conf.width,
                height: surface_conf.height,
                format: TextureFormat::Depth32Float,
                mip_level_count: 1,
                sample_count: 1,
            },
        }
    }

    /// Records one render pass over the snapshot: clear both attachments,
    /// bind pipeline and camera once, then objects and submeshes in input
    /// order, one indexed draw per submesh.
    pub fn execute(&self, scene: &RendererScene) -> (r: PassRecording)
        ensures
            r@ == pass_recording_spec(*self, scene@),
    {
        let mut commands: Vec<PassCommand> = Vec::new();
        commands.push(PassCommand::SetPipeline);
        commands.push(PassCommand::SetBindGroup { slot: 0, target: BindTarget::Camera });
        proof {
            assert(commands@ =~= pass_prefix() + objects_commands(scene@.objects, 0));
        }
        let mut i: usize = 0;
        while i < scene.objects.len()
            invariant
                i <= scene.objects@.len(),
                commands@ == pass_prefix() + objects_commands(scene@.objects, i as int),
            decreases scene.objects@.len() - i,
        {
            let o = &scene.objects[i];
            commands.push(
                PassCommand::SetBindGroup {
                    slot: 1,
                    target: BindTarget::ObjectTransform { object: i },
                },
            );
            let ghost before_meshes = commands@;
            proof {
                assert(commands@ =~= before_meshes + object_meshes_commands(o@, i, 0));
            }
            let mut j: usize = 0;
            while j < o.meshes.len()
                invariant
                    j <= o.meshes@.len(),
                    commands@ == before_meshes + object_meshes_commands(o@, i, j as int),
                decreases o.meshes@.len() - j,
            {
                commands.push(
                    PassCommand::SetBindGroup {
                        slot: 2,
                        target: BindTarget::SubmeshMaterial { object: i, submesh: j },
                    },
                );
                commands.push(PassCommand::SetVertexBuffer { object: i, submesh: j });
                commands.push(PassCommand::SetIndexBuffer { object: i, submesh: j });
                commands.push(PassCommand::DrawIndexed { index_count: o.meshes[j].index_count });
                j = j + 1;
                proof {
                    assert(o@.meshes[j - 1].index_count == o.meshes@[j - 1]@.index_count);
                    assert(commands@ =~= before_meshes + object_meshes_commands(o@, i, j as int));
                }
            }
            i = i + 1;
            proof {
                assert(o@ == scene@.objects[i - 1]);
                assert(commands@ =~= pass_prefix() + objects_commands(scene@.objects, i as int));
            }
        }
        proof {
            assert(commands@ =~= pass_commands_spec(scene@));
        }
        PassRecording {
            clear_color: ColorBits { r: 0, g: 0, b: 0, a: ONE_BITS },
            color_store: true,
            depth_target: self.depth_target,
            clear_depth_bits: ONE_BITS,
            depth_store: true,
            commands,
        }
    }
}

} // verus!
