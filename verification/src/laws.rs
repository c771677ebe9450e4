//! The renderer's cross-cutting guarantees, stated and proved over the
//! models that the methods' own contracts use.

use crate::bytes::color_bytes;
use crate::math::default_albedo;
use crate::pass::SurfaceSpec;
use crate::pass::TextureFormat;
use crate::pass::depth_target_spec;
use crate::pass::forward_pass_spec;
use crate::pass::object_commands;
use crate::pass::object_meshes_commands;
use crate::pass::objects_commands;
use crate::pass::pass_commands_spec;
use crate::pass::submesh_commands;
use crate::renderer::FrameView;
use crate::renderer::RendererView;
use crate::renderer::frame_spec;
use crate::scene::SceneView;
use crate::snapshot::RendererSceneView;
use crate::snapshot::resolve_albedo;
use crate::snapshot::snapshot_object_spec;
use crate::snapshot::snapshot_spec;
use crate::uniform::material_binding;
use vstd::prelude::*;

verus! {

/// After the forward pass has been rebuilt for a surface configuration —
/// what `resize` ensures — every frame the renderer records uses a depth
/// target of exactly that configuration's extent and the 32-bit float depth
/// format, and a pipeline whose color target is that configuration's
/// format: no stale resource can appear in a recorded frame.
pub proof fn lemma_resize_scopes_frame_to_surface(
    r: RendererView,
    c: SurfaceSpec,
    s: RendererSceneView,
)
    requires
        r.forward_pass == forward_pass_spec(c),
    ensures
        frame_spec(r, s).pass.depth_target == depth_target_spec(c),
        frame_spec(r, s).pass.depth_target.width == c.width,
        frame_spec(r, s).pass.depth_target.height == c.height,
        frame_spec(r, s).pass.depth_target.format == TextureFormat::Depth32Float,
        r.forward_pass.pipeline.color_format == (TextureFormat::Surface { code: c.format }),
{
}

/// Snapshotting is referentially pure: an unchanged scene always produces
/// the same snapshot, and frames recorded over the two snapshots are equal
/// in every part.
pub proof fn lemma_create_scene_pure(r: RendererView, s1: SceneView, s2: SceneView)
    requires
        s1 == s2,
    ensures
        snapshot_spec(s1) == snapshot_spec(s2),
        frame_spec(r, snapshot_spec(s1)) == frame_spec(r, snapshot_spec(s2)),
{
}

/// Every snapshotted object carries exactly one material binding set per
/// mesh; a slot whose material is absent — an empty optional, or a slot
/// beyond the material list — carries the default albedo's bytes.
pub proof fn lemma_one_material_binding_per_mesh(s: SceneView, i: int)
    requires
        0 <= i < s.objects.len(),
    ensures
        snapshot_spec(s).objects[i].materials.len() == s.objects[i].meshes.len(),
        forall|j: int|
            0 <= j < s.objects[i].meshes.len() ==> #[trigger] snapshot_spec(s).objects[i].materials[j]
                == material_binding(resolve_albedo(s.objects[i].materials, j)),
        forall|j: int|
            0 <= j < s.objects[i].meshes.len() && (j >= s.objects[i].materials.len()
                || s.objects[i].materials[j] is None) ==> (
            #[trigger] snapshot_spec(s).objects[i].materials[j]).bytes == color_bytes(
                default_albedo(),
            ),
{
    assert(snapshot_spec(s).objects[i] == snapshot_object_spec(s.objects[i]));
}

/// Frame recording is deterministic and ordered: two frames recorded from
/// one renderer over one snapshot are equal, their command sequence is the
/// snapshot's fixed one, and that sequence lists the objects in input
/// order, each object's block appended after all earlier objects'.
pub proof fn lemma_draw_order_deterministic(
    r: RendererView,
    s: RendererSceneView,
    f1: FrameView,
    f2: FrameView,
)
    requires
        f1 == frame_spec(r, s),
        f2 == frame_spec(r, s),
    ensures
        f1 == f2,
        f1.pass.commands == pass_commands_spec(s),
        forall|i: int|
            0 <= i < s.objects.len() ==> #[trigger] objects_commands(s.objects, i + 1)
                == objects_commands(s.objects, i) + object_commands(s.objects[i], i as usize),
        forall|i: int, j: int|
            0 <= i < s.objects.len() && 0 <= j < s.objects[i].meshes.len()
                ==> #[trigger] object_meshes_commands(s.objects[i], i as usize, j + 1)
                == object_meshes_commands(s.objects[i], i as usize, j) + submesh_commands(
                i as usize,
                j as usize,
                s.objects[i].meshes[j].index_count,
            ),
{
}

/// The per-frame camera update is scoped to the view field: a recorded
/// frame's camera takes the snapshot's view matrix, while its projection is
/// the renderer's own — so rendering snapshots with different views never
/// alters the active projection.
pub proof fn lemma_camera_update_scoped_to_view(
    r: RendererView,
    s1: RendererSceneView,
    s2: RendererSceneView,
)
    ensures
        frame_spec(r, s1).camera.view == s1.view,
        frame_spec(r, s1).camera.proj == r.view_proj.proj,
        frame_spec(r, s2).camera.proj == frame_spec(r, s1).camera.proj,
{
}

} // verus!
