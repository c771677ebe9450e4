//! Scene snapshots: immutable, GPU-ready copies of a logical scene.
//!
//! A snapshot owns every GPU resource it references: one pair of mesh
//! buffers per mesh, one material binding set per mesh slot, and one
//! transform binding set per object. It is produced once per scene-content
//! change and reused across frames until replaced.

use crate::math::ColorBits;
use crate::math::MatrixBits;
use crate::math::default_albedo;
use crate::math::identity_matrix;
use crate::mesh::MeshBuffers;
use crate::mesh::MeshBuffersView;
use crate::mesh::mesh_buffers_spec;
use crate::scene::SceneObjectView;
use crate::scene::SceneView;
use crate::uniform::BindingSet;
use crate::uniform::BindingSetView;
use crate::uniform::material_binding;
use crate::uniform::transform_binding;
use vstd::prelude::*;

verus! {

/// One snapshotted object: mesh buffers, one material binding set per mesh,
/// and the object's transform binding set.
#[derive(Clone, Debug, PartialEq, Eq)]
pub struct RendererSceneObject {
    pub meshes: Vec<MeshBuffers>,
    pub materials: Vec<BindingSet>,
    pub transform: BindingSet,
}

/// Mathematical image of a snapshotted object.
pub ghost struct RendererSceneObjectView {
    pub meshes: Seq<MeshBuffersView>,
    pub materials: Seq<BindingSetView>,
    pub transform: BindingSetView,
}

impl View for RendererSceneObject {
    type V = RendererSceneObjectView;

    open spec fn view(&self) -> RendererSceneObjectView {
        RendererSceneObjectView {
            meshes: self.meshes@.map_values(|m: MeshBuffers| m@),
            materials: self.materials@.map_values(|b: BindingSet| b@),
            transform: self.transform@,
        }
    }
}

/// A scene snapshot: snapshotted objects plus the scene's view matrix.
#[derive(Clone, Debug, PartialEq, Eq)]
pub struct RendererScene {
    pub objects: Vec<RendererSceneObject>,
    pub view: MatrixBits,
}

/// Mathematical image of a scene snapshot.
pub ghost struct RendererSceneView {
    pub objects: Seq<RendererSceneObjectView>,
    pub view: MatrixBits,
}

impl View for RendererScene {
    type V = RendererSceneView;

    open spec fn view(&self) -> RendererSceneView {
        RendererSceneView {
            objects: self.objects@.map_values(|o: RendererSceneObject| o@),
            view: self.view,
        }
    }
}

impl Default for RendererScene {
    /// The empty snapshot: no objects, identity view.
    fn default() -> (s: Self)
        ensures
            s@.objects.len() == 0,
            s@.view == identity_matrix(),
    {
        RendererScene { objects: Vec::new(), view: MatrixBits::identity() }
    }
}

/// The albedo mesh slot `j` resolves to: the object's material color where
/// one is present, the default albedo where the optional is absent or the
/// slot lies beyond the material list.
pub open spec fn resolve_albedo(materials: Seq<Option<ColorBits>>, j: int) -> ColorBits {
    if 0 <= j < materials.len() {
        match materials[j] {
            Some(c) => c,
            None => default_albedo(),
        }
    } else {
        default_albedo()
    }
}

/// The snapshot of one scene object: buffers for each mesh in order, exactly
/// one material binding set per mesh, and the transform binding set.
pub open spec fn snapshot_object_spec(o: SceneObjectView) -> RendererSceneObjectView {
    RendererSceneObjectView {
        meshes: o.meshes.map_values(|m| mesh_buffers_spec(m)),
        materials: Seq::new(
            o.meshes.len(),
            |j: int| material_binding(resolve_albedo(o.materials, j)),
        ),
        transform: transform_binding(o.transform),
    }
}

/// The snapshot of a whole scene: objects in input order, view copied.
pub open spec fn snapshot_spec(s: SceneView) -> RendererSceneView {
    RendererSceneView { objects: s.objects.map_values(|o| snapshot_object_spec(o)), view: s.view }
}

/// Every index list of the object fits the 32-bit draw-call range.
pub open spec fn object_fits(o: SceneObjectView) -> bool {
    forall|j: int| 0 <= j < o.meshes.len() ==> (#[trigger] o.meshes[j]).indices.len() <= u32::MAX
}

/// Every index list of the scene fits the 32-bit draw-call range.
pub open spec fn scene_fits(s: SceneView) -> bool {
    forall|i: int| 0 <= i < s.objects.len() ==> object_fits(#[trigger] s.objects[i])
}

} // verus!
