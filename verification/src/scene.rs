//! The logical scene the application hands to the renderer.
//!
//! A scene is a camera view matrix plus a list of objects; each object is a
//! list of meshes, an optional material color per mesh slot, and a world
//! transform. The renderer never mutates a scene; it snapshots it.

use crate::math::ColorBits;
use crate::math::MatrixBits;
use crate::mesh::MeshData;
use crate::mesh::MeshDataView;
use vstd::prelude::*;

verus! {

/// One renderable object: geometry, per-submesh material slots, and a world
/// transform. `materials[i]` corresponds to `meshes[i]`; a missing entry
/// (absent optional, or index beyond the list) resolves to the default
/// albedo at snapshot time.
#[derive(Clone, Debug, PartialEq, Eq)]
pub struct SceneObject {
    pub meshes: Vec<MeshData>,
    pub materials: Vec<Option<ColorBits>>,
    pub transform: MatrixBits,
}

/// Mathematical image of a scene object.
pub ghost struct SceneObjectView {
    pub meshes: Seq<MeshDataView>,
    pub materials: Seq<Option<ColorBits>>,
    pub transform: MatrixBits,
}

impl View for SceneObject {
    type V = SceneObjectView;

    open spec fn view(&self) -> SceneObjectView {
        SceneObjectView {
            meshes: self.meshes@.map_values(|m: MeshData| m@),
            materials: self.materials@,
            transform: self.transform,
        }
    }
}

/// A logical scene: objects plus the camera view matrix.
#[derive(Clone, Debug, PartialEq, Eq)]
pub struct Scene {
    pub objects: Vec<SceneObject>,
    pub view: MatrixBits,
}

/// Mathematical image of a scene.
pub ghost struct SceneView {
    pub objects: Seq<SceneObjectView>,
    pub view: MatrixBits,
}

impl View for Scene {
    type V = SceneView;

    open spec fn view(&self) -> SceneView {
        SceneView { objects: self.objects@.map_values(|o: SceneObject| o@), view: self.view }
    }
}

} // verus!
