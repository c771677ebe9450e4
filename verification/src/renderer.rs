//! The renderer: top-level owner of camera resources, binding layouts and
//! the forward pass; orchestrates scene snapshotting and per-frame
//! recording.
//!
//! Every per-frame decision is recorded as plain data: `render` returns the
//! camera buffer payload to write and the render pass to replay, in that
//! order — the camera write must be issued before the pass that reads it.
//! An unverified shell performs the GPU calls these records describe.

use crate::math::ColorBits;
use crate::math::MatrixBits;
use crate::math::identity_matrix;
use crate::mesh::MeshBuffers;
use crate::pass::ForwardPass;
use crate::pass::PassRecording;
use crate::pass::PassRecordingView;
use crate::pass::SurfaceSpec;
use crate::pass::forward_pass_spec;
use crate::pass::pass_recording_spec;
use crate::scene::Scene;
use crate::scene::SceneView;
use crate::snapshot::RendererScene;
use crate::snapshot::RendererSceneObject;
use crate::snapshot::RendererSceneView;
use crate::snapshot::object_fits;
use crate::snapshot::resolve_albedo;
use crate::snapshot::scene_fits;
use crate::snapshot::snapshot_object_spec;
use crate::snapshot::snapshot_spec;
use crate::uniform::BindingLayout;
use crate::uniform::BindingSet;
use crate::uniform::BindingSetView;
use crate::uniform::CameraUniform;
use crate::uniform::MaterialUniform;
use crate::uniform::TransformUniform;
use crate::uniform::UniformBuffer;
use crate::uniform::camera_layout;
use crate::uniform::material_binding;
use crate::uniform::material_layout;
use crate::uniform::transform_binding;
use crate::uniform::transform_layout;
use vstd::prelude::*;

verus! {

/// The camera uniform's GPU-side state: its current value, backing buffer,
/// layout, and binding set.
struct ViewProj {
    data: CameraUniform,
    buffer: UniformBuffer,
    layout: BindingLayout,
    bind_group: BindingSet,
}

/// The renderer. Owns the camera resources, the shared transform and
/// material layouts, and the forward pass.
pub struct Renderer {
    view_proj: ViewProj,
    forward_pass: ForwardPass,
    transform_layout: BindingLayout,
    material_layout: BindingLayout,
}

/// Mathematical image of a renderer.
pub ghost struct RendererView {
    pub view_proj: CameraUniform,
    pub camera_buffer: Seq<u8>,
    pub camera_layout: BindingLayout,
    pub camera_binding: BindingSetView,
    pub forward_pass: ForwardPass,
    pub transform_layout: BindingLayout,
    pub material_layout: BindingLayout,
}

impl View for Renderer {
    type V = RendererView;

    closed spec fn view(&self) -> RendererView {
        RendererView {
            view_proj: self.view_proj.data,
            camera_buffer: self.view_proj.buffer@,
            camera_layout: self.view_proj.layout,
            camera_binding: self.view_proj.bind_group@,
            forward_pass: self.forward_pass,
            transform_layout: self.transform_layout,
            material_layout: self.material_layout,
        }
    }
}

/// A well-formed renderer: the three layouts are the canonical ones and the
/// camera buffer and binding set carry the camera uniform's byte image.
pub open spec fn renderer_wf(r: RendererView) -> bool {
    &&& r.camera_layout == camera_layout()
    &&& r.transform_layout == transform_layout()
    &&& r.material_layout == material_layout()
    &&& r.camera_buffer == r.view_proj.bytes_spec()
    &&& r.camera_binding == (BindingSetView {
        layout: camera_layout(),
        binding_index: 0,
        bytes: r.view_proj.bytes_spec(),
    })
}

/// The renderer a construction over `c` with projection `proj` produces:
/// camera view starts at the identity, camera resources initialized from
/// that value, canonical layouts, and a forward pass built for `c`.
pub open spec fn renderer_new_spec(c: SurfaceSpec, proj: MatrixBits) -> RendererView {
    let data = CameraUniform { view: identity_matrix(), proj };
    RendererView {
        view_proj: data,
        camera_buffer: data.bytes_spec(),
        camera_layout: camera_layout(),
        camera_binding: BindingSetView {
            layout: camera_layout(),
            binding_index: 0,
            bytes: data.bytes_spec(),
        },
        forward_pass: forward_pass_spec(c),
        transform_layout: transform_layout(),
        material_layout: material_layout(),
    }
}

/// One recorded frame: the camera uniform value of this frame, the payload
/// to write into the camera buffer, and the render pass to replay — the
/// write comes first.
#[derive(Clone, Debug, PartialEq, Eq)]
pub struct FrameCommands {
    pub camera: CameraUniform,
    pub camera_bytes: UniformBuffer,
    pub pass: PassRecording,
}

/// Mathematical image of a recorded frame.
pub ghost struct FrameView {
    pub camera: CameraUniform,
    pub camera_bytes: Seq<u8>,
    pub pass: PassRecordingView,
}

impl View for FrameCommands {
    type V = FrameView;

    open spec fn view(&self) -> FrameView {
        FrameView { camera: self.camera, camera_bytes: self.camera_bytes@, pass: self.pass@ }
    }
}

/// The frame a renderer records over a snapshot: the camera uniform takes
/// the snapshot's view matrix while keeping the renderer's projection, and
/// the forward pass runs over the snapshot.
pub open spec fn frame_spec(r: RendererView, s: RendererSceneView) -> FrameView {
    let camera = CameraUniform { view: s.view, proj: r.view_proj.proj };
    FrameView {
        camera,
        camera_bytes: camera.bytes_spec(),
        pass: pass_recording_spec(r.forward_pass, s),
    }
}

impl Renderer {
    /// A well-formed renderer; established by construction, preserved by
    /// every method.
    pub open spec fn wf(&self) -> bool {
        renderer_wf(self@)
    }

    /// Builds a renderer for the given surface configuration.
    ///
    /// The projection matrix is fixed here and never recomputed afterwards.
    /// The caller supplies it ready-made (a perspective projection for the
    /// surface's aspect ratio), since matrix arithmetic is floating-point
    /// work outside this model; the view matrix starts at the identity.
    pub fn new(surface_conf: &SurfaceSpec, proj: MatrixBits) -> (r: Renderer)
        ensures
            r@ == renderer_new_spec(*surface_conf, proj),
            r.wf(),
    {
        let view_proj_data = CameraUniform { view: MatrixBits::identity(), proj };
        let view_proj_layout = CameraUniform::layout();
        let view_proj_buffer = view_proj_data.create_buffer();
        let view_proj_bind_group = view_proj_data.create_binding_set(&view_proj_layout);

        let t_layout = TransformUniform::layout();
        let m_layout = MaterialUniform::layout();

        let forward_pass = ForwardPass::new(surface_conf);

        Renderer {
            view_proj: ViewProj {
                data: view_proj_data,
                buffer: view_proj_buffer,
                layout: view_proj_layout,
                bind_group: view_proj_bind_group,
            },
            forward_pass,
            transform_layout: t_layout,
            material_layout: m_layout,
        }
    }

    /// Rebuilds only the forward pass for the new surface configuration,
    /// reusing the layouts and camera resources. The projection matrix is
    /// deliberately not recomputed here: it stays as fixed at construction.
    pub fn resize(&mut self, surface_conf: &SurfaceSpec)
        ensures
            final(self)@ == (RendererView {
                forward_pass: forward_pass_spec(*surface_conf),
                ..old(self)@
            }),
            old(self).wf() ==> final(self).wf(),
    {
        self.forward_pass = ForwardPass::new(surface_conf);
    }

    /// Snapshots a scene: for every object, GPU buffers for every mesh, one
    /// material binding set per mesh (the default albedo standing in for an
    /// absent or missing material slot), and the object's transform binding
    /// set. Pure: no effect on the renderer or on earlier snapshots.
    pub fn create_scene(&self, scene: &Scene) -> (snap: RendererScene)
        requires
            self.wf(),
            scene_fits(scene@),
        ensures
            snap@ == snapshot_spec(scene@),
    {
        let mut objects: Vec<RendererSceneObject> = Vec::new();
        let mut i: usize = 0;
        while i < scene.objects.len()
            invariant
                self.wf(),
                scene_fits(scene@),
                i <= scene.objects@.len(),
                objects@.len() == i,
                forall|k: int|
                    0 <= k < i ==> (#[trigger] objects@[k])@ == snapshot_object_spec(
                        scene@.objects[k],
                    ),
            decreases scene.objects@.len() - i,
        {
            let object = &scene.objects[i];
            proof {
                assert(object@ == scene@.objects[i as int]);
                assert(object_fits(object@));
            }

            let mut meshes: Vec<MeshBuffers> = Vec::new();
            let mut j: usize = 0;
            while j < object.meshes.len()
                invariant
                    object_fits(object@),
                    j <= object.meshes@.len(),
                    meshes@.len() == j,
                    forall|k: int|
                        0 <= k < j ==> (#[trigger] meshes@[k])@ == crate::mesh::mesh_buffers_spec(
                            object@.meshes[k],
                        ),
                decreases object.meshes@.len() - j,
            {
                proof {
                    assert(object@.meshes[j as int] == object.meshes@[j as int]@);
                }
                meshes.push(object.meshes[j].create_buffers());
                j = j + 1;
            }

            let mut materials: Vec<BindingSet> = Vec::new();
            let mut j: usize = 0;
            while j < object.meshes.len()
                invariant
                    self.wf(),
                    j <= object.meshes@.len(),
                    materials@.len() == j,
                    forall|k: int|
                        0 <= k < j ==> (#[trigger] materials@[k])@ == material_binding(
                            resolve_albedo(object@.materials, k),
                        ),
                decreases object.meshes@.len() - j,
            {
                let albedo: ColorBits = if j < object.materials.len() {
                    match object.materials[j] {
                        Some(c) => c,
                        None => ColorBits::default_value(),
                    }
                } else {
                    ColorBits::default_value()
                };
                proof {
                    assert(albedo == resolve_albedo(object@.materials, j as int));
                }
                materials.push(MaterialUniform { albedo }.create_binding_set(&self.material_layout));
                j = j + 1;
            }

            let transform = TransformUniform { model: object.transform }.create_binding_set(
                &self.transform_layout,
            );

            let snap_object = RendererSceneObject { meshes, materials, transform };
            proof {
                let ov = snapshot_object_spec(scene@.objects[i as int]);
                assert(snap_object@.meshes =~= ov.meshes);
                assert(snap_object@.materials =~= ov.materials);
                assert(snap_object@.transform == ov.transform);
                assert(snap_object@ == ov);
            }
            objects.push(snap_object);
            i = i + 1;
        }
        let snap = RendererScene { objects, view: scene.view };
        proof {
            assert(snap@.objects =~= snapshot_spec(scene@).objects);
            assert(snap@ == snapshot_spec(scene@));
        }
        snap
    }

    /// Records one frame: the camera buffer takes the snapshot's view matrix
    /// with the projection preserved from construction — the only per-frame
    /// mutation in the system — then the forward pass runs over the
    /// snapshot. The returned payload is written before the pass executes.
    pub fn render(&self, scene: &RendererScene) -> (f: FrameCommands)
        ensures
            f@ == frame_spec(self@, scene@),
    {
        let camera = CameraUniform { view: scene.view, proj: self.view_proj.data.proj };
        let camera_bytes = camera.create_buffer();
        let pass = self.forward_pass.execute(scene);
        FrameCommands { camera, camera_bytes, pass }
    }
}

} // verus!
