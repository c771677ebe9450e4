use forward_renderer::math::ColorBits;
use forward_renderer::math::MatrixBits;
use forward_renderer::math::ONE_BITS;
use forward_renderer::mesh::MeshData;
use forward_renderer::pass::BindTarget;
use forward_renderer::pass::PassCommand;
use forward_renderer::pass::SurfaceSpec;
use forward_renderer::pass::TextureFormat;
use forward_renderer::renderer::Renderer;
use forward_renderer::scene::Scene;
use forward_renderer::scene::SceneObject;
use forward_renderer::snapshot::RendererScene;

const BGRA8: u32 = 7;

fn surface(width: u32, height: u32) -> SurfaceSpec {
    SurfaceSpec {
        width,
        height,
        format: BGRA8,
    }
}

/// The perspective projection the application shell would hand the
/// renderer: 45 degree vertical field of view, near 0.1, far 100.0.
fn perspective(width: u32, height: u32) -> MatrixBits {
    let proj = glam::camera::lh::proj::directx::perspective(
        45.0_f32.to_radians(),
        width as f32 / height as f32,
        0.1,
        100.0,
    );
    let cols = proj.to_cols_array();
    let mut cells = [0u32; 16];
    let mut i = 0;
    while i < 16 {
        cells[i] = cols[i].to_bits();
        i += 1;
    }
    MatrixBits::from_cells(&cells)
}

fn triangle_mesh() -> MeshData {
    // Three vertices of 12 bytes each, already in the pipeline's vertex
    // format; the renderer treats them as an opaque block.
    let vertex_bytes: Vec<u8> = (0u8..36u8).collect();
    MeshData {
        vertex_bytes,
        indices: vec![0, 1, 2],
    }
}

fn le4(x: u32) -> [u8; 4] {
    x.to_le_bytes()
}

fn matrix_bytes(m: &MatrixBits) -> Vec<u8> {
    let mut out = Vec::new();
    for c in m.cells() {
        out.extend_from_slice(&le4(c));
    }
    out
}

fn color_bytes(c: &ColorBits) -> Vec<u8> {
    let mut out = Vec::new();
    for x in [c.r, c.g, c.b, c.a] {
        out.extend_from_slice(&le4(x));
    }
    out
}

#[test]
fn identity_matches_glam() {
    let cols = glam::Mat4::IDENTITY.to_cols_array();
    let ours = MatrixBits::identity().cells();
    for i in 0..16 {
        assert_eq!(ours[i], cols[i].to_bits());
    }
}

#[test]
fn matrix_cells_round_trip() {
    let m = glam::Mat4::from_translation(glam::Vec3::new(1.5, -2.0, 3.25));
    let mut cells = [0u32; 16];
    for (i, c) in m.to_cols_array().iter().enumerate() {
        cells[i] = c.to_bits();
    }
    let bits = MatrixBits::from_cells(&cells);
    assert_eq!(bits.cells(), cells);
}

#[test]
fn identity_matrix_bytes_are_le() {
    let bytes = matrix_bytes(&MatrixBits::identity());
    assert_eq!(bytes.len(), 64);
    assert_eq!(&bytes[0..4], &[0x00, 0x00, 0x80, 0x3F]);
    assert_eq!(&bytes[4..8], &[0x00, 0x00, 0x00, 0x00]);
    assert_eq!(ONE_BITS, 1.0_f32.to_bits());
}

#[test]
fn single_triangle_snapshot() {
    let conf = surface(800, 600);
    let renderer = Renderer::new(&conf, perspective(800, 600));
    let scene = Scene {
        objects: vec![SceneObject {
            meshes: vec![triangle_mesh()],
            materials: vec![None],
            transform: MatrixBits::identity(),
        }],
        view: MatrixBits::identity(),
    };
    let snap = renderer.create_scene(&scene);

    assert_eq!(snap.objects.len(), 1);
    let object = &snap.objects[0];

    assert_eq!(object.meshes.len(), 1);
    let mesh = &object.meshes[0];
    assert_eq!(mesh.vertex_bytes, triangle_mesh().vertex_bytes);
    let mut expected_indices = Vec::new();
    for i in [0u32, 1, 2] {
        expected_indices.extend_from_slice(&le4(i));
    }
    assert_eq!(mesh.index_bytes, expected_indices);
    assert_eq!(mesh.index_count, 3);

    // One material binding set per mesh, the absent optional replaced by the
    // default albedo.
    assert_eq!(object.materials.len(), 1);
    let material = &object.materials[0];
    assert_eq!(material.binding_index, 0);
    assert_eq!(
        material.buffer.bytes,
        color_bytes(&ColorBits {
            r: 0,
            g: 0,
            b: 0,
            a: 0
        })
    );
    assert_eq!(material.buffer.bytes, vec![0u8; 16]);

    assert_eq!(
        object.transform.buffer.bytes,
        matrix_bytes(&MatrixBits::identity())
    );
}

#[test]
fn single_triangle_frame() {
    let conf = surface(800, 600);
    let proj = perspective(800, 600);
    let renderer = Renderer::new(&conf, proj);
    let scene = Scene {
        objects: vec![SceneObject {
            meshes: vec![triangle_mesh()],
            materials: vec![None],
            transform: MatrixBits::identity(),
        }],
        view: MatrixBits::identity(),
    };
    let snap = renderer.create_scene(&scene);
    let frame = renderer.render(&snap);

    // The camera takes the scene's view and keeps the 45/0.1/100 projection
    // fixed at construction.
    assert_eq!(frame.camera.view, MatrixBits::identity());
    assert_eq!(frame.camera.proj, proj);
    let mut camera_payload = matrix_bytes(&MatrixBits::identity());
    camera_payload.extend_from_slice(&matrix_bytes(&proj));
    assert_eq!(frame.camera_bytes.bytes, camera_payload);

    // Color cleared to opaque black, depth cleared to the far plane, both
    // stored.
    assert_eq!(
        frame.pass.clear_color,
        ColorBits {
            r: 0,
            g: 0,
            b: 0,
            a: ONE_BITS
        }
    );
    assert_eq!(frame.pass.clear_depth_bits, 1.0_f32.to_bits());
    assert!(frame.pass.color_store);
    assert!(frame.pass.depth_store);

    assert_eq!(
        frame.pass.commands,
        vec![
            PassCommand::SetPipeline,
            PassCommand::SetBindGroup {
                slot: 0,
                target: BindTarget::Camera
            },
            PassCommand::SetBindGroup {
                slot: 1,
                target: BindTarget::ObjectTransform { object: 0 }
            },
            PassCommand::SetBindGroup {
                slot: 2,
                target: BindTarget::SubmeshMaterial {
                    object: 0,
                    submesh: 0
                }
            },
            PassCommand::SetVertexBuffer {
                object: 0,
                submesh: 0
            },
            PassCommand::SetIndexBuffer {
                object: 0,
                submesh: 0
            },
            PassCommand::DrawIndexed { index_count: 3 },
        ]
    );
}

#[test]
fn resize_rebuilds_depth_target_and_pipeline() {
    let mut renderer = Renderer::new(&surface(800, 600), perspective(800, 600));
    renderer.resize(&surface(400, 300));
    let snap = renderer.create_scene(&Scene {
        objects: Vec::new(),
        view: MatrixBits::identity(),
    });
    let frame = renderer.render(&snap);
    assert_eq!(frame.pass.depth_target.width, 400);
    assert_eq!(frame.pass.depth_target.height, 300);
    assert_eq!(frame.pass.depth_target.format, TextureFormat::Depth32Float);
    assert_eq!(frame.pass.depth_target.mip_level_count, 1);
    assert_eq!(frame.pass.depth_target.sample_count, 1);
}

#[test]
fn resize_tracks_format_change_and_keeps_projection() {
    let proj = perspective(800, 600);
    let mut renderer = Renderer::new(&surface(800, 600), proj);
    let other_format = SurfaceSpec {
        width: 1024,
        height: 768,
        format: BGRA8 + 1,
    };
    renderer.resize(&other_format);
    let snap = renderer.create_scene(&Scene {
        objects: Vec::new(),
        view: MatrixBits::identity(),
    });
    let frame = renderer.render(&snap);
    assert_eq!(frame.pass.depth_target.width, 1024);
    // The projection is deliberately not recomputed on resize: it stays as
    // fixed at construction.
    assert_eq!(frame.camera.proj, proj);
}

#[test]
fn create_scene_is_pure() {
    let renderer = Renderer::new(&surface(800, 600), perspective(800, 600));
    let scene = Scene {
        objects: vec![
            SceneObject {
                meshes: vec![triangle_mesh(), triangle_mesh()],
                materials: vec![
                    Some(ColorBits {
                        r: ONE_BITS,
                        g: 0,
                        b: 0,
                        a: ONE_BITS,
                    }),
                    None,
                ],
                transform: MatrixBits::identity(),
            },
        ],
        view: MatrixBits::identity(),
    };
    let first = renderer.create_scene(&scene);
    let second = renderer.create_scene(&scene);
    assert_eq!(first, second);
    // The two snapshots render identical frames.
    assert_eq!(renderer.render(&first), renderer.render(&second));
}

#[test]
fn render_is_deterministic() {
    let renderer = Renderer::new(&surface(800, 600), perspective(800, 600));
    let scene = Scene {
        objects: vec![SceneObject {
            meshes: vec![triangle_mesh()],
            materials: Vec::new(),
            transform: MatrixBits::identity(),
        }],
        view: MatrixBits::identity(),
    };
    let snap = renderer.create_scene(&scene);
    assert_eq!(renderer.render(&snap), renderer.render(&snap));
}

#[test]
fn camera_update_is_scoped_to_view() {
    let proj = perspective(800, 600);
    let renderer = Renderer::new(&surface(800, 600), proj);
    let view_a = MatrixBits::identity();
    let view_b = MatrixBits {
        c12: 0x3FC0_0000,
        ..MatrixBits::identity()
    };
    let snap_a = renderer.create_scene(&Scene {
        objects: Vec::new(),
        view: view_a,
    });
    let snap_b = renderer.create_scene(&Scene {
        objects: Vec::new(),
        view: view_b,
    });
    let frame_a = renderer.render(&snap_a);
    let frame_b = renderer.render(&snap_b);
    assert_eq!(frame_a.camera.view, view_a);
    assert_eq!(frame_b.camera.view, view_b);
    assert_eq!(frame_a.camera.proj, proj);
    assert_eq!(frame_b.camera.proj, proj);
}

#[test]
fn two_objects_share_mesh_distinct_transforms() {
    let renderer = Renderer::new(&surface(800, 600), perspective(800, 600));
    let left = glam::Mat4::from_translation(glam::Vec3::new(-1.0, 0.0, 0.0));
    let right = glam::Mat4::from_translation(glam::Vec3::new(1.0, 0.0, 0.0));
    let mut left_cells = [0u32; 16];
    let mut right_cells = [0u32; 16];
    for i in 0..16 {
        left_cells[i] = left.to_cols_array()[i].to_bits();
        right_cells[i] = right.to_cols_array()[i].to_bits();
    }
    let scene = Scene {
        objects: vec![
            SceneObject {
                meshes: vec![triangle_mesh()],
                materials: Vec::new(),
                transform: MatrixBits::from_cells(&left_cells),
            },
            SceneObject {
                meshes: vec![triangle_mesh()],
                materials: Vec::new(),
                transform: MatrixBits::from_cells(&right_cells),
            },
        ],
        view: MatrixBits::identity(),
    };
    let snap = renderer.create_scene(&scene);
    assert_eq!(snap.objects.len(), 2);
    assert_ne!(
        snap.objects[0].transform.buffer.bytes,
        snap.objects[1].transform.buffer.bytes
    );

    let frame = renderer.render(&snap);
    let commands = &frame.pass.commands;
    assert_eq!(
        commands
            .iter()
            .filter(|c| matches!(c, PassCommand::DrawIndexed { .. }))
            .count(),
        2
    );
    // Objects are processed in input order, each draw preceded by its own
    // object's transform binding.
    assert_eq!(
        commands[2],
        PassCommand::SetBindGroup {
            slot: 1,
            target: BindTarget::ObjectTransform { object: 0 }
        }
    );
    assert_eq!(
        commands[7],
        PassCommand::SetBindGroup {
            slot: 1,
            target: BindTarget::ObjectTransform { object: 1 }
        }
    );
    assert_eq!(commands[6], PassCommand::DrawIndexed { index_count: 3 });
    assert_eq!(commands[11], PassCommand::DrawIndexed { index_count: 3 });
}

#[test]
fn material_slots_pad_and_truncate_to_mesh_count() {
    let renderer = Renderer::new(&surface(800, 600), perspective(800, 600));
    let red = ColorBits {
        r: ONE_BITS,
        g: 0,
        b: 0,
        a: ONE_BITS,
    };
    // Two meshes, one material entry: the second slot falls back to the
    // default albedo.
    let padded = renderer.create_scene(&Scene {
        objects: vec![SceneObject {
            meshes: vec![triangle_mesh(), triangle_mesh()],
            materials: vec![Some(red)],
            transform: MatrixBits::identity(),
        }],
        view: MatrixBits::identity(),
    });
    assert_eq!(padded.objects[0].materials.len(), 2);
    assert_eq!(padded.objects[0].materials[0].buffer.bytes, color_bytes(&red));
    assert_eq!(padded.objects[0].materials[1].buffer.bytes, vec![0u8; 16]);

    // One mesh, two material entries: the extra entry binds nothing.
    let truncated = renderer.create_scene(&Scene {
        objects: vec![SceneObject {
            meshes: vec![triangle_mesh()],
            materials: vec![Some(red), Some(red)],
            transform: MatrixBits::identity(),
        }],
        view: MatrixBits::identity(),
    });
    assert_eq!(truncated.objects[0].materials.len(), 1);
    assert_eq!(
        truncated.objects[0].materials[0].buffer.bytes,
        color_bytes(&red)
    );
}

#[test]
fn empty_scene_records_only_the_pass_opening() {
    let renderer = Renderer::new(&surface(800, 600), perspective(800, 600));
    let snap = renderer.create_scene(&Scene {
        objects: Vec::new(),
        view: MatrixBits::identity(),
    });
    let frame = renderer.render(&snap);
    assert_eq!(
        frame.pass.commands,
        vec![
            PassCommand::SetPipeline,
            PassCommand::SetBindGroup {
                slot: 0,
                target: BindTarget::Camera
            },
        ]
    );
}

#[test]
fn object_without_meshes_binds_only_its_transform() {
    let renderer = Renderer::new(&surface(800, 600), perspective(800, 600));
    let snap = renderer.create_scene(&Scene {
        objects: vec![SceneObject {
            meshes: Vec::new(),
            materials: Vec::new(),
            transform: MatrixBits::identity(),
        }],
        view: MatrixBits::identity(),
    });
    assert_eq!(snap.objects[0].materials.len(), 0);
    let frame = renderer.render(&snap);
    assert_eq!(
        frame.pass.commands,
        vec![
            PassCommand::SetPipeline,
            PassCommand::SetBindGroup {
                slot: 0,
                target: BindTarget::Camera
            },
            PassCommand::SetBindGroup {
                slot: 1,
                target: BindTarget::ObjectTransform { object: 0 }
            },
        ]
    );
}

#[test]
fn default_snapshot_is_empty() {
    let snap = RendererScene::default();
    assert_eq!(snap.objects.len(), 0);
    assert_eq!(snap.view, MatrixBits::identity());
}

#[test]
fn index_buffer_uses_fixed_32_bit_format() {
    let mesh = MeshData {
        vertex_bytes: vec![1, 2, 3],
        indices: vec![0x0102_0304, 5],
    };
    let buffers = mesh.create_buffers();
    assert_eq!(buffers.vertex_bytes, vec![1, 2, 3]);
    assert_eq!(
        buffers.index_bytes,
        vec![0x04, 0x03, 0x02, 0x01, 0x05, 0x00, 0x00, 0x00]
    );
    assert_eq!(buffers.index_count, 2);
}
