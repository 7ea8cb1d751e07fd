use gfx_device::device::{DeviceError, FrameStats, GfxDevice, GfxDeviceInner, Window};
use gfx_device::pipeline::Pipeline;
use gfx_device::renderer::{Camera, Device, Light, Matrix4, Renderer, Scene};
use gfx_device::resources::{
    GlBuffer, GlSlice, GlTexture, Mesh, MeshInner, Renderable, Texture, TextureInner,
};
use gfx_device::world::{LocalTransform, RenderableEntry, TransformEntry, World};

fn mat(seed: u32) -> Matrix4 {
    Matrix4 { bits: [[seed; 4]; 4] }
}

fn camera(seed: u32) -> Camera {
    Camera { projection: mat(seed), view_matrix: mat(seed + 1) }
}

fn light(seed: u32) -> Light {
    Light {
        color: [seed; 4],
        center: [seed; 3],
        radius: seed,
        propagation_constant: seed,
        propagation_linear: seed,
        propagation_r_square: seed,
    }
}

fn gl_renderable(handle: u64) -> Renderable {
    Renderable {
        mesh: Mesh {
            mesh_inner: MeshInner::OpenGL {
                buffer: GlBuffer { handle },
                slice: GlSlice { handle: handle + 100 },
            },
        },
        ka: Texture { texture_inner: TextureInner::OpenGL { texture: GlTexture { handle: handle + 200 } } },
        kd: Texture { texture_inner: TextureInner::OpenGL { texture: GlTexture { handle: handle + 300 } } },
    }
}

fn gl_device(window: Window) -> GfxDevice {
    GfxDevice::new(GfxDeviceInner::OpenGL {
        window,
        device: Device { handle: 1 },
        renderer: Renderer::new(),
        pipeline: Pipeline::new(),
    })
}

fn plain_window() -> Window {
    Window { size: Some((800, 600)), pending_events: vec![], presentable: true }
}

fn last_scene(device: &GfxDevice) -> Scene {
    match &device.gfx_device_inner {
        GfxDeviceInner::OpenGL { renderer, .. } => {
            renderer.last_scene.clone().expect("a scene was submitted")
        }
        _ => panic!("expected the hardware variant"),
    }
}

/// A world with five renderable entities: three fully matching the
/// hardware backend, one with a null mesh, one with a stub diffuse
/// texture; a sixth renderable entity has no transform and is not joined.
fn mixed_world() -> World {
    let mut bad_mesh = gl_renderable(50);
    bad_mesh.mesh.mesh_inner = MeshInner::Null;
    let mut bad_kd = gl_renderable(60);
    bad_kd.kd.texture_inner = TextureInner::Direct3D {};
    World {
        camera: camera(9),
        renderables: vec![
            RenderableEntry { entity: 1, renderable: gl_renderable(10) },
            RenderableEntry { entity: 2, renderable: bad_mesh },
            RenderableEntry { entity: 3, renderable: gl_renderable(30) },
            RenderableEntry { entity: 4, renderable: bad_kd },
            RenderableEntry { entity: 5, renderable: gl_renderable(40) },
            RenderableEntry { entity: 6, renderable: gl_renderable(70) },
        ],
        transforms: vec![
            TransformEntry { entity: 1, transform: LocalTransform { matrix: mat(11) } },
            TransformEntry { entity: 2, transform: LocalTransform { matrix: mat(12) } },
            TransformEntry { entity: 3, transform: LocalTransform { matrix: mat(13) } },
            TransformEntry { entity: 4, transform: LocalTransform { matrix: mat(14) } },
            TransformEntry { entity: 5, transform: LocalTransform { matrix: mat(15) } },
        ],
        lights: vec![light(1), light(2)],
    }
}

#[test]
fn null_render_performs_no_observable_mutation() {
    let mut d = GfxDevice::new(GfxDeviceInner::Null);
    let mut w = mixed_world();
    let before = w.clone();
    assert_eq!(d.render_world(&mut w), Ok(FrameStats { fragments: 0, skipped: 0 }));
    assert_eq!(w, before);
    assert_eq!(d.gfx_device_inner, GfxDeviceInner::Null);
}

#[test]
fn render_emits_exactly_matching_fragments() {
    let mut d = gl_device(plain_window());
    let mut w = mixed_world();
    let stats = d.render_world(&mut w).expect("presentable window");
    assert_eq!(stats, FrameStats { fragments: 3, skipped: 2 });
    let scene = last_scene(&d);
    assert_eq!(scene.fragments.len(), 3);
    // Join-iteration order: entities 1, 3, 5; no partial fragment from 2 or 4.
    assert_eq!(scene.fragments[0].buffer, GlBuffer { handle: 10 });
    assert_eq!(scene.fragments[0].slice, GlSlice { handle: 110 });
    assert_eq!(scene.fragments[0].ka, GlTexture { handle: 210 });
    assert_eq!(scene.fragments[0].kd, GlTexture { handle: 310 });
    assert_eq!(scene.fragments[0].transform, mat(11));
    assert_eq!(scene.fragments[1].buffer, GlBuffer { handle: 30 });
    assert_eq!(scene.fragments[1].transform, mat(13));
    assert_eq!(scene.fragments[2].buffer, GlBuffer { handle: 40 });
    assert_eq!(scene.fragments[2].transform, mat(15));
    for f in &scene.fragments {
        assert_ne!(f.buffer, GlBuffer { handle: 50 });
        assert_ne!(f.buffer, GlBuffer { handle: 60 });
        assert_ne!(f.buffer, GlBuffer { handle: 70 });
    }
}

#[test]
fn render_snapshots_camera_and_lights_in_order() {
    let mut d = gl_device(plain_window());
    let mut w = mixed_world();
    d.render_world(&mut w).expect("presentable window");
    let scene = last_scene(&d);
    assert_eq!(scene.camera, camera(9));
    assert_eq!(scene.lights, vec![light(1), light(2)]);
}

#[test]
fn render_all_matching_world_emits_all() {
    let mut d = gl_device(plain_window());
    let mut w = World {
        camera: camera(2),
        renderables: vec![
            RenderableEntry { entity: 8, renderable: gl_renderable(1) },
            RenderableEntry { entity: 9, renderable: gl_renderable(2) },
        ],
        transforms: vec![
            TransformEntry { entity: 8, transform: LocalTransform { matrix: mat(1) } },
            TransformEntry { entity: 9, transform: LocalTransform { matrix: mat(2) } },
        ],
        lights: vec![],
    };
    let stats = d.render_world(&mut w).expect("presentable window");
    assert_eq!(stats, FrameStats { fragments: 2, skipped: 0 });
    assert_eq!(last_scene(&d).lights.len(), 0);
}

#[test]
fn render_empty_world_emits_empty_scene() {
    let mut d = gl_device(plain_window());
    let mut w = World {
        camera: camera(4),
        renderables: vec![],
        transforms: vec![],
        lights: vec![],
    };
    let stats = d.render_world(&mut w).expect("presentable window");
    assert_eq!(stats, FrameStats { fragments: 0, skipped: 0 });
    let scene = last_scene(&d);
    assert_eq!(scene.fragments.len(), 0);
    assert_eq!(scene.lights.len(), 0);
    assert_eq!(scene.camera, camera(4));
}

#[test]
fn render_reports_presentation_failure() {
    let mut d = gl_device(Window {
        size: Some((800, 600)),
        pending_events: vec![],
        presentable: false,
    });
    let mut w = mixed_world();
    assert_eq!(d.render_world(&mut w), Err(DeviceError::PresentationFailure));
    // The scene was still assembled and submitted before presentation.
    assert_eq!(last_scene(&d).fragments.len(), 3);
}

#[test]
fn render_leaves_world_unchanged() {
    let mut d = gl_device(plain_window());
    let mut w = mixed_world();
    let before = w.clone();
    d.render_world(&mut w).expect("presentable window");
    assert_eq!(w, before);
}
