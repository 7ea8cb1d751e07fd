//! The downstream renderer's scene description, and a model of the renderer
//! and low-level device it draws with.
//!
//! A `Scene` is the ephemeral per-frame aggregate of a camera snapshot, the
//! drawable fragments gathered from the world, and the light snapshots. It
//! is rebuilt on every render call and handed to the renderer, which is
//! opaque to this layer: submission is modeled as recording the submitted
//! scene, so that the render contract can say exactly what reached the
//! renderer.

use vstd::prelude::*;
use crate::resources::{GlBuffer, GlSlice, GlTexture};

verus! {

/// A 4x4 transform matrix. The entries are carried as raw bit patterns of
/// the renderer's scalar type; this layer never computes with them, it only
/// moves whole matrices from components into fragments.
#[derive(Clone, Copy, PartialEq, Eq, Debug)]
pub struct Matrix4 {
    pub bits: [[u32; 4]; 4],
}

/// Snapshot of the world's shared camera resource: a projection matrix and
/// a view matrix, both carried opaquely.
#[derive(Clone, Copy, PartialEq, Eq, Debug)]
pub struct Camera {
    pub projection: Matrix4,
    pub view_matrix: Matrix4,
}

/// Snapshot of one light component, carried opaquely to the renderer. The
/// scalar fields are raw bit patterns of the renderer's scalar type.
#[derive(Clone, Copy, PartialEq, Eq, Debug)]
pub struct Light {
    pub color: [u32; 4],
    pub center: [u32; 3],
    pub radius: u32,
    pub propagation_constant: u32,
    pub propagation_linear: u32,
    pub propagation_r_square: u32,
}

/// One drawable unit submitted to the renderer: a world transform, a mesh
/// buffer and slice, and the ambient and diffuse textures.
#[derive(Clone, Copy, PartialEq, Eq, Debug)]
pub struct Fragment {
    pub transform: Matrix4,
    pub buffer: GlBuffer,
    pub slice: GlSlice,
    pub ka: GlTexture,
    pub kd: GlTexture,
}

/// The ephemeral per-frame scene: camera snapshot, fragments in
/// join-iteration order, and light snapshots in storage order.
#[derive(Clone, PartialEq, Debug)]
pub struct Scene {
    pub camera: Camera,
    pub fragments: Vec<Fragment>,
    pub lights: Vec<Light>,
}

impl Scene {
    /// An empty scene keyed to one camera snapshot.
    pub fn new(camera: Camera) -> (s: Scene)
        ensures
            s.camera == camera,
            s.fragments@ == Seq::<Fragment>::empty(),
            s.lights@ == Seq::<Light>::empty(),
    {
        Scene { camera, fragments: Vec::new(), lights: Vec::new() }
    }
}

/// Opaque handle to the hardware backend's low-level device. The downstream
/// renderer mutates GPU state through it internally; this layer only keeps
/// it alive and hands it to submissions.
#[derive(Clone, Copy, PartialEq, Eq, Debug)]
pub struct Device {
    pub handle: u64,
}

/// Model of the downstream fixed-function renderer. Submission is treated
/// as infallible and opaque; the model records the most recent submitted
/// scene so that render behaviour is observable and statable.
#[derive(Clone, PartialEq, Debug)]
pub struct Renderer {
    pub last_scene: Option<Scene>,
}

impl Renderer {
    /// A renderer that has not been submitted to yet.
    pub fn new() -> (r: Renderer)
        ensures
            r.last_scene is None,
    {
        Renderer { last_scene: None }
    }

    /// Submit an assembled scene together with the active pipeline and the
    /// low-level device handle. Infallible from this layer's perspective;
    /// the device handle is left as it was.
    pub fn submit(&mut self, _pipeline: &crate::pipeline::Pipeline, scene: Scene, device: &mut Device)
        ensures
            final(self).last_scene == Some(scene),
            *final(device) == *old(device),
    {
        self.last_scene = Some(scene);
    }
}

} // verus!
