//! Backend-tagged GPU resource handles and the `Renderable` component.
//!
//! A mesh or texture is created for one particular backend by the engine's
//! loaders; this layer never looks inside a handle, it only checks the
//! backend tag and carries the handle through to the renderer. A handle
//! whose tag does not match the active backend is unusable for the frame and
//! causes its owning entity to be skipped during scene assembly.

use vstd::prelude::*;

verus! {

/// Opaque handle to a vertex buffer owned by the hardware backend's factory.
/// Loaders create and destroy buffers; this layer only carries the handle.
#[derive(Clone, Copy, PartialEq, Eq, Debug)]
pub struct GlBuffer {
    pub handle: u64,
}

/// Opaque handle to the index range (slice) drawn from a vertex buffer.
#[derive(Clone, Copy, PartialEq, Eq, Debug)]
pub struct GlSlice {
    pub handle: u64,
}

/// Opaque handle to a texture owned by the hardware backend's factory.
#[derive(Clone, Copy, PartialEq, Eq, Debug)]
pub struct GlTexture {
    pub handle: u64,
}

/// Backend-tagged union over concrete mesh handles. The stub native variant
/// carries no data; the null variant stands for a mesh loaded while the
/// no-op backend was active.
#[derive(Clone, Copy, PartialEq, Eq, Debug)]
pub enum MeshInner {
    OpenGL { buffer: GlBuffer, slice: GlSlice },
    Direct3D {},
    Null,
}

/// A mesh resource: one backend-tagged buffer/slice pair.
#[derive(Clone, Copy, PartialEq, Eq, Debug)]
pub struct Mesh {
    pub mesh_inner: MeshInner,
}

/// Backend-tagged union over concrete texture handles.
#[derive(Clone, Copy, PartialEq, Eq, Debug)]
pub enum TextureInner {
    OpenGL { texture: GlTexture },
    Direct3D {},
    Null,
}

/// A texture resource: one backend-tagged texture handle.
#[derive(Clone, Copy, PartialEq, Eq, Debug)]
pub struct Texture {
    pub texture_inner: TextureInner,
}

/// Per-entity immutable binding of one mesh and two textures (ambient `ka`
/// and diffuse `kd`). Pure data: scene-authoring logic outside this layer
/// creates and destroys it, and rendering only reads it.
#[derive(Clone, Copy, PartialEq, Eq, Debug)]
pub struct Renderable {
    pub mesh: Mesh,
    pub ka: Texture,
    pub kd: Texture,
}

} // verus!
