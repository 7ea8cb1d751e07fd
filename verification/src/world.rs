//! The slice of the entity-component world that rendering reads.
//!
//! The world collaborator offers read access to a shared camera resource
//! and joinable read iteration over the `Renderable`, transform and light
//! component stores, keyed by entity identity. Here each store is a dense
//! vector of entries in storage order; the join during scene assembly walks
//! the renderable store and looks the same entity up in the transform
//! store. Callers guarantee that nothing writes these stores during a
//! render call.

use vstd::prelude::*;
use crate::renderer::{Camera, Light, Matrix4};
use crate::resources::Renderable;

verus! {

/// Spatial transform component: the entity's world transform, already
/// computed by the simulation side and carried opaquely.
#[derive(Clone, Copy, PartialEq, Eq, Debug)]
pub struct LocalTransform {
    pub matrix: Matrix4,
}

/// One entry of the renderable store: an entity and its renderable.
#[derive(Clone, Copy, PartialEq, Eq, Debug)]
pub struct RenderableEntry {
    pub entity: u64,
    pub renderable: Renderable,
}

/// One entry of the transform store: an entity and its transform.
#[derive(Clone, Copy, PartialEq, Eq, Debug)]
pub struct TransformEntry {
    pub entity: u64,
    pub transform: LocalTransform,
}

/// The read-only world state a render call consumes: the shared camera
/// resource and the three component stores, each in storage order.
#[derive(Clone, PartialEq, Debug)]
pub struct World {
    pub camera: Camera,
    pub renderables: Vec<RenderableEntry>,
    pub transforms: Vec<TransformEntry>,
    pub lights: Vec<Light>,
}

} // verus!
