//! Device-abstraction and per-frame scene-assembly layer of a rendering
//! front end.
//!
//! A [`device::GfxDevice`](device::GfxDevice) owns exactly one backend
//! variant out of a closed set (hardware-accelerated, stub native, null) and
//! exposes one backend-agnostic operation set over it: pipeline and target
//! edits, a per-frame world render, event polling and a dimension query.
//! Every operation is total over the variant set, and its contract pins the
//! final device state for each variant, so no operation can touch state that
//! belongs to an inactive backend.

pub mod assembly;
pub mod device;
pub mod event;
pub mod pipeline;
pub mod renderer;
pub mod resources;
pub mod world;
