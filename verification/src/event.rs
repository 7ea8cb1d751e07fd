//! Window events and their engine-level wrapping.
//!
//! The window collaborator delivers raw events in arrival order; the device
//! drains them each frame and wraps each one in an engine-level event for
//! downstream dispatch. The wrapping adds nothing and loses nothing: the
//! raw event rides along as the payload.

use vstd::prelude::*;

verus! {

/// A raw event reported by the window, with plain payloads.
#[derive(Clone, Copy, PartialEq, Eq, Debug)]
pub enum WindowEvent {
    /// The drawable area changed to the given width and height.
    Resized(u32, u32),
    /// The window moved to the given position.
    Moved(i32, i32),
    /// The user asked to close the window.
    Closed,
    /// The window gained or lost focus.
    Focused(bool),
    /// A key went down or up, identified by its scancode.
    KeyboardInput { pressed: bool, scancode: u32 },
    /// The pointer moved to the given position.
    MouseMoved(i32, i32),
    /// A mouse button went down or up.
    MouseInput { pressed: bool, button: u8 },
}

/// An engine-level event: one raw window event, wrapped for dispatch.
#[derive(Clone, Copy, PartialEq, Eq, Debug)]
pub struct EngineEvent {
    pub payload: WindowEvent,
}

impl EngineEvent {
    /// Wrap one raw window event.
    pub fn new(event: WindowEvent) -> (e: EngineEvent)
        ensures
            e.payload == event,
    {
        EngineEvent { payload: event }
    }
}

} // verus!
