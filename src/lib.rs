//! Viewport state for an interactive pan/zoom viewer: the drawable surface's lifecycle,
//! cursor-anchored zoom ticks, the event dispatch that ties them together, and the exact
//! byte layout of the uniform block and the full-viewport quad.
pub mod events;
pub mod layout;
pub mod primitives;
pub mod surface;
pub mod viewport;
