//! Immediate-mode 2D drawing: path building, tessellation, transform stack
//! and the per-frame draw state machine. Coordinates are integer device
//! units; colors are 8-bit RGBA.
use vstd::prelude::*;

pub mod clock;
pub mod draw;
pub mod path;
pub mod res;
pub mod shader;
pub mod tessellation;
pub mod transform;

verus! {

/// An application driven by the event loop.
pub trait BaseApp {}

} // verus!
