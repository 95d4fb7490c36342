//! The logic of a small animated-triangle renderer: how each vertex record is
//! laid out in the GPU buffer, how the three animation phases are rotated
//! across the triangle's vertex colors, and how the window's event loop is
//! driven from one event to the next.

use vstd::prelude::*;

pub mod animation;
pub mod frame;
pub mod layout;

verus! {

} // verus!
