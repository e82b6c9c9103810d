//! Geometry staging for drawing many rotated, anti-aliased rectangles with
//! one triangle each.
//!
//! Floating-point values travel through this crate as their IEEE-754 bit
//! patterns (`u32`); the crate fixes their order, their byte layout, and the
//! bookkeeping of the fixed-capacity device buffers that receive them.

pub mod geometry;
pub mod layout;
pub mod staging;
pub mod surface;

use vstd::prelude::*;

verus! {

} // verus!
