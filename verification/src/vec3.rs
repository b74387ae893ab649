//! A three-component integer vector, used both for mesh vertex positions
//! (grid coordinates plus a height sample) and for fixed-point camera
//! positions and direction vectors.

use vstd::prelude::*;

verus! {

/// A vector of three fixed-point components.
#[derive(Clone, Copy, PartialEq, Eq, Structural, Debug)]
pub struct Vec3i {
    pub x: i64,
    pub y: i64,
    pub z: i64,
}

} // verus!
