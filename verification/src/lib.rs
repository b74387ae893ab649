//! A small first-person "fly camera" core: a heightmap-to-triangle-strip
//! mesh builder and an Euler-angle look/move controller.
//!
//! Angles are binary angles (a full turn is `FULL_TURN` units) and positions
//! are fixed-point integers, so every rule of the controller and the mesh
//! builder is stated and proved exactly. A host shell converts these values
//! to the renderer's floating-point vectors at the boundary.

pub mod angles;
pub mod controller;
pub mod input_map;
pub mod terrain;
pub mod vec3;
