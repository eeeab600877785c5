//! Pointer picking for a fixed-camera 3D scene.
//!
//! Each frame, a 2D mouse position in window pixels is projected through the
//! active camera into a ray, the ray is intersected with the ground plane
//! `z = 0`, the resulting world point is hit-tested against the axis-aligned
//! bounding boxes of the named sprites in the scene, and the outcome is
//! written into two UI text slots.
//!
//! All quantities (pixels, world units, tangents, rotation-matrix entries)
//! are fixed-point integers counting thousandths, so every computation here
//! is exact integer arithmetic with one explicitly rounded division at the
//! end of the ray cast.

pub mod camera;
pub mod geom;
pub mod num;
pub mod sprite;
pub mod system;
pub mod text;
pub mod ui;
