//! A software 3D rendering pipeline for procedurally shaded celestial bodies.
//!
//! Meshes are transformed through model/view/projection/viewport stages,
//! rasterized into per-pixel fragments with interpolated attributes, and
//! shaded by a closed set of procedural surface programs. All geometry and
//! shading arithmetic is carried out in 16.16 fixed point (see [`fx`]), which
//! gives every stage an exact, machine-checkable contract.

pub mod camera;
pub mod color;
pub mod fragment;
pub mod framebuffer;
pub mod fx;
pub mod geom;
pub mod pipeline;
pub mod raster;
pub mod scene;
pub mod shaders;
pub mod trig;
pub mod vertex;

use vstd::prelude::*;

verus! {

} // verus!
