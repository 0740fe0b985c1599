//! The vertex record flowing through the pipeline.

use vstd::prelude::*;
use crate::color::Color;
use crate::geom::{V2, V3};

verus! {

/// A mesh vertex: immutable object-space attributes plus the two transform
/// outputs that the vertex stage re-derives on every pass.
#[derive(Clone, Copy, PartialEq, Eq, Structural, Debug)]
pub struct Vertex {
    /// Object-space position.
    pub position: V3,
    /// Object-space normal.
    pub normal: V3,
    /// Texture coordinates; carried along unused by the current shaders.
    pub tex_coords: V2,
    /// Static vertex color.
    pub color: Color,
    /// Screen-space position: x and y in pixel units, z the depth.
    pub transformed_position: V3,
    /// The normal after the normal-matrix transform.
    pub transformed_normal: V3,
}

impl Vertex {
    /// A vertex from its object-space attributes, with zeroed transform
    /// outputs.
    pub fn new(position: V3, normal: V3, tex_coords: V2, color: Color) -> (v: Vertex)
        ensures
            v.position == position,
            v.normal == normal,
            v.tex_coords == tex_coords,
            v.color == color,
            v.transformed_position == (V3 { x: 0, y: 0, z: 0 }),
            v.transformed_normal == (V3 { x: 0, y: 0, z: 0 }),
    {
        Vertex {
            position,
            normal,
            tex_coords,
            color,
            transformed_position: V3 { x: 0, y: 0, z: 0 },
            transformed_normal: V3 { x: 0, y: 0, z: 0 },
        }
    }
}

} // verus!
