//! The fragment record produced by rasterization.

use vstd::prelude::*;
use crate::fx::{Fx, FX_ONE};
use crate::geom::V3;

verus! {

/// A candidate pixel from one triangle: integer screen coordinates plus the
/// attributes interpolated at its center. Fragments are transient — shaded
/// and discarded within one render pass.
#[derive(Clone, Copy, PartialEq, Eq, Structural, Debug)]
pub struct Fragment {
    /// Screen column.
    pub x: usize,
    /// Screen row.
    pub y: usize,
    /// Interpolated depth, compared by the pixel sink.
    pub depth: Fx,
    /// Interpolated object-space position: the shading coordinate frame, so
    /// surface patterns stay put under camera motion but turn with the body.
    pub vertex_pos: V3,
    /// Interpolated normal.
    pub normal: V3,
    /// Precomputed lighting intensity in `[0, 1]`.
    pub intensity: Fx,
}

impl Fragment {
    /// The lighting intensity sits in the unit interval.
    pub open spec fn wf(self) -> bool {
        0 <= self.intensity <= FX_ONE
    }
}

} // verus!
