use vstd::prelude::*;
use crate::field::{FieldSelector, spec_num_image_rows};

verus! {

/// The internal planar representation the effect engine works on: one luma
/// plane and two chroma planes of identical length, covering the rows that
/// `field` selects from a `width` by `height` image. Each sample is carried
/// as a raw 32-bit word whose numeric reading belongs to the engine.
#[derive(Clone, Debug, PartialEq)]
pub struct ColorPlanes {
    pub luma: Vec<u32>,
    pub chroma_i: Vec<u32>,
    pub chroma_q: Vec<u32>,
    pub width: usize,
    pub height: usize,
    pub field: FieldSelector,
}

impl ColorPlanes {
    /// Rows the planes hold for this image under its field selector.
    pub open spec fn plane_rows(self) -> nat {
        spec_num_image_rows(self.height as nat, self.field)
    }

    /// Length every plane must have.
    pub open spec fn plane_len(self) -> nat {
        (self.width as nat) * self.plane_rows()
    }

    /// The sizing invariant: all three planes are exactly
    /// `width * num_image_rows(height, field)` samples long.
    pub open spec fn wf(self) -> bool {
        &&& self.luma@.len() == self.plane_len()
        &&& self.chroma_i@.len() == self.plane_len()
        &&& self.chroma_q@.len() == self.plane_len()
    }
}

} // verus!
