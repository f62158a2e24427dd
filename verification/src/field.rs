use vstd::prelude::*;

verus! {

/// Which scanlines of a frame a plane set represents. `Upper` keeps the even
/// source rows, `Lower` the odd ones; the interleaved selectors keep every
/// row but mark how the two fields are woven for the effect engine.
#[derive(Clone, Copy, Debug, PartialEq, Eq, Structural)]
pub enum FieldSelector {
    All,
    Upper,
    Lower,
    InterleavedUpper,
    InterleavedLower,
}

/// A user-facing field policy; `Alternating` switches between the upper and
/// lower field by frame parity.
#[derive(Clone, Copy, Debug, PartialEq, Eq, Structural)]
pub enum UseField {
    Alternating,
    Upper,
    Lower,
    InterleavedUpper,
    InterleavedLower,
    Both,
}

/// Rows a plane holds for an image of `height` rows under `field`: every row,
/// the even rows (ceiling half), or the odd rows (floor half).
pub open spec fn spec_num_image_rows(height: nat, field: FieldSelector) -> nat {
    match field {
        FieldSelector::All => height,
        FieldSelector::Upper => (height + 1) / 2,
        FieldSelector::Lower => height / 2,
        FieldSelector::InterleavedUpper => height,
        FieldSelector::InterleavedLower => height,
    }
}

/// Source row of the image that plane row `k` was taken from.
pub open spec fn spec_source_row(field: FieldSelector, k: int) -> int {
    match field {
        FieldSelector::Upper => 2 * k,
        FieldSelector::Lower => 2 * k + 1,
        _ => k,
    }
}

/// Number of rows the planes hold for an image of `height` rows.
pub fn num_image_rows(height: usize, field: FieldSelector) -> (r: usize)
    ensures
        r == spec_num_image_rows(height as nat, field),
{
    match field {
        FieldSelector::All => height,
        FieldSelector::Upper => height / 2 + height % 2,
        FieldSelector::Lower => height / 2,
        FieldSelector::InterleavedUpper => height,
        FieldSelector::InterleavedLower => height,
    }
}

/// The field a given frame uses under a policy: `Alternating` picks the upper
/// field on even frame indices and the lower field on odd ones; every other
/// policy is fixed.
pub open spec fn spec_field_for_frame(policy: UseField, frame_index: nat) -> FieldSelector {
    match policy {
        UseField::Alternating => if frame_index % 2 == 0 {
            FieldSelector::Upper
        } else {
            FieldSelector::Lower
        },
        UseField::Upper => FieldSelector::Upper,
        UseField::Lower => FieldSelector::Lower,
        UseField::InterleavedUpper => FieldSelector::InterleavedUpper,
        UseField::InterleavedLower => FieldSelector::InterleavedLower,
        UseField::Both => FieldSelector::All,
    }
}

/// Resolve a field policy against a concrete frame index.
pub fn field_for_frame(policy: &UseField, frame_index: usize) -> (r: FieldSelector)
    ensures
        r == spec_field_for_frame(*policy, frame_index as nat),
{
    match policy {
        UseField::Alternating => if frame_index % 2 == 0 {
            FieldSelector::Upper
        } else {
            FieldSelector::Lower
        },
        UseField::Upper => FieldSelector::Upper,
        UseField::Lower => FieldSelector::Lower,
        UseField::InterleavedUpper => FieldSelector::InterleavedUpper,
        UseField::InterleavedLower => FieldSelector::InterleavedLower,
        UseField::Both => FieldSelector::All,
    }
}

} // verus!
