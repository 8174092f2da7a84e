use vstd::prelude::*;

verus! {

/// An address in segmented memory, before final linearization: a segment
/// index paired with an offset inside that segment. Offsets start at 0.
#[derive(Clone, Copy, Debug, PartialEq, Eq, Structural)]
pub struct Relocatable {
    pub segment_index: isize,
    pub offset: usize,
}

/// A memory value: either a relocatable address or a plain field-element
/// value. The builtin runner only ever produces the relocatable variant;
/// the field-element payload is carried here as an opaque unsigned integer.
#[derive(Clone, Copy, Debug, PartialEq, Eq, Structural)]
pub enum MaybeRelocatable {
    RelocatableValue(Relocatable),
    Int(u128),
}

} // verus!
