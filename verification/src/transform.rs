use vstd::prelude::*;

verus! {

/// An opaque, externally defined source-code transform step. This crate
/// stores transforms in ordered sequences and never executes or inspects
/// them beyond preserving their order and identity, which the identifier
/// carries.
#[derive(Clone, Copy, PartialEq, Eq, Structural, Debug)]
pub struct EcmascriptInputTransform {
    pub id: u64,
}

impl EcmascriptInputTransform {
    /// Wraps a raw transform identity.
    pub fn new(id: u64) -> (r: EcmascriptInputTransform)
        ensures
            r.id == id,
    {
        EcmascriptInputTransform { id }
    }
}

} // verus!
