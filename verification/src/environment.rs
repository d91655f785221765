use vstd::prelude::*;

verus! {

/// Non-owning handle to an environment-target descriptor owned by the
/// surrounding build system. The descriptor itself is opaque to this crate:
/// the handle carries only the descriptor's identity, and two handles refer
/// to the same descriptor exactly when their identifiers are equal.
#[derive(Clone, Copy, PartialEq, Eq, Structural, Debug)]
pub struct EnvironmentVc {
    pub id: u64,
}

impl EnvironmentVc {
    /// Wraps a raw descriptor identity as a handle.
    pub fn new(id: u64) -> (r: EnvironmentVc)
        ensures
            r.id == id,
    {
        EnvironmentVc { id }
    }
}

} // verus!
