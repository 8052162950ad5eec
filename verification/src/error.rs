use vstd::prelude::*;

verus! {

/// The two failure modes of the derived vector operations.
#[derive(Clone, Copy, Debug, PartialEq, Eq)]
pub enum VecError {
    /// A zero-length vector was asked for its direction: it has none.
    Normalize,
    /// A component is not representable in the chosen accumulator type.
    Cast,
}

} // verus!
