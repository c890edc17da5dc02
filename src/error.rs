use vstd::prelude::*;

verus! {

/// Why a datagram could not be decoded.
#[derive(Debug, Clone, Copy, PartialEq, Eq)]
pub enum F1Error {
    /// A tag byte or an event code names no known value.
    ConversionError,
    /// Fewer bytes are left than the step at hand needs.
    IncompleteData,
}

} // verus!
