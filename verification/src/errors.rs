use vstd::prelude::*;

verus! {

/// Why a venue account buffer yielded no price sample.
#[derive(Clone, Copy, Debug, PartialEq, Eq, Structural)]
pub enum DecodeError {
    /// The buffer is too short, or a required field lies outside the record.
    MalformedBuffer,
    /// The buffer decoded, but every value fell outside the sanity bounds.
    ImplausibleValue,
}

} // verus!
