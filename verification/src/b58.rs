use vstd::prelude::*;

verus! {

/// The base-58 rendering (Bitcoin alphabet) of a byte string.
pub uninterp spec fn base58_of(bytes: Seq<u8>) -> Seq<char>;

/// Relies on `bs58::encode(..).into_string()`: base-58 encoding with the
/// Bitcoin alphabet. The result is a function of the input bytes alone, and an
/// empty input encodes to the empty string.
#[verifier::external_body]
pub(crate) fn base58_encode(bytes: &[u8]) -> (r: String)
    ensures
        r@ == base58_of(bytes@),
        bytes@.len() == 0 ==> r@.len() == 0,
{
    bs58::encode(bytes).into_string()
}

} // verus!
