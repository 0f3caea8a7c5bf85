//! What the library asks of a signature scheme.
//!
//! The traits say in relations what their methods may return. Each relation
//! holds of everything unless an implementation says more, so that an
//! implementation owes nothing but the methods.

use vstd::prelude::*;
use der::asn1::BitString;
use spki::AlgorithmIdentifierOwned;

verus! {

/// A signature algorithm, known to the library by its identifier.
pub trait SignatureAlgorithm {
    /// Whether `id` is an identifier (object identifier and parameters) that
    /// the algorithm declares.
    open spec fn declares(id: AlgorithmIdentifierOwned) -> bool {
        true
    }

    /// The identifier that the algorithm declares.
    fn algorithm_identifier() -> (id: AlgorithmIdentifierOwned)
        ensures
            Self::declares(id),
    ;
}

/// A signature value of some algorithm.
pub trait Signature: Sized {
    /// The algorithm that makes such signatures.
    type Algorithm: SignatureAlgorithm;

    /// Whether `signature` is what the raw bytes `bits` of a bit string may be
    /// read as.
    open spec fn reads(bits: Seq<u8>, signature: Self) -> bool {
        true
    }

    /// Whether `written` is what writing the signature as a bit string may
    /// give.
    open spec fn writes(&self, written: Result<BitString, der::Error>) -> bool {
        true
    }

    /// Reads a signature from the raw bytes of a bit string.
    fn from_bitstring(signature: &[u8]) -> (s: Self)
        ensures
            Self::reads(signature@, s),
    ;

    /// Writes the signature as a bit string.
    fn to_bitstring(&self) -> (r: Result<BitString, der::Error>)
        ensures
            self.writes(r),
    ;
}

} // verus!
