//! The certificate and request object model.

use vstd::prelude::*;
use der::asn1::BitString;
use spki::AlgorithmIdentifierOwned;
use crate::x509::{copy_algorithm, SubjectPublicKeyInfo};

pub mod attributes;
pub mod capabilities;
pub mod idcerttbs;
pub mod idcsr;
pub mod session_id;

pub use session_id::SessionId;

verus! {

/// The version of PKCS #10 that a request follows.
#[derive(Debug, Clone, Copy, PartialEq, Eq, Structural)]
pub enum PkcsVersion {
    /// Version 1, the only one.
    V1,
}

/// The public key of a subject: the algorithm and the key as a bit string.
#[derive(Debug, PartialEq, Eq)]
pub struct PublicKeyInfo {
    /// The algorithm of the key.
    pub algorithm: AlgorithmIdentifierOwned,
    /// The key.
    pub public_key_bitstring: BitString,
}

impl Clone for PublicKeyInfo {
    fn clone(&self) -> (copy: Self)
        ensures
            copy == *self,
    {
        PublicKeyInfo {
            algorithm: copy_algorithm(&self.algorithm),
            public_key_bitstring: self.public_key_bitstring.clone(),
        }
    }
}

/// The library's form of a generic subject-public-key-info.
pub open spec fn public_key_info_of(generic: SubjectPublicKeyInfo) -> PublicKeyInfo {
    PublicKeyInfo {
        algorithm: generic.algorithm,
        public_key_bitstring: generic.subject_public_key,
    }
}

/// The generic form of the public key of a subject.
pub open spec fn generic_of(info: PublicKeyInfo) -> SubjectPublicKeyInfo {
    SubjectPublicKeyInfo {
        algorithm: info.algorithm,
        subject_public_key: info.public_key_bitstring,
    }
}

impl From<SubjectPublicKeyInfo> for PublicKeyInfo {
    fn from(value: SubjectPublicKeyInfo) -> (info: PublicKeyInfo) {
        PublicKeyInfo {
            algorithm: value.algorithm,
            public_key_bitstring: value.subject_public_key,
        }
    }
}

impl vstd::std_specs::convert::FromSpecImpl<SubjectPublicKeyInfo> for PublicKeyInfo {
    open spec fn obeys_from_spec() -> bool {
        true
    }

    open spec fn from_spec(value: SubjectPublicKeyInfo) -> PublicKeyInfo {
        public_key_info_of(value)
    }
}

impl From<PublicKeyInfo> for SubjectPublicKeyInfo {
    fn from(value: PublicKeyInfo) -> (info: SubjectPublicKeyInfo) {
        SubjectPublicKeyInfo {
            algorithm: value.algorithm,
            subject_public_key: value.public_key_bitstring,
        }
    }
}

impl vstd::std_specs::convert::FromSpecImpl<PublicKeyInfo> for SubjectPublicKeyInfo {
    open spec fn obeys_from_spec() -> bool {
        true
    }

    open spec fn from_spec(value: PublicKeyInfo) -> SubjectPublicKeyInfo {
        generic_of(value)
    }
}

/// The generic structure and the library's own hold the same and go into
/// one another without loss, either way round.
pub proof fn lemma_public_key_info_round_trip(info: PublicKeyInfo, generic: SubjectPublicKeyInfo)
    ensures
        public_key_info_of(generic_of(info)) == info,
        generic_of(public_key_info_of(generic)) == generic,
{
}

} // verus!
