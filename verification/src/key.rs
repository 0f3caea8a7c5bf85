//! Private and public keys of a signature algorithm.
//!
//! As in [`crate::signature`], relations say what the methods may return, and
//! hold of everything unless an implementation says more.

use vstd::prelude::*;
use crate::certs::PublicKeyInfo;
use crate::signature::{Signature, SignatureAlgorithm};

verus! {

/// A signature was not accepted.
#[derive(Debug, Clone, Copy, PartialEq, Eq)]
pub struct VerificationError;

/// A private key of the algorithm `T`, with its public key.
pub trait PrivateKey<T: SignatureAlgorithm> {
    /// The key material.
    type PrivateKey;

    /// The public keys that belong to such private keys.
    type PublicKey: PublicKey<T>;

    /// The signatures that the key makes.
    type Signature: Signature;

    /// Whether `signature` is one that the key may give for `data`.
    open spec fn signs(&self, data: Seq<u8>, signature: Self::Signature) -> bool {
        true
    }

    /// Whether `public` is the public key that belongs to this private key.
    open spec fn belongs(&self, public: Self::PublicKey) -> bool {
        true
    }

    /// The key material.
    fn key(&self) -> &Self::PrivateKey;

    /// The key material, for change.
    fn key_mut(&mut self) -> &mut Self::PrivateKey;

    /// The public key that belongs to this private key.
    fn pubkey(&self) -> (public: &Self::PublicKey)
        ensures
            self.belongs(*public),
    ;

    /// Signs `data`.
    fn sign(&self, data: &[u8]) -> (signature: Self::Signature)
        ensures
            self.signs(data@, signature),
    ;
}

/// A public key of the algorithm `T`.
pub trait PublicKey<T: SignatureAlgorithm> {
    /// The key material.
    type PublicKey;

    /// The signatures that the key verifies.
    type Signature: Signature;

    /// Whether `info` gives the algorithm and the bits of this key, as
    /// certificates carry them.
    open spec fn describes(&self, info: PublicKeyInfo) -> bool {
        true
    }

    /// The key material.
    fn key(&self) -> &Self::PublicKey;

    /// The key material, for change.
    fn key_mut(&mut self) -> &mut Self::PublicKey;

    /// Whether `signature` is a signature of `data` under this key. That a
    /// signature does not verify is an ordinary outcome. Implementations are
    /// to reject every other encoding of a valid signature.
    fn verify_signature(&self, signature: &Self::Signature, data: &[u8]) -> Result<
        (),
        VerificationError,
    >;

    /// The algorithm and the bits of the key, as certificates carry them.
    fn public_key_info(&self) -> (info: PublicKeyInfo)
        ensures
            self.describes(info),
    ;
}

} // verus!
