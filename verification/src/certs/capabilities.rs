//! What the holder of a certificate may do: the certificate-authority flag,
//! the basic constraints and the key usages.

use vstd::prelude::*;

verus! {

/// One key usage, set or expressly not set.
#[derive(Debug, Clone, Copy, PartialEq, Eq, Structural)]
pub enum KeyUsage {
    /// The key signs data, without a promise of non-repudiation.
    DigitalSignature(bool),
    /// The key signs data with a promise of non-repudiation.
    ContentCommitment(bool),
    /// The key enciphers keys.
    KeyEncipherment(bool),
    /// The key enciphers data directly.
    DataEncipherment(bool),
    /// The key takes part in key agreement.
    KeyAgreement(bool),
    /// The key signs certificates.
    KeyCertSign(bool),
    /// The key signs revocation lists.
    CrlSign(bool),
    /// In key agreement, the key only enciphers.
    EncipherOnly(bool),
    /// In key agreement, the key only deciphers.
    DecipherOnly(bool),
}

/// Whether the holder is a certificate authority, and how long a chain below
/// it may be.
#[derive(Debug, Clone, Copy, PartialEq, Eq, Structural)]
pub struct BasicConstraints {
    pub ca: bool,
    pub path_length: Option<u64>,
}

/// The capabilities that a certificate or a request declares.
#[derive(Debug, PartialEq, Eq)]
pub struct Capabilities {
    /// The key usages, in the order in which they were given.
    pub key_usage: Vec<KeyUsage>,
    /// The basic constraints, with the certificate-authority flag.
    pub basic_constraints: BasicConstraints,
}

/// The mathematical form of [`Capabilities`].
pub struct CapabilitiesView {
    pub key_usage: Seq<KeyUsage>,
    pub basic_constraints: BasicConstraints,
}

impl View for Capabilities {
    type V = CapabilitiesView;

    open spec fn view(&self) -> CapabilitiesView {
        CapabilitiesView { key_usage: self.key_usage@, basic_constraints: self.basic_constraints }
    }
}

impl CapabilitiesView {
    /// Whether the usage `usage` is among the key usages.
    pub open spec fn has(self, usage: KeyUsage) -> bool {
        self.key_usage.contains(usage)
    }

    /// Whether the holder is declared a certificate authority.
    pub open spec fn is_ca(self) -> bool {
        self.basic_constraints.ca
    }

    /// The same capabilities but for the order of the key usages.
    pub open spec fn same_as(self, other: CapabilitiesView) -> bool {
        &&& self.basic_constraints == other.basic_constraints
        &&& self.key_usage.to_multiset() == other.key_usage.to_multiset()
    }
}

impl Clone for Capabilities {
    fn clone(&self) -> (copy: Self)
        ensures
            copy@ == self@,
    {
        let mut key_usage: Vec<KeyUsage> = Vec::new();
        let mut i: usize = 0;
        while i < self.key_usage.len()
            invariant
                i <= self.key_usage.len(),
                key_usage@ == self.key_usage@.take(i as int),
            decreases self.key_usage.len() - i,
        {
            key_usage.push(self.key_usage[i]);
            i += 1;
        }
        assert(self.key_usage@.take(i as int) =~= self.key_usage@);
        Capabilities { key_usage, basic_constraints: self.basic_constraints }
    }
}

impl Capabilities {
    /// The capabilities of an actor: it signs, and is no authority.
    pub fn default_actor() -> (c: Self)
        ensures
            c@.key_usage == seq![KeyUsage::DigitalSignature(true)],
            c@.basic_constraints == (BasicConstraints { ca: false, path_length: None }),
    {
        let mut key_usage: Vec<KeyUsage> = Vec::new();
        key_usage.push(KeyUsage::DigitalSignature(true));
        Capabilities { key_usage, basic_constraints: BasicConstraints { ca: false, path_length: None } }
    }

    /// The capabilities of a home server: an authority that signs
    /// certificates, with one level below it.
    pub fn default_home_server() -> (c: Self)
        ensures
            c@.key_usage == seq![KeyUsage::KeyCertSign(true)],
            c@.basic_constraints == (BasicConstraints { ca: true, path_length: Some(1u64) }),
    {
        let mut key_usage: Vec<KeyUsage> = Vec::new();
        key_usage.push(KeyUsage::KeyCertSign(true));
        Capabilities { key_usage, basic_constraints: BasicConstraints { ca: true, path_length: Some(1) } }
    }
}

} // verus!
