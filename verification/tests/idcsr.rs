use std::str::FromStr;

use der::asn1::{BitString, ObjectIdentifier};
use der::{Decode, Encode};
use polyproto::certs::capabilities::{BasicConstraints, Capabilities, KeyUsage};
use polyproto::certs::idcsr::{IdCsr, IdCsrInner};
use polyproto::certs::{PkcsVersion, PublicKeyInfo};
use polyproto::constraints::Constrained;
use polyproto::errors::{ConstraintError, Error, InvalidInput};
use polyproto::key::{PrivateKey, PublicKey, VerificationError};
use polyproto::signature::{Signature, SignatureAlgorithm};
use polyproto::x509::request::{CertReq, CertReqInfo, RequestVersion};
use spki::AlgorithmIdentifierOwned;
use x509_cert::name::Name;

/// A scheme for the tests: the signature of a message is its bytes folded
/// into eight bytes under the key. It stands in for a real one.
#[derive(Debug, Clone, Copy, PartialEq, Eq)]
struct Fold;

impl SignatureAlgorithm for Fold {
    fn algorithm_identifier() -> AlgorithmIdentifierOwned {
        AlgorithmIdentifierOwned {
            oid: ObjectIdentifier::new_unwrap("1.3.6.1.4.1.99999.1"),
            parameters: None,
        }
    }
}

#[derive(Debug, Clone, PartialEq, Eq)]
struct FoldSignature(Vec<u8>);

impl Signature for FoldSignature {
    type Algorithm = Fold;

    fn from_bitstring(signature: &[u8]) -> Self {
        FoldSignature(signature.to_vec())
    }

    fn to_bitstring(&self) -> Result<BitString, der::Error> {
        BitString::from_bytes(&self.0)
    }
}

fn fold(key: u64, data: &[u8]) -> Vec<u8> {
    let mut acc = key ^ 0x9e37_79b9_7f4a_7c15;
    for byte in data {
        acc = acc.rotate_left(5) ^ u64::from(*byte);
        acc = acc.wrapping_mul(0x0000_0100_0000_01b3);
    }
    acc.to_be_bytes().to_vec()
}

#[derive(Debug, Clone, PartialEq, Eq)]
struct FoldPublicKey {
    key: u64,
}

impl PublicKey<Fold> for FoldPublicKey {
    type PublicKey = u64;
    type Signature = FoldSignature;

    fn key(&self) -> &u64 {
        &self.key
    }

    fn key_mut(&mut self) -> &mut u64 {
        &mut self.key
    }

    fn verify_signature(
        &self,
        signature: &FoldSignature,
        data: &[u8],
    ) -> Result<(), VerificationError> {
        if signature.0 == fold(self.key, data) {
            Ok(())
        } else {
            Err(VerificationError)
        }
    }

    fn public_key_info(&self) -> PublicKeyInfo {
        PublicKeyInfo {
            algorithm: Fold::algorithm_identifier(),
            public_key_bitstring: BitString::from_bytes(&self.key.to_be_bytes()).unwrap(),
        }
    }
}

#[derive(Debug, Clone, PartialEq, Eq)]
struct FoldPrivateKey {
    key: u64,
    public: FoldPublicKey,
}

impl FoldPrivateKey {
    fn new(key: u64) -> Self {
        FoldPrivateKey { key, public: FoldPublicKey { key } }
    }
}

impl PrivateKey<Fold> for FoldPrivateKey {
    type PrivateKey = u64;
    type PublicKey = FoldPublicKey;
    type Signature = FoldSignature;

    fn key(&self) -> &u64 {
        &self.key
    }

    fn key_mut(&mut self) -> &mut u64 {
        &mut self.key
    }

    fn pubkey(&self) -> &FoldPublicKey {
        &self.public
    }

    fn sign(&self, data: &[u8]) -> FoldSignature {
        FoldSignature(fold(self.key, data))
    }
}

fn alice() -> Name {
    Name::from_str("CN=alice,DC=example,DC=com,UID=alice@example.com,uniqueIdentifier=abc123")
        .unwrap()
}

fn server() -> Name {
    Name::from_str("CN=example,DC=example,DC=com").unwrap()
}

fn malformed(reason: &str) -> Error {
    Error::ConstraintError(ConstraintError::Malformed(Some(reason.to_string())))
}

#[test]
fn actor_request_end_to_end() {
    let subject = alice();
    let capabilities = Capabilities {
        key_usage: vec![KeyUsage::DigitalSignature(true)],
        basic_constraints: BasicConstraints { ca: false, path_length: None },
    };
    let key = FoldPrivateKey::new(7);
    let csr = IdCsr::<FoldSignature>::new(&subject, &key, &capabilities).unwrap();
    assert_eq!(csr.valid_actor_csr(), Ok(()));
    assert_eq!(csr.valid_home_server_csr(), Err(malformed("Actor CSR must be a CA")));
    assert_eq!(csr.validate(), Ok(()));
    assert_eq!(csr.inner_csr.version, PkcsVersion::V1);
    assert_eq!(csr.inner_csr.subject, subject);
    assert_eq!(csr.inner_csr.subject_public_key_info, key.pubkey().public_key_info());
    assert_eq!(csr.inner_csr.capabilities, capabilities);
    assert_eq!(csr.signature_algorithm, Fold::algorithm_identifier());
}

#[test]
fn home_server_request_end_to_end() {
    let key = FoldPrivateKey::new(11);
    let csr =
        IdCsr::<FoldSignature>::new(&server(), &key, &Capabilities::default_home_server()).unwrap();
    assert_eq!(csr.valid_home_server_csr(), Ok(()));
    assert_eq!(csr.valid_actor_csr(), Err(malformed("Actor CSR must not be a CA")));
}

#[test]
fn the_signature_covers_the_der_encoding_of_the_body() {
    let key = FoldPrivateKey::new(99);
    let csr = IdCsr::<FoldSignature>::new(&alice(), &key, &Capabilities::default_actor()).unwrap();
    let body = csr.inner_csr.clone().to_der().unwrap();
    assert_eq!(key.pubkey().verify_signature(&csr.signature, &body), Ok(()));
    assert_eq!(csr.signature, key.sign(&body));
    // Any DER-aware reader finds the same bytes in the generic request.
    let generic = x509_cert::request::CertReq::from_der(&csr.clone().to_der().unwrap()).unwrap();
    assert_eq!(generic.info.to_der().unwrap(), body);
    assert_eq!(generic.signature.raw_bytes(), csr.signature.0.as_slice());
    assert_eq!(generic.algorithm, Fold::algorithm_identifier());
    // Another key does not verify it.
    let other = FoldPrivateKey::new(100);
    assert_eq!(
        other.pubkey().verify_signature(&csr.signature, &body),
        Err(VerificationError)
    );
}

#[test]
fn new_validates_the_subject_first_and_then_the_capabilities() {
    let key = FoldPrivateKey::new(1);
    let no_signing = Capabilities {
        key_usage: vec![],
        basic_constraints: BasicConstraints { ca: false, path_length: None },
    };
    let no_domain = Name::from_str("CN=alice").unwrap();
    let err = IdCsr::<FoldSignature>::new(&no_domain, &key, &no_signing).unwrap_err();
    assert_eq!(
        err,
        Error::ConstraintError(ConstraintError::OutOfBounds {
            lower: 1,
            upper: 255,
            actual: "0".to_string(),
            reason: Some("Domain Component is missing".to_string()),
        })
    );
    let err = IdCsr::<FoldSignature>::new(&alice(), &key, &no_signing).unwrap_err();
    assert_eq!(err, malformed("Actors require signing capabilities, none found"));
    let err = IdCsrInner::<FoldSignature>::new(&no_domain, key.pubkey(), &no_signing).unwrap_err();
    assert!(matches!(err, Error::ConstraintError(ConstraintError::OutOfBounds { .. })));
    let err = IdCsrInner::<FoldSignature>::new(&alice(), key.pubkey(), &no_signing).unwrap_err();
    assert_eq!(err, malformed("Actors require signing capabilities, none found"));
}

#[test]
fn the_body_holds_what_it_was_made_of() {
    let key = FoldPrivateKey::new(5);
    let capabilities = Capabilities {
        key_usage: vec![KeyUsage::KeyAgreement(true), KeyUsage::DigitalSignature(true)],
        basic_constraints: BasicConstraints { ca: false, path_length: None },
    };
    let inner = IdCsrInner::<FoldSignature>::new(&alice(), key.pubkey(), &capabilities).unwrap();
    assert_eq!(inner.version, PkcsVersion::V1);
    assert_eq!(inner.subject, alice());
    assert_eq!(inner.subject_public_key_info, key.pubkey().public_key_info());
    assert_eq!(
        inner.subject_public_key_info.public_key_bitstring.raw_bytes(),
        &5u64.to_be_bytes()
    );
    // The body keeps the usages as given; the signed request holds them as
    // the encoding orders them.
    assert_eq!(inner.capabilities, capabilities);
    let csr = IdCsr::<FoldSignature>::new(&alice(), &key, &capabilities).unwrap();
    assert!(csr.inner_csr.capabilities.same_as(&capabilities));
    assert_eq!(
        csr.inner_csr.capabilities.key_usage,
        vec![KeyUsage::DigitalSignature(true), KeyUsage::KeyAgreement(true)]
    );
}

#[test]
fn signed_request_round_trips_through_der() {
    let key = FoldPrivateKey::new(42);
    let capabilities = Capabilities {
        key_usage: vec![
            KeyUsage::KeyAgreement(true),
            KeyUsage::ContentCommitment(true),
            KeyUsage::DecipherOnly(true),
        ],
        basic_constraints: BasicConstraints { ca: false, path_length: Some(2) },
    };
    let csr = IdCsr::<FoldSignature>::new(&alice(), &key, &capabilities).unwrap();
    let der = csr.clone().to_der().unwrap();
    assert_eq!(der[0], 0x30);
    let back = IdCsr::<FoldSignature>::from_der(&der).unwrap();
    assert_eq!(back, csr);
    assert_eq!(back.to_der().unwrap(), der);
}

#[test]
fn request_body_round_trips_through_der() {
    let key = FoldPrivateKey::new(42);
    let csr =
        IdCsr::<FoldSignature>::new(&server(), &key, &Capabilities::default_home_server()).unwrap();
    let der = csr.inner_csr.clone().to_der().unwrap();
    let back = IdCsrInner::<FoldSignature>::from_der(&der).unwrap();
    assert_eq!(back, csr.inner_csr);
}

#[test]
fn bytes_that_are_no_request_do_not_decode() {
    assert!(matches!(IdCsr::<FoldSignature>::from_der(&[]), Err(Error::DerError(_))));
    assert!(matches!(
        IdCsr::<FoldSignature>::from_der(&[0x30, 0x03, 0x02, 0x01, 0x00]),
        Err(Error::DerError(_))
    ));
    assert!(matches!(IdCsrInner::<FoldSignature>::from_der(&[0xff]), Err(Error::DerError(_))));
    // The encoding of a body is no signed request, and the other way round.
    let key = FoldPrivateKey::new(3);
    let csr = IdCsr::<FoldSignature>::new(&alice(), &key, &Capabilities::default_actor()).unwrap();
    let body = csr.inner_csr.clone().to_der().unwrap();
    assert!(matches!(IdCsr::<FoldSignature>::from_der(&body), Err(Error::DerError(_))));
    let signed = csr.to_der().unwrap();
    assert!(matches!(IdCsrInner::<FoldSignature>::from_der(&signed), Err(Error::DerError(_))));
}

#[test]
fn a_request_from_the_wire_is_validated_again() {
    // A generic request with a subject that is no name of the profile.
    let key = FoldPrivateKey::new(8);
    let good = IdCsr::<FoldSignature>::new(&alice(), &key, &Capabilities::default_actor()).unwrap();
    let mut generic = x509_cert::request::CertReq::from_der(&good.to_der().unwrap()).unwrap();
    generic.info.subject = Name::from_str("CN=alice,CN=bob,DC=example").unwrap();
    let err = IdCsr::<FoldSignature>::from_der(&generic.to_der().unwrap()).unwrap_err();
    assert!(matches!(err, Error::ConstraintError(ConstraintError::OutOfBounds { .. })));
}

#[test]
fn capabilities_from_the_wire_are_judged_by_the_role_validators() {
    // Valid subject, capabilities that break a rule: reading passes, the role
    // validators do not.
    let key = FoldPrivateKey::new(8);
    let good = IdCsr::<FoldSignature>::new(&alice(), &key, &Capabilities::default_actor()).unwrap();
    let mut csr = good.clone();
    csr.inner_csr.capabilities.key_usage = vec![KeyUsage::EncipherOnly(true)];
    let read = IdCsr::<FoldSignature>::from_der(&csr.to_der().unwrap()).unwrap();
    let none = malformed("Actors require signing capabilities, none found");
    assert_eq!(read.valid_actor_csr(), Err(none.clone()));
    assert_eq!(read.valid_home_server_csr(), Err(none));
    // The subject is judged before the capabilities by the role validators,
    // and after them by `validate`.
    let mut both = good;
    both.inner_csr.capabilities.key_usage = vec![];
    both.inner_csr.subject = Name::from_str("CN=alice").unwrap();
    assert!(matches!(
        both.valid_actor_csr(),
        Err(Error::ConstraintError(ConstraintError::OutOfBounds { .. }))
    ));
    assert_eq!(
        both.validate(),
        Err(ConstraintError::Malformed(Some(
            "Actors require signing capabilities, none found".to_string()
        )))
    );
}

#[test]
fn exactly_one_role_validator_passes_a_valid_request() {
    let key = FoldPrivateKey::new(21);
    let candidates = vec![
        (alice(), Capabilities::default_actor()),
        (server(), Capabilities::default_home_server()),
        (
            server(),
            Capabilities {
                key_usage: vec![KeyUsage::KeyCertSign(true), KeyUsage::DigitalSignature(true)],
                basic_constraints: BasicConstraints { ca: true, path_length: None },
            },
        ),
        (
            alice(),
            Capabilities {
                key_usage: vec![KeyUsage::ContentCommitment(true), KeyUsage::KeyAgreement(true)],
                basic_constraints: BasicConstraints { ca: false, path_length: None },
            },
        ),
    ];
    for (subject, capabilities) in candidates {
        let csr = IdCsr::<FoldSignature>::new(&subject, &key, &capabilities).unwrap();
        assert_ne!(csr.valid_actor_csr().is_ok(), csr.valid_home_server_csr().is_ok());
    }
}

#[test]
fn generic_requests_convert_both_ways() {
    let key = FoldPrivateKey::new(77);
    let csr = IdCsr::<FoldSignature>::new(&alice(), &key, &Capabilities::default_actor()).unwrap();
    let generic = CertReq::try_from(csr.clone()).unwrap();
    assert_eq!(generic.info.version, RequestVersion::V1);
    assert_eq!(generic.info.subject, csr.inner_csr.subject);
    assert_eq!(
        generic.info.public_key.algorithm,
        csr.inner_csr.subject_public_key_info.algorithm
    );
    assert_eq!(
        generic.info.public_key.subject_public_key,
        csr.inner_csr.subject_public_key_info.public_key_bitstring
    );
    assert_eq!(generic.algorithm, csr.signature_algorithm);
    assert_eq!(generic.signature.raw_bytes(), csr.signature.0.as_slice());
    assert_eq!(IdCsr::<FoldSignature>::try_from(generic.clone()).unwrap(), csr);
    let body = CertReqInfo::try_from(csr.inner_csr.clone()).unwrap();
    assert_eq!(body, generic.info);
    assert_eq!(IdCsrInner::<FoldSignature>::try_from(body).unwrap(), csr.inner_csr);
}

#[test]
fn a_request_is_sealed_only_over_the_bytes_of_its_body() {
    let key = FoldPrivateKey::new(31);
    let csr = IdCsr::<FoldSignature>::new(&alice(), &key, &Capabilities::default_actor()).unwrap();
    let body = CertReqInfo::try_from(csr.inner_csr.clone()).unwrap();
    let signed = body.to_der().unwrap();
    assert_eq!(signed, csr.inner_csr.clone().to_der().unwrap());
    let sealed = IdCsr::with_signature(
        body.clone(),
        &signed,
        csr.signature_algorithm.clone(),
        csr.signature.clone(),
    );
    assert_eq!(sealed, Ok(csr.clone()));
    // Other bytes than the encoding of the body seal nothing.
    let mut other = signed.clone();
    other.push(0);
    assert_eq!(
        IdCsr::with_signature(
            body.clone(),
            &other,
            csr.signature_algorithm.clone(),
            csr.signature.clone()
        ),
        Err(Error::InvalidInput(InvalidInput::Unrepresentable))
    );
    assert_eq!(
        IdCsr::with_signature(body, &[], csr.signature_algorithm.clone(), csr.signature.clone()),
        Err(Error::InvalidInput(InvalidInput::Unrepresentable))
    );
    // A body with an invalid subject is not read at all.
    let mut invalid = CertReqInfo::try_from(csr.inner_csr.clone()).unwrap();
    invalid.subject = Name::from_str("CN=alice").unwrap();
    let bytes = invalid.to_der().unwrap();
    assert!(matches!(
        IdCsr::with_signature(invalid, &bytes, csr.signature_algorithm.clone(), csr.signature),
        Err(Error::ConstraintError(_))
    ));
}

#[test]
fn a_generic_request_is_assembled_of_its_parts() {
    let key = FoldPrivateKey::new(32);
    let csr = IdCsr::<FoldSignature>::new(&alice(), &key, &Capabilities::default_actor()).unwrap();
    let body = CertReqInfo::try_from(csr.inner_csr.clone()).unwrap();
    let bits = csr.signature.to_bitstring().unwrap();
    let request =
        CertReq::assemble(body.clone(), csr.signature_algorithm.clone(), Ok(bits.clone())).unwrap();
    assert_eq!(request, CertReq { info: body.clone(), algorithm: csr.signature_algorithm.clone(), signature: bits });
    assert_eq!(request, CertReq::try_from(csr.clone()).unwrap());
    assert_eq!(request.to_der(), csr.clone().to_der());
    // Where the signature has no bit string, the error of the writing comes back.
    let refusal: der::Error = der::ErrorKind::Overflow.into();
    assert_eq!(
        CertReq::assemble(body, csr.signature_algorithm.clone(), Err(refusal)),
        Err(Error::DerError(refusal))
    );
}

#[test]
fn a_signature_without_a_bit_string_has_no_generic_form() {
    #[derive(Debug, Clone, PartialEq, Eq)]
    struct Unwritten;
    impl Signature for Unwritten {
        type Algorithm = Fold;
        fn from_bitstring(_: &[u8]) -> Self {
            Unwritten
        }
        fn to_bitstring(&self) -> Result<BitString, der::Error> {
            Err(der::ErrorKind::Failed.into())
        }
    }
    let key = FoldPrivateKey::new(33);
    let good = IdCsr::<FoldSignature>::new(&alice(), &key, &Capabilities::default_actor()).unwrap();
    let body = CertReqInfo::try_from(good.inner_csr.clone()).unwrap();
    let signed = body.to_der().unwrap();
    let csr =
        IdCsr::with_signature(body, &signed, good.signature_algorithm.clone(), Unwritten).unwrap();
    let failed: der::Error = der::ErrorKind::Failed.into();
    assert_eq!(csr.clone().to_der(), Err(Error::DerError(failed)));
    assert_eq!(CertReq::try_from(csr.clone()), Err(Error::DerError(failed)));
    // The body is asked first: where it has no generic form, that error comes.
    let mut both = csr;
    both.inner_csr.capabilities.key_usage =
        vec![KeyUsage::DigitalSignature(true), KeyUsage::DigitalSignature(true)];
    let duplicate: der::Error = der::ErrorKind::SetDuplicate.into();
    assert_eq!(both.to_der(), Err(Error::DerError(duplicate)));
}

#[test]
fn a_request_whose_usages_repeat_has_no_generic_form() {
    let key = FoldPrivateKey::new(77);
    let mut csr =
        IdCsr::<FoldSignature>::new(&alice(), &key, &Capabilities::default_actor()).unwrap();
    csr.inner_csr.capabilities.key_usage =
        vec![KeyUsage::DigitalSignature(true), KeyUsage::DigitalSignature(true)];
    assert!(matches!(csr.clone().to_der(), Err(Error::DerError(_))));
    assert!(matches!(CertReq::try_from(csr), Err(Error::DerError(_))));
    let capabilities = Capabilities {
        key_usage: vec![KeyUsage::DigitalSignature(true), KeyUsage::DigitalSignature(true)],
        basic_constraints: BasicConstraints { ca: false, path_length: None },
    };
    assert!(matches!(
        IdCsr::<FoldSignature>::new(&alice(), &key, &capabilities),
        Err(Error::DerError(_))
    ));
}

#[test]
fn attributes_that_are_no_capabilities_fail_the_reading() {
    // A generic request whose key-usage attribute holds an integer.
    let key = FoldPrivateKey::new(13);
    let good = IdCsr::<FoldSignature>::new(&alice(), &key, &Capabilities::default_actor()).unwrap();
    let mut generic = x509_cert::request::CertReq::from_der(&good.to_der().unwrap()).unwrap();
    let mut values = der::asn1::SetOfVec::new();
    values.insert(der::asn1::Any::new(der::Tag::Integer, vec![1u8]).unwrap()).unwrap();
    let mut attributes = der::asn1::SetOfVec::new();
    attributes
        .insert(x509_cert::attr::Attribute {
            oid: ObjectIdentifier::new_unwrap("2.5.29.15.0"),
            values,
        })
        .unwrap();
    generic.info.attributes = attributes;
    let err = IdCsr::<FoldSignature>::from_der(&generic.to_der().unwrap()).unwrap_err();
    assert_eq!(err, Error::InvalidInput(InvalidInput::KeyUsageValue));
}
