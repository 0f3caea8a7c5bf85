use std::str::FromStr;
use std::time::Duration;

use der::asn1::{BitString, GeneralizedTime, ObjectIdentifier, OctetString};
use polyproto::certs::idcerttbs::IdCertTbs;
use polyproto::certs::PublicKeyInfo;
use polyproto::errors::{ConstraintError, Error, IdCertToTbsCert, TbsCertToIdCert};
use polyproto::x509::certificate::{TbsCertificate, Version};
use polyproto::x509::integer::{SerialNumber, Uint};
use polyproto::x509::SubjectPublicKeyInfo;
use spki::AlgorithmIdentifierOwned;
use x509_cert::ext::Extension;
use x509_cert::name::Name;
use x509_cert::time::{Time, Validity};

fn algorithm() -> AlgorithmIdentifierOwned {
    AlgorithmIdentifierOwned { oid: ObjectIdentifier::new_unwrap("1.3.101.112"), parameters: None }
}

fn validity() -> Validity {
    let at = |secs: u64| {
        Time::GeneralTime(GeneralizedTime::from_unix_duration(Duration::from_secs(secs)).unwrap())
    };
    Validity { not_before: at(1_700_000_000), not_after: at(1_800_000_000) }
}

fn extensions() -> Vec<Extension> {
    vec![Extension {
        extn_id: ObjectIdentifier::new_unwrap("2.5.29.19"),
        critical: true,
        extn_value: OctetString::new(vec![0x30, 0x00]).unwrap(),
    }]
}

fn subject() -> Name {
    Name::from_str("CN=alice,DC=example,DC=com,UID=alice@example.com,uniqueIdentifier=abc123")
        .unwrap()
}

fn issuer() -> Name {
    Name::from_str("CN=example,DC=example,DC=com").unwrap()
}

fn cert(serial: &[u8]) -> IdCertTbs {
    IdCertTbs {
        serial_number: Uint::new(serial).unwrap(),
        signature_algorithm: algorithm(),
        issuer: issuer(),
        validity: validity(),
        subject: subject(),
        subject_public_key_info: PublicKeyInfo {
            algorithm: algorithm(),
            public_key_bitstring: BitString::from_bytes(&[1, 2, 3, 4]).unwrap(),
        },
        subject_session_id: BitString::from_bytes(b"abc123").unwrap(),
        extensions: extensions(),
    }
}

fn generic(serial: &[u8]) -> TbsCertificate {
    TbsCertificate {
        version: Version::V3,
        serial_number: SerialNumber { bytes: serial.to_vec() },
        signature: algorithm(),
        issuer: issuer(),
        validity: validity(),
        subject: subject(),
        subject_public_key_info: SubjectPublicKeyInfo {
            algorithm: algorithm(),
            subject_public_key: BitString::from_bytes(&[1, 2, 3, 4]).unwrap(),
        },
        issuer_unique_id: None,
        subject_unique_id: Some(BitString::from_bytes(b"abc123").unwrap()),
        extensions: Some(extensions()),
    }
}

#[test]
fn certificate_round_trips_through_the_generic_form() {
    for serial in [&[0x01u8][..], &[0x80, 0x01], &[0x7f; 20], &[0xff; 19], &[0x00], &[]] {
        let tbs = TbsCertificate::try_from(cert(serial)).unwrap();
        assert_eq!(IdCertTbs::try_from(tbs).unwrap(), cert(serial));
    }
}

#[test]
fn generic_form_has_version_three_and_the_session_id() {
    let tbs = TbsCertificate::try_from(cert(&[0x80, 0x01])).unwrap();
    assert_eq!(tbs, generic(&[0x00, 0x80, 0x01]));
    assert_eq!(tbs.version, Version::V3);
    assert_eq!(tbs.issuer_unique_id, None);
    assert_eq!(tbs.subject_unique_id, Some(BitString::from_bytes(b"abc123").unwrap()));
    assert_eq!(tbs.extensions, Some(extensions()));
    assert_eq!(tbs.serial_number.as_bytes(), &[0x00, 0x80, 0x01]);
}

#[test]
fn serial_number_that_does_not_fit_has_no_generic_form() {
    let err = TbsCertificate::try_from(cert(&[0x80; 20])).unwrap_err();
    assert!(matches!(err, IdCertToTbsCert::SerialNumber(_)));
    // The error inside is that of the X.509 crate for the same bytes.
    let refusal =
        x509_cert::serial_number::SerialNumber::<x509_cert::certificate::Rfc5280>::new(&[0x80; 20])
            .unwrap_err();
    assert_eq!(err, IdCertToTbsCert::SerialNumber(refusal));
    assert_eq!(SerialNumber::new(&[0x80; 20]), Err(refusal));
    let err = TbsCertificate::try_from(cert(&[0x01; 21])).unwrap_err();
    assert!(matches!(err, IdCertToTbsCert::SerialNumber(_)));
    assert!(TbsCertificate::try_from(cert(&[0x7f; 20])).is_ok());
}

#[test]
fn generic_certificate_is_read_with_a_stripped_serial_number() {
    let read = IdCertTbs::try_from(generic(&[0x00, 0x00, 0x05])).unwrap();
    assert_eq!(read.serial_number.as_bytes(), &[0x05]);
    assert_eq!(read, cert(&[0x05]));
    // Whatever the version and the issuer unique identifier are.
    let mut other = generic(&[0x05]);
    other.version = Version::V1;
    other.issuer_unique_id = Some(BitString::from_bytes(&[9]).unwrap());
    assert_eq!(IdCertTbs::try_from(other).unwrap(), cert(&[0x05]));
}

#[test]
fn missing_subject_unique_id_is_reported() {
    let mut tbs = generic(&[1]);
    tbs.subject_unique_id = None;
    assert_eq!(
        IdCertTbs::try_from(tbs).unwrap_err(),
        Error::TbsCertToIdCert(TbsCertToIdCert::SubjectUid)
    );
}

#[test]
fn missing_extensions_are_reported() {
    let mut tbs = generic(&[1]);
    tbs.extensions = None;
    assert_eq!(
        IdCertTbs::try_from(tbs).unwrap_err(),
        Error::TbsCertToIdCert(TbsCertToIdCert::Extensions)
    );
    // An empty list of extensions is a list.
    let mut tbs = generic(&[1]);
    tbs.extensions = Some(vec![]);
    assert_eq!(IdCertTbs::try_from(tbs).unwrap().extensions, vec![]);
}

#[test]
fn the_first_defect_of_a_generic_certificate_is_reported() {
    // Invalid subject, no subject unique identifier, no extensions.
    let mut tbs = generic(&[1]);
    tbs.subject = Name::from_str("CN=alice").unwrap();
    tbs.subject_unique_id = None;
    tbs.extensions = None;
    assert_eq!(
        IdCertTbs::try_from(tbs).unwrap_err(),
        Error::ConstraintError(ConstraintError::OutOfBounds {
            lower: 1,
            upper: 255,
            actual: "0".to_string(),
            reason: Some("Domain Component is missing".to_string()),
        })
    );
    let mut tbs = generic(&[1]);
    tbs.subject_unique_id = None;
    tbs.extensions = None;
    assert_eq!(
        IdCertTbs::try_from(tbs).unwrap_err(),
        Error::TbsCertToIdCert(TbsCertToIdCert::SubjectUid)
    );
}

#[test]
fn the_issuer_is_not_validated() {
    let mut tbs = generic(&[1]);
    tbs.issuer = Name::from_str("O=somewhere").unwrap();
    assert!(IdCertTbs::try_from(tbs).is_ok());
}

#[test]
fn public_key_info_round_trips_through_the_generic_form() {
    let info = PublicKeyInfo {
        algorithm: algorithm(),
        public_key_bitstring: BitString::new(3, vec![0xa8]).unwrap(),
    };
    let generic = SubjectPublicKeyInfo::from(info.clone());
    assert_eq!(generic.algorithm, info.algorithm);
    assert_eq!(generic.subject_public_key, info.public_key_bitstring);
    assert_eq!(PublicKeyInfo::from(generic.clone()), info);
    assert_eq!(SubjectPublicKeyInfo::from(PublicKeyInfo::from(generic.clone())), generic);
}
