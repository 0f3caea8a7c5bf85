use std::str::FromStr;

use der::{Decode, Encode};
use polyproto::constraints::{validate_rdns, Constrained};
use polyproto::errors::ConstraintError;
use polyproto::x509::name::AttributeTypeAndValue;
use polyproto::x509::AttributeValue;
use x509_cert::name::Name;

const CN: &str = "2.5.4.3";
const DC: &str = "0.9.2342.19200300.100.1.25";
const UID: &str = "0.9.2342.19200300.100.1.1";
const UNIQUE_IDENTIFIER: &str = "0.9.2342.19200300.100.1.44";

fn utf8(oid: &str, text: &str) -> AttributeTypeAndValue {
    AttributeTypeAndValue {
        oid: oid.to_string(),
        value: AttributeValue { tag: 0x0C, value: text.as_bytes().to_vec() },
    }
}

fn common_name_error(actual: &str) -> ConstraintError {
    ConstraintError::OutOfBounds {
        lower: 1,
        upper: 1,
        actual: actual.to_string(),
        reason: Some(
            "Distinguished Names must include exactly one common name attribute.".to_string(),
        ),
    }
}

#[test]
fn correct() {
    let name = Name::from_str(
        "cn=flori,dc=localhost,uid=flori@localhost,uniqueIdentifier=h3g2jt4dhfgj8hjs",
    )
    .unwrap();
    name.validate().unwrap();
    let name = Name::from_str("CN=flori,DC=www,DC=polyphony,DC=chat").unwrap();
    name.validate().unwrap();
}

#[test]
fn no_domain_component() {
    let name = Name::from_str("CN=flori").unwrap();
    assert!(name.validate().is_err());
}

#[test]
fn two_cns() {
    let name = Name::from_str("CN=flori,CN=xenia,DC=localhost").unwrap();
    assert!(name.validate().is_err())
}

#[test]
fn two_uid_or_uniqueid() {
    let name = Name::from_str("CN=flori,CN=xenia,uid=numbaone,uid=numbatwo").unwrap();
    assert!(name.validate().is_err());
    let name =
        Name::from_str("CN=flori,CN=xenia,uniqueIdentifier=numbaone,uniqueIdentifier=numbatwo")
            .unwrap();
    assert!(name.validate().is_err())
}

#[test]
fn uid_and_no_uniqueid_or_uniqueid_and_no_uid() {
    let name = Name::from_str("CN=flori,CN=xenia,uid=numbaone").unwrap();
    assert!(name.validate().is_err());
    let name = Name::from_str("CN=flori,CN=xenia,uniqueIdentifier=numbaone").unwrap();
    assert!(name.validate().is_err())
}

#[test]
fn malformed_session_id_failes() {
    let name =
        Name::from_str("cn=flori,dc=localhost,uid=flori@localhost,uniqueIdentifier=").unwrap();
    assert!(name.validate().is_err());
    let name =
        Name::from_str("cn=flori,dc=localhost,uid=flori@localhost,uniqueIdentifier=123456789012345678901234567890123").unwrap();
    assert!(name.validate().is_err());
}

#[test]
fn two_common_names_report_the_second() {
    let name = Name::from_str("CN=a,CN=b,DC=x").unwrap();
    assert_eq!(name.validate().unwrap_err(), common_name_error("2"));
}

#[test]
fn second_common_name_fails_before_the_counts_are_judged() {
    // No domain component either, but the scan stops at the second common name.
    let name = Name::from_str("CN=a,CN=b").unwrap();
    assert_eq!(name.validate().unwrap_err(), common_name_error("2"));
}

#[test]
fn missing_common_name_fails() {
    let name = Name::from_str("DC=example,DC=com").unwrap();
    assert_eq!(name.validate().unwrap_err(), common_name_error("0"));
}

#[test]
fn missing_domain_component_reports_bounds() {
    let name = Name::from_str("CN=a").unwrap();
    assert_eq!(
        name.validate().unwrap_err(),
        ConstraintError::OutOfBounds {
            lower: 1,
            upper: 255,
            actual: "0".to_string(),
            reason: Some("Domain Component is missing".to_string()),
        }
    );
}

#[test]
fn uid_alone_fails() {
    let name = Name::from_str("CN=a,DC=x,UID=u").unwrap();
    assert_eq!(
        name.validate().unwrap_err(),
        ConstraintError::OutOfBounds {
            lower: 1,
            upper: 1,
            actual: "0".to_string(),
            reason: Some("Actors must have uniqueIdentifier AND UID, only UID found".to_string()),
        }
    );
}

#[test]
fn unique_identifier_alone_fails() {
    let name = Name::from_str("CN=a,DC=x,uniqueIdentifier=id").unwrap();
    assert_eq!(
        name.validate().unwrap_err(),
        ConstraintError::OutOfBounds {
            lower: 1,
            upper: 1,
            actual: "0".to_string(),
            reason: Some(
                "Actors must have uniqueIdentifier AND UID, only uniqueIdentifier found"
                    .to_string()
            ),
        }
    );
}

#[test]
fn uid_and_unique_identifier_together_pass() {
    let name = Name::from_str("CN=a,DC=x,UID=u,uniqueIdentifier=id").unwrap();
    assert_eq!(name.validate(), Ok(()));
    let longest = format!("CN=a,DC=x,UID=u,uniqueIdentifier={}", "i".repeat(32));
    assert_eq!(Name::from_str(&longest).unwrap().validate(), Ok(()));
}

#[test]
fn too_many_uids_report_their_number() {
    let name = Name::from_str("CN=a,DC=x,UID=u,UID=v,UID=w").unwrap();
    assert_eq!(
        name.validate().unwrap_err(),
        ConstraintError::OutOfBounds {
            lower: 0,
            upper: 1,
            actual: "3".to_string(),
            reason: Some("Too many UID components supplied".to_string()),
        }
    );
}

#[test]
fn too_many_unique_identifiers_report_their_number() {
    let name = Name::from_str("CN=a,DC=x,UID=u,uniqueIdentifier=i,uniqueIdentifier=j").unwrap();
    assert_eq!(
        name.validate().unwrap_err(),
        ConstraintError::OutOfBounds {
            lower: 0,
            upper: 1,
            actual: "2".to_string(),
            reason: Some("Too many uniqueIdentifier components supplied".to_string()),
        }
    );
}

#[test]
fn empty_session_id_in_name_reports_its_length() {
    let name = Name::from_str("cn=flori,dc=localhost,uid=flori@localhost,uniqueIdentifier=")
        .unwrap();
    assert_eq!(
        name.validate().unwrap_err(),
        ConstraintError::OutOfBounds {
            lower: 1,
            upper: 32,
            actual: "0".to_string(),
            reason: Some("SessionId too long".to_string()),
        }
    );
}

#[test]
fn long_session_id_in_name_reports_its_length() {
    let name = Name::from_str(
        "cn=flori,dc=localhost,uid=flori@localhost,uniqueIdentifier=123456789012345678901234567890123",
    )
    .unwrap();
    assert_eq!(
        name.validate().unwrap_err(),
        ConstraintError::OutOfBounds {
            lower: 1,
            upper: 32,
            actual: "33".to_string(),
            reason: Some("SessionId too long".to_string()),
        }
    );
}

#[test]
fn attributes_of_one_relative_distinguished_name_are_all_scanned() {
    let name = Name::from_str("CN=a+DC=x").unwrap();
    assert_eq!(name.validate(), Ok(()));
    let name = Name::from_str("CN=a+CN=b,DC=x").unwrap();
    assert_eq!(name.validate().unwrap_err(), common_name_error("2"));
}

#[test]
fn other_attributes_are_passed_over() {
    let name = Name::from_str("CN=a,OU=unit,O=org,DC=x").unwrap();
    assert_eq!(name.validate(), Ok(()));
}

#[test]
fn empty_name_has_no_common_name() {
    assert_eq!(Name::default().validate().unwrap_err(), common_name_error("0"));
    assert_eq!(validate_rdns(&Vec::new()).unwrap_err(), common_name_error("0"));
}

#[test]
fn plain_attributes_validate_like_names() {
    let rdns = vec![
        vec![utf8(DC, "com")],
        vec![utf8(DC, "example")],
        vec![utf8(CN, "alice"), utf8(UID, "alice@example.com")],
        vec![utf8(UNIQUE_IDENTIFIER, "abc123")],
    ];
    assert_eq!(validate_rdns(&rdns), Ok(()));
}

#[test]
fn session_id_that_is_no_utf8_string_is_malformed() {
    let undecodable = ConstraintError::Malformed(Some(
        "Tried to decode SessionID as String and failed".to_string(),
    ));
    // An IA5String is no UTF8String, whatever its bytes.
    let mut other_tag = utf8(UNIQUE_IDENTIFIER, "abc123");
    other_tag.value.tag = 0x16;
    let rdns = vec![vec![utf8(CN, "a")], vec![utf8(DC, "x")], vec![utf8(UID, "u")], vec![other_tag]];
    assert_eq!(validate_rdns(&rdns).unwrap_err(), undecodable);
    // Bytes that are no UTF-8 do not decode.
    let mut bad_bytes = utf8(UNIQUE_IDENTIFIER, "abc123");
    bad_bytes.value.value = vec![0xff, 0xfe];
    let rdns = vec![vec![utf8(CN, "a")], vec![utf8(DC, "x")], vec![utf8(UID, "u")], vec![bad_bytes]];
    assert_eq!(validate_rdns(&rdns).unwrap_err(), undecodable);
    // A tag that the codec does not know does not decode either.
    let mut unknown_tag = utf8(UNIQUE_IDENTIFIER, "abc123");
    unknown_tag.value.tag = 0x1F;
    let rdns = vec![vec![unknown_tag]];
    assert_eq!(validate_rdns(&rdns).unwrap_err(), undecodable);
}

#[test]
fn first_error_of_the_scan_wins() {
    // The bad session identifier comes before the second common name.
    let rdns = vec![
        vec![utf8(CN, "a")],
        vec![utf8(UNIQUE_IDENTIFIER, "")],
        vec![utf8(CN, "b")],
    ];
    assert_eq!(
        validate_rdns(&rdns).unwrap_err(),
        ConstraintError::OutOfBounds {
            lower: 1,
            upper: 32,
            actual: "0".to_string(),
            reason: Some("SessionId too long".to_string()),
        }
    );
    // The other way round, the second common name comes first.
    let rdns = vec![
        vec![utf8(CN, "a")],
        vec![utf8(CN, "b")],
        vec![utf8(UNIQUE_IDENTIFIER, "")],
    ];
    assert_eq!(validate_rdns(&rdns).unwrap_err(), common_name_error("2"));
}

#[test]
fn names_that_were_parsed_from_der_validate_too() {
    let name = Name::from_str("CN=alice,DC=example,DC=com,UID=alice@example.com,uniqueIdentifier=abc123")
        .unwrap();
    let again = Name::from_der(&name.to_der().unwrap()).unwrap();
    assert_eq!(again.validate(), Ok(()));
}
