use polyproto::errors::{ConstraintError, Error, IdCertToTbsCert, InvalidInput, TbsCertToIdCert};

fn codec_error() -> der::Error {
    der::ErrorKind::Overlength.into()
}

#[test]
fn constraint_errors_are_built_from_their_parts() {
    assert_eq!(
        ConstraintError::out_of_bounds(1, 32, "33".to_string(), "SessionId too long"),
        ConstraintError::OutOfBounds {
            lower: 1,
            upper: 32,
            actual: "33".to_string(),
            reason: Some("SessionId too long".to_string()),
        }
    );
    assert_eq!(
        ConstraintError::malformed("Actor CSR must be a CA"),
        ConstraintError::Malformed(Some("Actor CSR must be a CA".to_string()))
    );
}

#[test]
fn every_error_goes_into_the_error_of_the_library() {
    let constraint = ConstraintError::malformed("reason");
    assert_eq!(Error::from(constraint.clone()), Error::ConstraintError(constraint));
    assert_eq!(
        Error::from(TbsCertToIdCert::SubjectUid),
        Error::TbsCertToIdCert(TbsCertToIdCert::SubjectUid)
    );
    assert_eq!(
        Error::from(TbsCertToIdCert::Signature(codec_error())),
        Error::TbsCertToIdCert(TbsCertToIdCert::Signature(codec_error()))
    );
    assert_eq!(
        Error::from(IdCertToTbsCert::SerialNumber(codec_error())),
        Error::IdCertToTbsCert(IdCertToTbsCert::SerialNumber(codec_error()))
    );
    assert_eq!(
        Error::from(InvalidInput::Unrepresentable),
        Error::InvalidInput(InvalidInput::Unrepresentable)
    );
    assert_eq!(Error::from(codec_error()), Error::DerError(codec_error()));
}

#[test]
fn errors_of_different_kinds_differ() {
    assert_ne!(
        Error::TbsCertToIdCert(TbsCertToIdCert::SubjectUid),
        Error::TbsCertToIdCert(TbsCertToIdCert::Extensions)
    );
    assert_ne!(
        Error::InvalidInput(InvalidInput::KeyUsageValue),
        Error::InvalidInput(InvalidInput::BasicConstraintsValue)
    );
    assert_ne!(
        ConstraintError::Malformed(None),
        ConstraintError::Malformed(Some(String::new()))
    );
}
