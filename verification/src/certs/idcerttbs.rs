//! The to-be-signed body of a certificate of the profile.

use vstd::prelude::*;
use der::asn1::BitString;
use spki::AlgorithmIdentifierOwned;
use x509_cert::ext::Extension;
use x509_cert::name::Name;
use x509_cert::time::Validity;
use crate::certs::{generic_of, public_key_info_of, PublicKeyInfo};
use crate::constraints::{name_verdict, Constrained};
use crate::errors::{Error, ErrorView, IdCertToTbsCert, TbsCertToIdCert};
use crate::x509::certificate::{TbsCertificate, TbsCertificateView, Version};
use crate::x509::integer::{
    is_stripped, lemma_signed_form_round_trip, lemma_strip_is_stripped, serial_number_error,
    signed_form, strip_leading_zeros, uint_error, SerialNumber, Uint, MAX_INTEGER_LEN,
    MAX_SERIAL_LEN,
};
use crate::x509::name::name_contents;
use crate::x509::SubjectPublicKeyInfo;

verus! {

/// An unsigned certificate of the profile. It is more restrictive than the
/// generic certificate of X.509: the subject is a valid name of the profile,
/// the subject unique identifier is there and carries the session
/// identifier, and the extensions are there.
///
/// An authority comes by one when it signs its own certificate, an actor in
/// exchange for a certificate signing request.
#[derive(Debug, PartialEq, Eq)]
pub struct IdCertTbs {
    /// The serial number that the authority gave the certificate.
    pub serial_number: Uint,
    /// The algorithm with which the authority signs the certificate.
    pub signature_algorithm: AlgorithmIdentifierOwned,
    /// The name of the issuer.
    pub issuer: Name,
    /// The period in which the certificate is valid.
    pub validity: Validity,
    /// The name of the subject.
    pub subject: Name,
    /// The public key of the subject.
    pub subject_public_key_info: PublicKeyInfo,
    /// The session identifier of the client. No two valid certificates carry
    /// the same one.
    pub subject_session_id: BitString,
    /// The extensions of X.509 that the profile asks for.
    pub extensions: Vec<Extension>,
}

/// The mathematical form of an [`IdCertTbs`].
pub struct IdCertTbsView {
    pub serial_number: Seq<u8>,
    pub signature_algorithm: AlgorithmIdentifierOwned,
    pub issuer: Name,
    pub validity: Validity,
    pub subject: Name,
    pub subject_public_key_info: PublicKeyInfo,
    pub subject_session_id: BitString,
    pub extensions: Seq<Extension>,
}

impl View for IdCertTbs {
    type V = IdCertTbsView;

    open spec fn view(&self) -> IdCertTbsView {
        IdCertTbsView {
            serial_number: self.serial_number@,
            signature_algorithm: self.signature_algorithm,
            issuer: self.issuer,
            validity: self.validity,
            subject: self.subject,
            subject_public_key_info: self.subject_public_key_info,
            subject_session_id: self.subject_session_id,
            extensions: self.extensions@,
        }
    }
}

/// The certificate of the profile that a generic certificate is read as, or
/// the first reason why it is none: the subject is validated, then the
/// subject unique identifier and the extensions are asked for, then the
/// serial number is read as an unsigned integer of the codec.
pub open spec fn id_cert_of(tbs: TbsCertificateView) -> Result<IdCertTbsView, ErrorView> {
    match name_verdict(name_contents(tbs.subject)) {
        Err(e) => Err(ErrorView::ConstraintError(e)),
        Ok(()) => match (tbs.subject_unique_id, tbs.extensions) {
            (None, _) => Err(ErrorView::TbsCertToIdCert(TbsCertToIdCert::SubjectUid)),
            (Some(_), None) => Err(ErrorView::TbsCertToIdCert(TbsCertToIdCert::Extensions)),
            (Some(subject_session_id), Some(extensions)) => {
                if strip_leading_zeros(tbs.serial_number).len() > MAX_INTEGER_LEN {
                    Err(
                        ErrorView::TbsCertToIdCert(
                            TbsCertToIdCert::Signature(uint_error(tbs.serial_number)),
                        ),
                    )
                } else {
                    Ok(
                        IdCertTbsView {
                            serial_number: strip_leading_zeros(tbs.serial_number),
                            signature_algorithm: tbs.signature,
                            issuer: tbs.issuer,
                            validity: tbs.validity,
                            subject: tbs.subject,
                            subject_public_key_info: public_key_info_of(
                                tbs.subject_public_key_info,
                            ),
                            subject_session_id,
                            extensions,
                        },
                    )
                }
            },
        },
    }
}

/// The generic certificate that stands for a certificate of the profile:
/// version 3, no issuer unique identifier, the session identifier as the
/// subject unique identifier, and the extensions. There is none where the
/// serial number does not fit the 20 bytes of the generic profile; the error
/// is that of the X.509 crate.
pub open spec fn tbs_of(cert: IdCertTbsView) -> Result<TbsCertificateView, IdCertToTbsCert> {
    let serial_number = signed_form(strip_leading_zeros(cert.serial_number));
    if serial_number.len() > MAX_SERIAL_LEN {
        Err(IdCertToTbsCert::SerialNumber(serial_number_error(cert.serial_number)))
    } else {
        Ok(
            TbsCertificateView {
                version: Version::V3,
                serial_number,
                signature: cert.signature_algorithm,
                issuer: cert.issuer,
                validity: cert.validity,
                subject: cert.subject,
                subject_public_key_info: generic_of(cert.subject_public_key_info),
                issuer_unique_id: None,
                subject_unique_id: Some(cert.subject_session_id),
                extensions: Some(cert.extensions),
            },
        )
    }
}

/// The view of a certificate of the profile or of the error in its place.
pub open spec fn cert_view(r: Result<IdCertTbs, Error>) -> Result<IdCertTbsView, ErrorView> {
    match r {
        Ok(cert) => Ok(cert@),
        Err(e) => Err(e@),
    }
}

/// The view of a generic certificate or of the error in its place.
pub open spec fn tbs_view(r: Result<TbsCertificate, IdCertToTbsCert>) -> Result<
    TbsCertificateView,
    IdCertToTbsCert,
> {
    match r {
        Ok(tbs) => Ok(tbs@),
        Err(e) => Err(e),
    }
}

impl TryFrom<TbsCertificate> for IdCertTbs {
    type Error = Error;

    /// Reads a generic to-be-signed certificate as one of the profile.
    fn try_from(value: TbsCertificate) -> (r: Result<Self, Error>)
        ensures
            cert_view(r) == id_cert_of(value@),
            r matches Ok(made) ==> is_stripped(made@.serial_number),
    {
        match value.subject.validate() {
            Ok(()) => {},
            Err(e) => {
                return Err(Error::ConstraintError(e));
            },
        }
        let subject_unique_id = match value.subject_unique_id {
            Some(suid) => suid,
            None => {
                return Err(Error::TbsCertToIdCert(TbsCertToIdCert::SubjectUid));
            },
        };
        let extensions = match value.extensions {
            Some(ext) => ext,
            None => {
                return Err(Error::TbsCertToIdCert(TbsCertToIdCert::Extensions));
            },
        };
        let subject_public_key_info = PublicKeyInfo::from(value.subject_public_key_info);
        let serial_number = match Uint::new(value.serial_number.as_bytes()) {
            Ok(snum) => snum,
            Err(e) => {
                return Err(Error::TbsCertToIdCert(TbsCertToIdCert::Signature(e)));
            },
        };
        Ok(
            IdCertTbs {
                serial_number,
                signature_algorithm: value.signature,
                issuer: value.issuer,
                validity: value.validity,
                subject: value.subject,
                subject_public_key_info,
                subject_session_id: subject_unique_id,
                extensions,
            },
        )
    }
}

impl vstd::std_specs::convert::TryFromSpecImpl<TbsCertificate> for IdCertTbs {
    open spec fn obeys_try_from_spec() -> bool {
        false
    }

    open spec fn try_from_spec(value: TbsCertificate) -> Result<Self, Error> {
        arbitrary()
    }
}

impl TryFrom<IdCertTbs> for TbsCertificate {
    type Error = IdCertToTbsCert;

    /// The generic to-be-signed certificate that stands for one of the
    /// profile. It fails where the serial number does not fit the generic
    /// profile, and only there.
    fn try_from(value: IdCertTbs) -> (r: Result<Self, IdCertToTbsCert>)
        ensures
            tbs_view(r) == tbs_of(value@),
    {
        let serial_number = match SerialNumber::new(value.serial_number.as_bytes()) {
            Ok(sernum) => sernum,
            Err(e) => {
                return Err(IdCertToTbsCert::SerialNumber(e));
            },
        };
        Ok(
            TbsCertificate {
                version: Version::V3,
                serial_number,
                signature: value.signature_algorithm,
                issuer: value.issuer,
                validity: value.validity,
                subject: value.subject,
                subject_public_key_info: SubjectPublicKeyInfo::from(
                    value.subject_public_key_info,
                ),
                issuer_unique_id: None,
                subject_unique_id: Some(value.subject_session_id),
                extensions: Some(value.extensions),
            },
        )
    }
}

impl vstd::std_specs::convert::TryFromSpecImpl<IdCertTbs> for TbsCertificate {
    open spec fn obeys_try_from_spec() -> bool {
        false
    }

    open spec fn try_from_spec(value: IdCertTbs) -> Result<Self, IdCertToTbsCert> {
        arbitrary()
    }
}

/// A certificate of the profile with a valid subject and a serial number in
/// its stripped form, once it has a generic form, is read back from that form
/// unchanged: serial number, algorithm, issuer, validity, subject, key,
/// session identifier and extensions are all the same.
pub proof fn lemma_id_cert_round_trip(cert: IdCertTbsView)
    requires
        is_stripped(cert.serial_number),
        name_verdict(name_contents(cert.subject)) is Ok,
        tbs_of(cert) is Ok,
    ensures
        id_cert_of(tbs_of(cert)->Ok_0) == Ok::<IdCertTbsView, ErrorView>(cert),
{
    lemma_signed_form_round_trip(cert.serial_number);
    let tbs = tbs_of(cert)->Ok_0;
    assert(strip_leading_zeros(tbs.serial_number) == cert.serial_number);
    assert(tbs.serial_number.len() <= MAX_SERIAL_LEN);
    lemma_strip_is_stripped(tbs.serial_number);
}

} // verus!
