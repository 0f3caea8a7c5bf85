//! The generic to-be-signed certificate of X.509.

use vstd::prelude::*;
use der::asn1::BitString;
use spki::AlgorithmIdentifierOwned;
use x509_cert::ext::Extension;
use x509_cert::name::Name;
use x509_cert::time::Validity;
use crate::x509::integer::SerialNumber;
use crate::x509::SubjectPublicKeyInfo;

verus! {

/// The version of an X.509 certificate.
#[derive(Debug, Clone, Copy, PartialEq, Eq, Structural)]
pub enum Version {
    V1,
    V2,
    V3,
}

/// The generic `TBSCertificate` of X.509:
///
/// ```text
/// TBSCertificate  ::=  SEQUENCE  {
///     version         [0]  EXPLICIT Version DEFAULT v1,
///     serialNumber         CertificateSerialNumber,
///     signature            AlgorithmIdentifier,
///     issuer               Name,
///     validity             Validity,
///     subject              Name,
///     subjectPublicKeyInfo SubjectPublicKeyInfo,
///     issuerUniqueID  [1]  IMPLICIT UniqueIdentifier OPTIONAL,
///     subjectUniqueID [2]  IMPLICIT UniqueIdentifier OPTIONAL,
///     extensions      [3]  Extensions OPTIONAL
/// }
/// ```
#[derive(Debug, PartialEq, Eq)]
pub struct TbsCertificate {
    pub version: Version,
    pub serial_number: SerialNumber,
    pub signature: AlgorithmIdentifierOwned,
    pub issuer: Name,
    pub validity: Validity,
    pub subject: Name,
    pub subject_public_key_info: SubjectPublicKeyInfo,
    pub issuer_unique_id: Option<BitString>,
    pub subject_unique_id: Option<BitString>,
    pub extensions: Option<Vec<Extension>>,
}

/// The mathematical form of a [`TbsCertificate`].
pub struct TbsCertificateView {
    pub version: Version,
    pub serial_number: Seq<u8>,
    pub signature: AlgorithmIdentifierOwned,
    pub issuer: Name,
    pub validity: Validity,
    pub subject: Name,
    pub subject_public_key_info: SubjectPublicKeyInfo,
    pub issuer_unique_id: Option<BitString>,
    pub subject_unique_id: Option<BitString>,
    pub extensions: Option<Seq<Extension>>,
}

impl View for TbsCertificate {
    type V = TbsCertificateView;

    open spec fn view(&self) -> TbsCertificateView {
        TbsCertificateView {
            version: self.version,
            serial_number: self.serial_number@,
            signature: self.signature,
            issuer: self.issuer,
            validity: self.validity,
            subject: self.subject,
            subject_public_key_info: self.subject_public_key_info,
            issuer_unique_id: self.issuer_unique_id,
            subject_unique_id: self.subject_unique_id,
            extensions: match self.extensions {
                Some(extensions) => Some(extensions@),
                None => None,
            },
        }
    }
}

} // verus!
