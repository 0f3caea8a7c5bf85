//! The generic PKCS #10 structures: the attributes of a request, the request
//! body, the signed request, and their encoding.

use vstd::prelude::*;
use der::asn1::BitString;
use der::{Decode, Encode, Tagged};
use spki::AlgorithmIdentifierOwned;
use x509_cert::name::Name;
use crate::x509::{copy_algorithm, AttributeValue, AttributeValueView, SubjectPublicKeyInfo};

verus! {

/// One attribute of a request as plain data: the arcs of its object
/// identifier and its values.
#[derive(Debug, PartialEq, Eq)]
pub struct Attribute {
    pub oid: Vec<u32>,
    pub values: Vec<AttributeValue>,
}

/// The mathematical form of an [`Attribute`].
pub struct AttributeView {
    pub oid: Seq<u32>,
    pub values: Seq<AttributeValueView>,
}

impl DeepView for Attribute {
    type V = AttributeView;

    open spec fn deep_view(&self) -> AttributeView {
        AttributeView { oid: self.oid@, values: self.values.deep_view() }
    }
}

/// The attributes of a request: a set, kept by the codec in the order of the
/// encodings of its members.
#[verifier::external_body]
#[derive(Debug, PartialEq, Eq)]
pub struct Attributes {
    inner: x509_cert::attr::Attributes,
}

impl Clone for Attributes {
    /// `Clone` of the codec's set: an equal set.
    #[verifier::external_body]
    fn clone(&self) -> (copy: Self)
        ensures
            copy == *self,
    {
        Attributes { inner: self.inner.clone() }
    }
}

/// What a set of attributes holds, in the order in which the set stores its
/// members and each member its values.
pub uninterp spec fn attributes_contents(attributes: Attributes) -> Seq<AttributeView>;

/// The set that the codec makes of attributes given as plain values, put in
/// one after the other, or the error with which it refuses the first that it
/// refuses.
pub uninterp spec fn attributes_made(members: Seq<AttributeView>) -> Result<Attributes, der::Error>;

impl Attributes {
    /// Makes a set of the attributes `members`: each is made with
    /// `ObjectIdentifier::from_arcs`, `Tag::try_from` and `Any::new`, and put
    /// into the set with `SetOfVec::insert`, its values likewise into theirs.
    /// The codec refuses an identifier or a tag that is none, and a member or
    /// a value that its set has already. What comes out is what contracts
    /// call [`attributes_made`].
    #[verifier::external_body]
    pub(crate) fn of_members(members: &Vec<Attribute>) -> (r: Result<Attributes, der::Error>)
        ensures
            r == attributes_made(members.deep_view()),
    {
        let mut inner = der::asn1::SetOfVec::new();
        for a in members.iter() {
            let mut values = der::asn1::SetOfVec::new();
            for v in a.values.iter() {
                values.insert(der::asn1::Any::new(der::Tag::try_from(v.tag)?, v.value.as_slice())?)?;
            }
            let oid = der::asn1::ObjectIdentifier::from_arcs(a.oid.iter().copied())?;
            inner.insert(x509_cert::attr::Attribute { oid, values })?;
        }
        Ok(Attributes { inner })
    }

    /// Hands out the members of the set as plain values, each object
    /// identifier by `ObjectIdentifier::arcs`, each value by `Any::tag`,
    /// `Tag::octet` and `Any::value`. What comes out is what contracts call
    /// [`attributes_contents`].
    #[verifier::external_body]
    pub(crate) fn list(&self) -> (members: Vec<Attribute>)
        ensures
            members.deep_view() == attributes_contents(*self),
    {
        self.inner.iter().map(|a| Attribute {
            oid: a.oid.arcs().collect(),
            values: a.values.iter().map(|v| AttributeValue {
                tag: v.tag().octet(),
                value: v.value().to_vec(),
            }).collect(),
        }).collect()
    }

    /// The members of the set as plain values, in the order in which the set
    /// stores them.
    pub fn members(&self) -> (members: Vec<Attribute>)
        ensures
            members.deep_view() == attributes_contents(*self),
    {
        self.list()
    }
}

/// The version of a certification request. PKCS #10 knows one.
#[derive(Debug, Clone, Copy, PartialEq, Eq)]
pub enum RequestVersion {
    V1,
}

/// The generic `CertificationRequestInfo` of PKCS #10.
#[derive(Debug, PartialEq, Eq)]
pub struct CertReqInfo {
    pub version: RequestVersion,
    pub subject: Name,
    pub public_key: SubjectPublicKeyInfo,
    pub attributes: Attributes,
}

impl Clone for CertReqInfo {
    fn clone(&self) -> (copy: Self)
        ensures
            copy == *self,
    {
        CertReqInfo {
            version: self.version,
            subject: self.subject.clone(),
            public_key: self.public_key.clone(),
            attributes: self.attributes.clone(),
        }
    }
}

/// The generic `CertificationRequest` of PKCS #10.
#[derive(Debug, PartialEq, Eq)]
pub struct CertReq {
    pub info: CertReqInfo,
    pub algorithm: AlgorithmIdentifierOwned,
    pub signature: BitString,
}

impl Clone for CertReq {
    fn clone(&self) -> (copy: Self)
        ensures
            copy == *self,
    {
        CertReq {
            info: self.info.clone(),
            algorithm: copy_algorithm(&self.algorithm),
            signature: self.signature.clone(),
        }
    }
}

/// The DER encoding of a request body, or why the codec gives none.
pub uninterp spec fn cert_req_info_der(info: CertReqInfo) -> Result<Seq<u8>, der::Error>;

/// The request body that bytes are the DER encoding of, or why the codec
/// reads none.
pub uninterp spec fn cert_req_info_parsed(bytes: Seq<u8>) -> Result<CertReqInfo, der::Error>;

/// The DER encoding of a signed request, or why the codec gives none.
pub uninterp spec fn cert_req_der(request: CertReq) -> Result<Seq<u8>, der::Error>;

/// The signed request that bytes are the DER encoding of, or why the codec
/// reads none.
pub uninterp spec fn cert_req_parsed(bytes: Seq<u8>) -> Result<CertReq, der::Error>;

/// The view of an encoding or of the codec's error.
pub open spec fn encoding_view(r: Result<Vec<u8>, der::Error>) -> Result<Seq<u8>, der::Error> {
    match r {
        Ok(bytes) => Ok(bytes@),
        Err(e) => Err(e),
    }
}

/// `Encode::to_der` of the X.509 crate's `CertReqInfo` with these fields.
#[verifier::external_body]
pub(crate) fn encode_cert_req_info(info: &CertReqInfo) -> (r: Result<Vec<u8>, der::Error>)
    ensures
        encoding_view(r) == cert_req_info_der(*info),
{
    x509_cert::request::CertReqInfo {
        version: x509_cert::request::Version::V1,
        subject: info.subject.clone(),
        public_key: spki::SubjectPublicKeyInfoOwned {
            algorithm: info.public_key.algorithm.clone(),
            subject_public_key: info.public_key.subject_public_key.clone(),
        },
        attributes: info.attributes.inner.clone(),
    }.to_der()
}

/// `Decode::from_der` of the X.509 crate's `CertReqInfo`, its fields moved
/// into the library's form.
#[verifier::external_body]
pub(crate) fn decode_cert_req_info(bytes: &[u8]) -> (r: Result<CertReqInfo, der::Error>)
    ensures
        r == cert_req_info_parsed(bytes@),
{
    let info = x509_cert::request::CertReqInfo::from_der(bytes)?;
    Ok(CertReqInfo {
        version: RequestVersion::V1,
        subject: info.subject,
        public_key: SubjectPublicKeyInfo {
            algorithm: info.public_key.algorithm,
            subject_public_key: info.public_key.subject_public_key,
        },
        attributes: Attributes { inner: info.attributes },
    })
}

/// `Encode::to_der` of the X.509 crate's `CertReq` with these fields.
#[verifier::external_body]
pub(crate) fn encode_cert_req(request: &CertReq) -> (r: Result<Vec<u8>, der::Error>)
    ensures
        encoding_view(r) == cert_req_der(*request),
{
    let info = x509_cert::request::CertReqInfo {
        version: x509_cert::request::Version::V1,
        subject: request.info.subject.clone(),
        public_key: spki::SubjectPublicKeyInfoOwned {
            algorithm: request.info.public_key.algorithm.clone(),
            subject_public_key: request.info.public_key.subject_public_key.clone(),
        },
        attributes: request.info.attributes.inner.clone(),
    };
    let (algorithm, signature) = (request.algorithm.clone(), request.signature.clone());
    x509_cert::request::CertReq { info, algorithm, signature }.to_der()
}

/// `Decode::from_der` of the X.509 crate's `CertReq`, its fields moved into
/// the library's form.
#[verifier::external_body]
pub(crate) fn decode_cert_req(bytes: &[u8]) -> (r: Result<CertReq, der::Error>)
    ensures
        r == cert_req_parsed(bytes@),
{
    let req = x509_cert::request::CertReq::from_der(bytes)?;
    let public_key = SubjectPublicKeyInfo {
        algorithm: req.info.public_key.algorithm,
        subject_public_key: req.info.public_key.subject_public_key,
    };
    let attributes = Attributes { inner: req.info.attributes };
    let info = CertReqInfo { version: RequestVersion::V1, subject: req.info.subject, public_key, attributes };
    Ok(CertReq { info, algorithm: req.algorithm, signature: req.signature })
}

} // verus!
