//! Certificate signing requests of the profile, unsigned and signed.

use vstd::prelude::*;
use std::marker::PhantomData;
use spki::AlgorithmIdentifierOwned;
use x509_cert::name::Name;
use der::asn1::BitString;
use crate::certs::attributes::{attributes_of, capabilities_in};
use crate::certs::capabilities::{Capabilities, CapabilitiesView, KeyUsage};
use crate::certs::{
    generic_of, lemma_public_key_info_round_trip, public_key_info_of, PkcsVersion, PublicKeyInfo,
};
use crate::constraints::{capabilities_verdict, name_verdict, Constrained};
use crate::errors::{
    lifted, outcome_view, ConstraintError, ConstraintErrorView, Error, ErrorView, InvalidInput,
};
use crate::key::{PrivateKey, PublicKey};
use crate::signature::{Signature, SignatureAlgorithm};
use crate::x509::name::name_contents;
use crate::x509::request::{
    cert_req_der, cert_req_info_der, cert_req_info_parsed, cert_req_parsed, decode_cert_req,
    decode_cert_req_info, encode_cert_req, encode_cert_req_info, Attributes, CertReq, CertReqInfo,
    RequestVersion,
};
use crate::x509::{
    bit_string_bytes, bit_string_reencoded, copy_algorithm, raw_bytes, reencode,
    SubjectPublicKeyInfo,
};

verus! {

/// The body of a certificate signing request, the `CertificationRequestInfo`
/// of PKCS #10:
///
/// ```text
/// CertificationRequestInfo ::= SEQUENCE {
///     version       INTEGER { v1(0) } (v1,...),
///     subject       Name,
///     subjectPKInfo SubjectPublicKeyInfo{{ PKInfoAlgorithms }},
///     attributes    [0] Attributes{{ CRIAttributes }}
/// }
/// ```
#[derive(Debug, PartialEq, Eq)]
pub struct IdCsrInner<S: Signature> {
    /// The version of PKCS #10.
    pub version: PkcsVersion,
    /// The name of the subject.
    pub subject: Name,
    /// The public key of the subject.
    pub subject_public_key_info: PublicKeyInfo,
    /// What the subject asks to be allowed to do.
    pub capabilities: Capabilities,
    /// The signature scheme of the request, held in the type alone.
    pub phantom_data: PhantomData<S>,
}

/// The mathematical form of an [`IdCsrInner`]. The marker of the signature
/// scheme has one value and is left out.
pub struct IdCsrInnerView {
    pub version: PkcsVersion,
    pub subject: Name,
    pub subject_public_key_info: PublicKeyInfo,
    pub capabilities: CapabilitiesView,
}

impl<S: Signature> View for IdCsrInner<S> {
    type V = IdCsrInnerView;

    open spec fn view(&self) -> IdCsrInnerView {
        IdCsrInnerView {
            version: self.version,
            subject: self.subject,
            subject_public_key_info: self.subject_public_key_info,
            capabilities: self.capabilities@,
        }
    }
}

impl<S: Signature> Clone for IdCsrInner<S> {
    fn clone(&self) -> (copy: Self)
        ensures
            copy@ == self@,
    {
        IdCsrInner {
            version: self.version,
            subject: self.subject.clone(),
            subject_public_key_info: self.subject_public_key_info.clone(),
            capabilities: self.capabilities.clone(),
            phantom_data: PhantomData,
        }
    }
}

/// A signed certificate signing request, the `CertificationRequest` of
/// PKCS #10:
///
/// ```text
/// CertificationRequest ::= SEQUENCE {
///     certificationRequestInfo CertificationRequestInfo,
///     signatureAlgorithm AlgorithmIdentifier{{ SignatureAlgorithms }},
///     signature          BIT STRING
/// }
/// ```
#[derive(Debug, PartialEq, Eq)]
pub struct IdCsr<S: Signature> {
    /// The body of the request.
    pub inner_csr: IdCsrInner<S>,
    /// The algorithm of the signature.
    pub signature_algorithm: AlgorithmIdentifierOwned,
    /// The signature over the DER encoding of the body.
    pub signature: S,
}

impl<S: Signature + Clone> Clone for IdCsr<S> {
    fn clone(&self) -> (copy: Self)
        ensures
            copy@.inner_csr == self@.inner_csr,
            copy@.signature_algorithm == self@.signature_algorithm,
    {
        IdCsr {
            inner_csr: self.inner_csr.clone(),
            signature_algorithm: copy_algorithm(&self.signature_algorithm),
            signature: self.signature.clone(),
        }
    }
}

/// The mathematical form of an [`IdCsr`].
pub struct IdCsrView<S> {
    pub inner_csr: IdCsrInnerView,
    pub signature_algorithm: AlgorithmIdentifierOwned,
    pub signature: S,
}

impl<S: Signature> View for IdCsr<S> {
    type V = IdCsrView<S>;

    open spec fn view(&self) -> IdCsrView<S> {
        IdCsrView {
            inner_csr: self.inner_csr@,
            signature_algorithm: self.signature_algorithm,
            signature: self.signature,
        }
    }
}

/// What validating the subject and then the capabilities yields.
pub open spec fn request_verdict(subject: Name, capabilities: CapabilitiesView) -> Result<
    (),
    ConstraintErrorView,
> {
    match name_verdict(name_contents(subject)) {
        Err(e) => Err(e),
        Ok(()) => capabilities_verdict(capabilities),
    }
}

/// The error for the request of an actor that declares an authority.
pub open spec fn actor_is_ca_error() -> ConstraintErrorView {
    ConstraintErrorView::Malformed(Some("Actor CSR must not be a CA"@))
}

/// The error for the request of a home server that declares no authority.
pub open spec fn home_server_is_no_ca_error() -> ConstraintErrorView {
    ConstraintErrorView::Malformed(Some("Actor CSR must be a CA"@))
}

/// What holding a request to the rules for actors yields: subject and
/// capabilities are to be valid, and no authority declared.
pub open spec fn actor_csr_verdict(request: IdCsrInnerView) -> Result<(), ErrorView> {
    match request_verdict(request.subject, request.capabilities) {
        Err(e) => Err(ErrorView::ConstraintError(e)),
        Ok(()) => if request.capabilities.is_ca() {
            Err(ErrorView::ConstraintError(actor_is_ca_error()))
        } else {
            Ok(())
        },
    }
}

/// What holding a request to the rules for home servers yields: subject and
/// capabilities are to be valid, and an authority declared.
pub open spec fn home_server_csr_verdict(request: IdCsrInnerView) -> Result<(), ErrorView> {
    match request_verdict(request.subject, request.capabilities) {
        Err(e) => Err(ErrorView::ConstraintError(e)),
        Ok(()) => if !request.capabilities.is_ca() {
            Err(ErrorView::ConstraintError(home_server_is_no_ca_error()))
        } else {
            Ok(())
        },
    }
}

/// The codec's error as an error of the library.
pub open spec fn lifted_der<T>(r: Result<T, der::Error>) -> Result<T, ErrorView> {
    match r {
        Ok(value) => Ok(value),
        Err(e) => Err(ErrorView::DerError(e)),
    }
}

/// The generic body that stands for a body of the profile: the same subject
/// and key, and the set of attributes that stands for the capabilities.
pub open spec fn cert_req_info_of(request: IdCsrInnerView) -> Result<CertReqInfo, ErrorView> {
    match attributes_of(request.capabilities) {
        Err(e) => Err(e),
        Ok(attributes) => Ok(
            CertReqInfo {
                version: RequestVersion::V1,
                subject: request.subject,
                public_key: generic_of(request.subject_public_key_info),
                attributes,
            },
        ),
    }
}

/// The DER encoding of a body of the profile: that of the generic body that
/// stands for it.
pub open spec fn inner_der(request: IdCsrInnerView) -> Result<Seq<u8>, ErrorView> {
    match cert_req_info_of(request) {
        Err(e) => Err(e),
        Ok(info) => lifted_der(cert_req_info_der(info)),
    }
}

/// The body of the profile that a generic request body is read as: its
/// subject is to be valid, and its attributes are to stand for capabilities.
pub open spec fn id_csr_inner_of(info: CertReqInfo) -> Result<IdCsrInnerView, ErrorView> {
    match name_verdict(name_contents(info.subject)) {
        Err(e) => Err(ErrorView::ConstraintError(e)),
        Ok(()) => match capabilities_in(info.attributes) {
            Err(e) => Err(e),
            Ok(capabilities) => Ok(
                IdCsrInnerView {
                    version: PkcsVersion::V1,
                    subject: info.subject,
                    subject_public_key_info: public_key_info_of(info.public_key),
                    capabilities,
                },
            ),
        },
    }
}

/// The body that is made of a valid subject, the key that `info` describes
/// and valid capabilities: the bits of the key are encoded and decoded again.
pub open spec fn keyed_body(subject: Name, info: PublicKeyInfo, capabilities: CapabilitiesView)
    -> Result<IdCsrInnerView, ErrorView> {
    match bit_string_reencoded(info.public_key_bitstring) {
        Err(e) => Err(ErrorView::DerError(e)),
        Ok(public_key_bitstring) => Ok(
            IdCsrInnerView {
                version: PkcsVersion::V1,
                subject,
                subject_public_key_info: PublicKeyInfo {
                    algorithm: info.algorithm,
                    public_key_bitstring,
                },
                capabilities,
            },
        ),
    }
}

/// The signed request that is made of a generic body, the bytes that were
/// signed, an algorithm and a signature: its body is the generic body read as
/// one of the profile, and the bytes are to be the DER encoding of that body.
pub open spec fn sealed<S: Signature>(
    info: CertReqInfo,
    signed: Seq<u8>,
    signature_algorithm: AlgorithmIdentifierOwned,
    signature: S,
) -> Result<IdCsrView<S>, ErrorView> {
    match id_csr_inner_of(info) {
        Err(e) => Err(e),
        Ok(inner_csr) => if inner_der(inner_csr) == Ok::<Seq<u8>, ErrorView>(signed) {
            Ok(IdCsrView { inner_csr, signature_algorithm, signature })
        } else {
            Err(ErrorView::InvalidInput(InvalidInput::Unrepresentable))
        },
    }
}

/// Whether `r` is what signing a body with `signing_key` yields: the body
/// goes into its generic form, the key signs the DER encoding of that form,
/// and the request is sealed with the algorithm that the scheme declares.
pub open spec fn signed_by<S: Signature, K: PrivateKey<S::Algorithm, Signature = S>>(
    signing_key: K,
    body: Result<IdCsrInnerView, ErrorView>,
    r: Result<IdCsrView<S>, ErrorView>,
) -> bool {
    match body {
        Err(e) => r == Err::<IdCsrView<S>, ErrorView>(e),
        Ok(made) => match cert_req_info_of(made) {
            Err(e) => r == Err::<IdCsrView<S>, ErrorView>(e),
            Ok(info) => match cert_req_info_der(info) {
                Err(e) => r == Err::<IdCsrView<S>, ErrorView>(ErrorView::DerError(e)),
                Ok(encoding) => exists|algorithm: AlgorithmIdentifierOwned, signature: S|
                    {
                        &&& #[trigger] S::Algorithm::declares(algorithm)
                        &&& #[trigger] signing_key.signs(encoding, signature)
                        &&& r == sealed(info, encoding, algorithm, signature)
                    },
            },
        },
    }
}

/// Whether `r` is what asking `signing_key` for a request yields: the first
/// error of the validation of subject and capabilities, else the request
/// signed over the body with the public key of `signing_key`.
pub open spec fn requested<S: Signature, K: PrivateKey<S::Algorithm, Signature = S>>(
    signing_key: K,
    subject: Name,
    capabilities: CapabilitiesView,
    r: Result<IdCsrView<S>, ErrorView>,
) -> bool {
    match request_verdict(subject, capabilities) {
        Err(e) => r == Err::<IdCsrView<S>, ErrorView>(ErrorView::ConstraintError(e)),
        Ok(()) => exists|public: K::PublicKey, info: PublicKeyInfo|
            {
                &&& #[trigger] signing_key.belongs(public)
                &&& #[trigger] public.describes(info)
                &&& signed_by(signing_key, keyed_body(subject, info, capabilities), r)
            },
    }
}

/// The generic signed request that is made of a generic body, an algorithm
/// and what writing the signature as a bit string gave.
pub open spec fn assembled(
    info: CertReqInfo,
    algorithm: AlgorithmIdentifierOwned,
    written: Result<BitString, der::Error>,
) -> Result<CertReq, ErrorView> {
    match written {
        Err(e) => Err(ErrorView::DerError(e)),
        Ok(signature) => Ok(CertReq { info, algorithm, signature }),
    }
}

/// The DER encoding of the generic signed request made of these parts.
pub open spec fn signed_der(
    info: CertReqInfo,
    algorithm: AlgorithmIdentifierOwned,
    written: Result<BitString, der::Error>,
) -> Result<Seq<u8>, ErrorView> {
    match assembled(info, algorithm, written) {
        Err(e) => Err(e),
        Ok(request) => lifted_der(cert_req_der(request)),
    }
}

/// Whether `r` is what reading a generic signed request as one of the
/// profile yields: the body is read as by [`id_csr_inner_of`], the algorithm
/// is taken over, and the signature is read from the raw bytes of the bit
/// string.
pub open spec fn reads_as<S: Signature>(request: CertReq, r: Result<IdCsrView<S>, ErrorView>)
    -> bool {
    match id_csr_inner_of(request.info) {
        Err(e) => r == Err::<IdCsrView<S>, ErrorView>(e),
        Ok(inner_csr) => r matches Ok(csr) && {
            &&& csr.inner_csr == inner_csr
            &&& csr.signature_algorithm == request.algorithm
            &&& S::reads(bit_string_bytes(request.signature), csr.signature)
        },
    }
}

/// Whether `r` is what reading bytes as a signed request of the profile
/// yields: the error of the codec where they decode as no generic signed
/// request, else what reading that request yields.
pub open spec fn decoded_as<S: Signature>(bytes: Seq<u8>, r: Result<IdCsrView<S>, ErrorView>)
    -> bool {
    match cert_req_parsed(bytes) {
        Err(e) => r == Err::<IdCsrView<S>, ErrorView>(ErrorView::DerError(e)),
        Ok(request) => reads_as(request, r),
    }
}

/// Whether the codec reads a generic body back from its encoding, where it
/// has one.
pub open spec fn body_is_read_back(info: CertReqInfo) -> bool {
    cert_req_info_der(info) matches Ok(bytes) ==> cert_req_info_parsed(bytes) == Ok::<
        CertReqInfo,
        der::Error,
    >(info)
}

/// Whether the codec reads a generic signed request back from its encoding,
/// where it has one.
pub open spec fn request_is_read_back(request: CertReq) -> bool {
    cert_req_der(request) matches Ok(bytes) ==> cert_req_parsed(bytes) == Ok::<
        CertReq,
        der::Error,
    >(request)
}

/// The view of a request body or of the error in its place.
pub open spec fn inner_view<S: Signature>(r: Result<IdCsrInner<S>, Error>) -> Result<
    IdCsrInnerView,
    ErrorView,
> {
    match r {
        Ok(inner) => Ok(inner@),
        Err(e) => Err(e@),
    }
}

/// The view of a signed request or of the error in its place.
pub open spec fn csr_view<S: Signature>(r: Result<IdCsr<S>, Error>) -> Result<
    IdCsrView<S>,
    ErrorView,
> {
    match r {
        Ok(csr) => Ok(csr@),
        Err(e) => Err(e@),
    }
}

/// The view of an encoding or of the error in its place.
pub open spec fn der_view(r: Result<Vec<u8>, Error>) -> Result<Seq<u8>, ErrorView> {
    match r {
        Ok(bytes) => Ok(bytes@),
        Err(e) => Err(e@),
    }
}

/// The view of a generic structure or of the error in its place.
pub open spec fn generic_view<T>(r: Result<T, Error>) -> Result<T, ErrorView> {
    match r {
        Ok(value) => Ok(value),
        Err(e) => Err(e@),
    }
}

/// Validates a subject and then capabilities, as part of a larger operation.
fn validate_request(subject: &Name, capabilities: &Capabilities) -> (r: Result<(), Error>)
    ensures
        outcome_view(r) == lifted(request_verdict(*subject, capabilities@)),
{
    match subject.validate() {
        Ok(()) => {},
        Err(e) => {
            return Err(Error::ConstraintError(e));
        },
    }
    match capabilities.validate() {
        Ok(()) => Ok(()),
        Err(e) => Err(Error::ConstraintError(e)),
    }
}

/// Whether two runs of bytes are the same.
fn same_bytes(a: &[u8], b: &[u8]) -> (same: bool)
    ensures
        same == (a@ == b@),
{
    if a.len() != b.len() {
        return false;
    }
    let mut i: usize = 0;
    while i < a.len()
        invariant
            i <= a.len(),
            a.len() == b.len(),
            a@.take(i as int) == b@.take(i as int),
        decreases a.len() - i,
    {
        if a[i] != b[i] {
            return false;
        }
        assert(a@.take(i + 1) =~= a@.take(i as int).push(a@[i as int]));
        assert(b@.take(i + 1) =~= b@.take(i as int).push(b@[i as int]));
        i += 1;
    }
    assert(a@.take(i as int) =~= a@);
    assert(b@.take(i as int) =~= b@);
    true
}

impl CertReqInfo {
    /// The DER encoding of the generic body.
    pub fn to_der(&self) -> (r: Result<Vec<u8>, Error>)
        ensures
            der_view(r) == lifted_der(cert_req_info_der(*self)),
    {
        match encode_cert_req_info(self) {
            Ok(bytes) => Ok(bytes),
            Err(e) => Err(Error::DerError(e)),
        }
    }
}

impl CertReq {
    /// Makes a generic signed request of a generic body, an algorithm and
    /// what writing a signature as a bit string gave: the request with that
    /// bit string, or the error of the writing.
    pub fn assemble(
        info: CertReqInfo,
        algorithm: AlgorithmIdentifierOwned,
        written: Result<BitString, der::Error>,
    ) -> (r: Result<CertReq, Error>)
        ensures
            generic_view(r) == assembled(info, algorithm, written),
    {
        match written {
            Ok(signature) => Ok(CertReq { info, algorithm, signature }),
            Err(e) => Err(Error::DerError(e)),
        }
    }

    /// The DER encoding of the generic signed request.
    pub fn to_der(&self) -> (r: Result<Vec<u8>, Error>)
        ensures
            der_view(r) == lifted_der(cert_req_der(*self)),
    {
        match encode_cert_req(self) {
            Ok(bytes) => Ok(bytes),
            Err(e) => Err(Error::DerError(e)),
        }
    }
}

impl<S: Signature> IdCsrInner<S> {
    /// Makes the body of a request for `subject` with the public key
    /// `public_key` and `capabilities`. The subject and then the capabilities
    /// are validated, and the first error of the two is returned. After that
    /// the key is asked for its algorithm and bits, and the body is made with
    /// them; it fails only where the codec refuses to encode the bits and
    /// decode them again.
    pub fn new<P: PublicKey<S::Algorithm>>(
        subject: &Name,
        public_key: &P,
        capabilities: &Capabilities,
    ) -> (r: Result<IdCsrInner<S>, Error>)
        ensures
            match request_verdict(*subject, capabilities@) {
                Err(e) => inner_view(r) == Err::<IdCsrInnerView, ErrorView>(
                    ErrorView::ConstraintError(e),
                ),
                Ok(()) => exists|info: PublicKeyInfo| #[trigger]
                    public_key.describes(info) && inner_view(r) == keyed_body(
                        *subject,
                        info,
                        capabilities@,
                    ),
            },
            r matches Ok(inner) ==> public_key.describes(inner@.subject_public_key_info),
    {
        match validate_request(subject, capabilities) {
            Ok(()) => {},
            Err(e) => {
                return Err(e);
            },
        }
        let info = public_key.public_key_info();
        let public_key_bitstring = match reencode(&info.public_key_bitstring) {
            Ok(bits) => bits,
            Err(e) => {
                return Err(Error::DerError(e));
            },
        };
        Ok(
            IdCsrInner {
                version: PkcsVersion::V1,
                subject: subject.clone(),
                subject_public_key_info: PublicKeyInfo {
                    algorithm: info.algorithm,
                    public_key_bitstring,
                },
                capabilities: capabilities.clone(),
                phantom_data: PhantomData,
            },
        )
    }

    /// Reads the body of a request from its DER encoding: the bytes are to
    /// decode as a `CertificationRequestInfo`, and that is to read as a body
    /// of the profile.
    pub fn from_der(bytes: &[u8]) -> (r: Result<Self, Error>)
        ensures
            inner_view(r) == match cert_req_info_parsed(bytes@) {
                Err(e) => Err(ErrorView::DerError(e)),
                Ok(info) => id_csr_inner_of(info),
            },
    {
        match decode_cert_req_info(bytes) {
            Ok(info) => IdCsrInner::try_from(info),
            Err(e) => Err(Error::DerError(e)),
        }
    }

    /// The DER encoding of the body: that of the generic body that stands for
    /// it.
    pub fn to_der(self) -> (r: Result<Vec<u8>, Error>)
        ensures
            der_view(r) == inner_der(self@),
    {
        let info = match CertReqInfo::try_from(self) {
            Ok(info) => info,
            Err(e) => {
                return Err(e);
            },
        };
        info.to_der()
    }
}

impl<S: Signature> TryFrom<CertReqInfo> for IdCsrInner<S> {
    type Error = Error;

    /// Reads a generic request body as one of the profile: validates the
    /// subject and reads the capabilities from the attributes.
    fn try_from(value: CertReqInfo) -> (r: Result<Self, Error>)
        ensures
            inner_view(r) == id_csr_inner_of(value),
    {
        match value.subject.validate() {
            Ok(()) => {},
            Err(e) => {
                return Err(Error::ConstraintError(e));
            },
        }
        let capabilities = match Capabilities::try_from(value.attributes) {
            Ok(capabilities) => capabilities,
            Err(e) => {
                return Err(e);
            },
        };
        Ok(
            IdCsrInner {
                version: PkcsVersion::V1,
                subject: value.subject,
                subject_public_key_info: PublicKeyInfo {
                    algorithm: value.public_key.algorithm,
                    public_key_bitstring: value.public_key.subject_public_key,
                },
                capabilities,
                phantom_data: PhantomData,
            },
        )
    }
}

impl<S: Signature> vstd::std_specs::convert::TryFromSpecImpl<CertReqInfo> for IdCsrInner<S> {
    open spec fn obeys_try_from_spec() -> bool {
        false
    }

    open spec fn try_from_spec(value: CertReqInfo) -> Result<Self, Error> {
        arbitrary()
    }
}

impl<S: Signature> TryFrom<IdCsrInner<S>> for CertReqInfo {
    type Error = Error;

    /// The generic request body that stands for one of the profile. The
    /// capabilities go into a set of attributes; it fails where they have
    /// none.
    fn try_from(value: IdCsrInner<S>) -> (r: Result<Self, Error>)
        ensures
            generic_view(r) == cert_req_info_of(value@),
    {
        let attributes = match Attributes::try_from(value.capabilities) {
            Ok(attributes) => attributes,
            Err(e) => {
                return Err(e);
            },
        };
        Ok(
            CertReqInfo {
                version: RequestVersion::V1,
                subject: value.subject,
                public_key: SubjectPublicKeyInfo {
                    algorithm: value.subject_public_key_info.algorithm,
                    subject_public_key: value.subject_public_key_info.public_key_bitstring,
                },
                attributes,
            },
        )
    }
}

impl<S: Signature> vstd::std_specs::convert::TryFromSpecImpl<IdCsrInner<S>> for CertReqInfo {
    open spec fn obeys_try_from_spec() -> bool {
        false
    }

    open spec fn try_from_spec(value: IdCsrInner<S>) -> Result<Self, Error> {
        arbitrary()
    }
}

/// Capabilities that differ in the order of their key usages alone hold the
/// same usages, and so meet the same rules.
pub proof fn lemma_same_capabilities_same_verdict(a: CapabilitiesView, b: CapabilitiesView)
    requires
        a.same_as(b),
    ensures
        forall|usage: KeyUsage| a.has(usage) == b.has(usage),
        a.is_ca() == b.is_ca(),
        capabilities_verdict(a) == capabilities_verdict(b),
{
    a.key_usage.to_multiset_ensures();
    b.key_usage.to_multiset_ensures();
    assert forall|usage: KeyUsage| a.has(usage) == b.has(usage) by {
        assert(a.key_usage.to_multiset().count(usage) == b.key_usage.to_multiset().count(usage));
    }
}

/// A request never passes both as that of an actor and as that of a home
/// server; one whose subject and capabilities are valid passes as exactly one
/// of the two.
pub proof fn lemma_actor_or_home_server(request: IdCsrInnerView)
    ensures
        !(actor_csr_verdict(request) is Ok && home_server_csr_verdict(request) is Ok),
        request_verdict(request.subject, request.capabilities) is Ok ==> (actor_csr_verdict(
            request,
        ) is Ok || home_server_csr_verdict(request) is Ok),
{
}

/// The generic body that stands for a body with a valid subject is read back
/// as a body with the same subject and key, and the same capabilities but for
/// the order of the key usages.
pub proof fn lemma_body_read_back(request: IdCsrInnerView)
    requires
        name_verdict(name_contents(request.subject)) is Ok,
        cert_req_info_of(request) is Ok,
    ensures
        id_csr_inner_of(cert_req_info_of(request)->Ok_0) matches Ok(back) && {
            &&& back.version == PkcsVersion::V1
            &&& back.subject == request.subject
            &&& back.subject_public_key_info == request.subject_public_key_info
            &&& back.capabilities.same_as(request.capabilities)
        },
{
    lemma_public_key_info_round_trip(
        request.subject_public_key_info,
        generic_of(request.subject_public_key_info),
    );
}

/// A sealed request holds the body that the generic body is read as, and the
/// bytes that were signed are the DER encoding of that body.
pub proof fn lemma_sealed<S: Signature>(
    info: CertReqInfo,
    signed: Seq<u8>,
    signature_algorithm: AlgorithmIdentifierOwned,
    signature: S,
)
    requires
        sealed(info, signed, signature_algorithm, signature) is Ok,
    ensures
        ({
            let csr = sealed(info, signed, signature_algorithm, signature)->Ok_0;
            &&& id_csr_inner_of(info) == Ok::<IdCsrInnerView, ErrorView>(csr.inner_csr)
            &&& inner_der(csr.inner_csr) == Ok::<Seq<u8>, ErrorView>(signed)
            &&& csr.signature_algorithm == signature_algorithm
            &&& csr.signature == signature
            &&& name_verdict(name_contents(csr.inner_csr.subject)) is Ok
        }),
{
}

/// A request signed over a valid body is itself valid: it has the subject
/// and the key of the body, its capabilities but for the order of the key
/// usages, and the key has signed the DER encoding of what the request holds.
pub proof fn lemma_signed_request<S: Signature, K: PrivateKey<S::Algorithm, Signature = S>>(
    signing_key: K,
    made: IdCsrInnerView,
    csr: IdCsrView<S>,
)
    requires
        signed_by(signing_key, Ok(made), Ok(csr)),
        request_verdict(made.subject, made.capabilities) is Ok,
    ensures
        csr.inner_csr.version == PkcsVersion::V1,
        csr.inner_csr.subject == made.subject,
        csr.inner_csr.subject_public_key_info == made.subject_public_key_info,
        csr.inner_csr.capabilities.same_as(made.capabilities),
        request_verdict(csr.inner_csr.subject, csr.inner_csr.capabilities) is Ok,
        S::Algorithm::declares(csr.signature_algorithm),
        exists|encoding: Seq<u8>|
            inner_der(csr.inner_csr) == Ok::<Seq<u8>, ErrorView>(encoding)
                && #[trigger] signing_key.signs(encoding, csr.signature),
{
    let info = cert_req_info_of(made)->Ok_0;
    let encoding = cert_req_info_der(info)->Ok_0;
    let (algorithm, signature) = choose|algorithm: AlgorithmIdentifierOwned, signature: S|
        {
            &&& #[trigger] S::Algorithm::declares(algorithm)
            &&& #[trigger] signing_key.signs(encoding, signature)
            &&& Ok::<IdCsrView<S>, ErrorView>(csr) == sealed(info, encoding, algorithm, signature)
        };
    lemma_body_read_back(made);
    lemma_sealed(info, encoding, algorithm, signature);
    lemma_same_capabilities_same_verdict(csr.inner_csr.capabilities, made.capabilities);
    assert(signing_key.signs(encoding, csr.signature));
}

/// A request that was sealed over the encoding of its generic body, written
/// as DER and read again, is the same request, wherever the codec reads back
/// the generic bodies and the generic signed request that it wrote, and the
/// scheme reads back the signature that it wrote. That the codec and the
/// scheme do so is theirs to keep, and is taken for granted here.
pub proof fn lemma_request_round_trip<S: Signature>(
    info: CertReqInfo,
    signed: Seq<u8>,
    csr: IdCsrView<S>,
    written: BitString,
    bytes: Seq<u8>,
)
    requires
        cert_req_info_der(info) == Ok::<Seq<u8>, der::Error>(signed),
        sealed(info, signed, csr.signature_algorithm, csr.signature) == Ok::<
            IdCsrView<S>,
            ErrorView,
        >(csr),
        cert_req_info_of(csr.inner_csr) matches Ok(body) && {
            &&& signed_der(body, csr.signature_algorithm, Ok(written)) == Ok::<
                Seq<u8>,
                ErrorView,
            >(bytes)
            &&& body_is_read_back(body)
            &&& request_is_read_back(
                CertReq { info: body, algorithm: csr.signature_algorithm, signature: written },
            )
        },
        body_is_read_back(info),
        forall|signature: S| #[trigger]
            S::reads(bit_string_bytes(written), signature) ==> signature == csr.signature,
    ensures
        forall|r: Result<IdCsrView<S>, ErrorView>| #[trigger]
            decoded_as(bytes, r) ==> r == Ok::<IdCsrView<S>, ErrorView>(csr),
{
    let body = cert_req_info_of(csr.inner_csr)->Ok_0;
    assert(cert_req_info_der(body) == Ok::<Seq<u8>, der::Error>(signed));
    assert(body == info);
    let request = CertReq { info: body, algorithm: csr.signature_algorithm, signature: written };
    assert(cert_req_parsed(bytes) == Ok::<CertReq, der::Error>(request));
    assert forall|r: Result<IdCsrView<S>, ErrorView>| #[trigger] decoded_as(bytes, r) implies r
        == Ok::<IdCsrView<S>, ErrorView>(csr) by {
        let back = r->Ok_0;
        assert(S::reads(bit_string_bytes(written), back.signature));
    }
}

impl<S: Signature> IdCsr<S> {
    /// Makes a request for `subject` with `capabilities` and signs it with
    /// `signing_key`. The subject and then the capabilities are validated, and
    /// the first error of the two is returned. The body goes into the generic
    /// form, whose DER encoding is what the key signs; then the request is
    /// sealed as by [`IdCsr::with_signature`], so that it holds the key usages
    /// in the order of the encoding.
    pub fn new<K: PrivateKey<S::Algorithm, Signature = S>>(
        subject: &Name,
        signing_key: &K,
        capabilities: &Capabilities,
    ) -> (r: Result<IdCsr<S>, Error>)
        ensures
            requested(*signing_key, *subject, capabilities@, csr_view(r)),
            r matches Ok(csr) ==> {
                &&& csr@.inner_csr.version == PkcsVersion::V1
                &&& csr@.inner_csr.subject == *subject
                &&& csr@.inner_csr.capabilities.same_as(capabilities@)
                &&& request_verdict(csr@.inner_csr.subject, csr@.inner_csr.capabilities) is Ok
                &&& S::Algorithm::declares(csr@.signature_algorithm)
                &&& exists|encoding: Seq<u8>|
                    inner_der(csr@.inner_csr) == Ok::<Seq<u8>, ErrorView>(encoding)
                        && #[trigger] signing_key.signs(encoding, csr@.signature)
            },
    {
        let public_key = signing_key.pubkey();
        let made = IdCsrInner::<S>::new(subject, public_key, capabilities);
        let ghost body = inner_view(made);
        let ghost info = choose|info: PublicKeyInfo| #[trigger]
            public_key.describes(info) && body == keyed_body(*subject, info, capabilities@);
        let inner_csr = match made {
            Ok(inner_csr) => inner_csr,
            Err(e) => {
                return Err(e);
            },
        };
        let cert_req_info = match CertReqInfo::try_from(inner_csr) {
            Ok(info) => info,
            Err(e) => {
                return Err(e);
            },
        };
        let encoding = match cert_req_info.to_der() {
            Ok(bytes) => bytes,
            Err(e) => {
                return Err(e);
            },
        };
        let signature = signing_key.sign(encoding.as_slice());
        let signature_algorithm = S::Algorithm::algorithm_identifier();
        let ghost parts = (signature_algorithm, signature);
        let r = IdCsr::with_signature(
            cert_req_info,
            encoding.as_slice(),
            signature_algorithm,
            signature,
        );
        proof {
            assert(S::Algorithm::declares(parts.0));
            assert(signing_key.signs(encoding@, parts.1));
            assert(signed_by(*signing_key, body, csr_view(r)));
            assert(signing_key.belongs(*public_key));
            assert(public_key.describes(info));
            if r is Ok {
                lemma_signed_request(*signing_key, body->Ok_0, csr_view(r)->Ok_0);
            }
        }
        r
    }

    /// Seals a request: reads the generic body `cert_req_info` as a body of
    /// the profile and puts the algorithm and the signature to it, if the
    /// bytes `signed` are the DER encoding of that body. So a request that
    /// comes out holds exactly what was signed.
    pub fn with_signature(
        cert_req_info: CertReqInfo,
        signed: &[u8],
        signature_algorithm: AlgorithmIdentifierOwned,
        signature: S,
    ) -> (r: Result<IdCsr<S>, Error>)
        ensures
            csr_view(r) == sealed(cert_req_info, signed@, signature_algorithm, signature),
    {
        let inner_csr = match IdCsrInner::<S>::try_from(cert_req_info) {
            Ok(inner_csr) => inner_csr,
            Err(e) => {
                return Err(e);
            },
        };
        match inner_csr.clone().to_der() {
            Ok(bytes) => {
                if same_bytes(bytes.as_slice(), signed) {
                    Ok(IdCsr { inner_csr, signature_algorithm, signature })
                } else {
                    Err(Error::InvalidInput(InvalidInput::Unrepresentable))
                }
            },
            Err(_) => Err(Error::InvalidInput(InvalidInput::Unrepresentable)),
        }
    }

    /// Holds the request to the rules for actors: the subject and the
    /// capabilities are validated anew, and the capabilities are to declare
    /// no authority. The signature is not verified.
    pub fn valid_actor_csr(&self) -> (r: Result<(), Error>)
        ensures
            outcome_view(r) == actor_csr_verdict(self@.inner_csr),
    {
        match validate_request(&self.inner_csr.subject, &self.inner_csr.capabilities) {
            Ok(()) => {},
            Err(e) => {
                return Err(e);
            },
        }
        if self.inner_csr.capabilities.basic_constraints.ca {
            return Err(
                Error::ConstraintError(ConstraintError::malformed("Actor CSR must not be a CA")),
            );
        }
        Ok(())
    }

    /// Holds the request to the rules for home servers: the subject and the
    /// capabilities are validated anew, and the capabilities are to declare
    /// an authority. The signature is not verified.
    pub fn valid_home_server_csr(&self) -> (r: Result<(), Error>)
        ensures
            outcome_view(r) == home_server_csr_verdict(self@.inner_csr),
    {
        match validate_request(&self.inner_csr.subject, &self.inner_csr.capabilities) {
            Ok(()) => {},
            Err(e) => {
                return Err(e);
            },
        }
        if !self.inner_csr.capabilities.basic_constraints.ca {
            return Err(
                Error::ConstraintError(ConstraintError::malformed("Actor CSR must be a CA")),
            );
        }
        Ok(())
    }

    /// Reads a signed request from its DER encoding: the bytes are to decode
    /// as a `CertificationRequest`, and that is to read as a request of the
    /// profile. The signature is not verified.
    pub fn from_der(bytes: &[u8]) -> (r: Result<Self, Error>)
        ensures
            decoded_as(bytes@, csr_view(r)),
    {
        match decode_cert_req(bytes) {
            Ok(request) => IdCsr::try_from(request),
            Err(e) => Err(Error::DerError(e)),
        }
    }

    /// The DER encoding of the request: that of the generic signed request
    /// made of the generic body that stands for the body, the algorithm, and
    /// the signature as the scheme writes it. It fails first where the body
    /// has no generic form, then where the signature has no bit string, then
    /// where the codec refuses.
    pub fn to_der(self) -> (r: Result<Vec<u8>, Error>)
        ensures
            match cert_req_info_of(self@.inner_csr) {
                Err(e) => der_view(r) == Err::<Seq<u8>, ErrorView>(e),
                Ok(info) => exists|written: Result<BitString, der::Error>| #[trigger]
                    self@.signature.writes(written) && der_view(r) == signed_der(
                        info,
                        self@.signature_algorithm,
                        written,
                    ),
            },
    {
        let request = match CertReq::try_from(self) {
            Ok(request) => request,
            Err(e) => {
                return Err(e);
            },
        };
        request.to_der()
    }
}

impl<S: Signature> TryFrom<CertReq> for IdCsr<S> {
    type Error = Error;

    /// Reads a generic signed request as one of the profile. The signature
    /// is read from the raw bytes of its bit string, and not verified.
    fn try_from(value: CertReq) -> (r: Result<Self, Error>)
        ensures
            reads_as(value, csr_view(r)),
    {
        let inner_csr = match IdCsrInner::try_from(value.info) {
            Ok(inner_csr) => inner_csr,
            Err(e) => {
                return Err(e);
            },
        };
        let bytes = raw_bytes(&value.signature);
        Ok(
            IdCsr {
                inner_csr,
                signature_algorithm: value.algorithm,
                signature: S::from_bitstring(bytes.as_slice()),
            },
        )
    }
}

impl<S: Signature> vstd::std_specs::convert::TryFromSpecImpl<CertReq> for IdCsr<S> {
    open spec fn obeys_try_from_spec() -> bool {
        false
    }

    open spec fn try_from_spec(value: CertReq) -> Result<Self, Error> {
        arbitrary()
    }
}

impl<S: Signature> TryFrom<IdCsr<S>> for CertReq {
    type Error = Error;

    /// The generic signed request that stands for one of the profile. It
    /// fails first where the body has no generic form; then the signature is
    /// asked for its bit string, and the request is assembled as by
    /// [`CertReq::assemble`].
    fn try_from(value: IdCsr<S>) -> (r: Result<Self, Error>)
        ensures
            match cert_req_info_of(value@.inner_csr) {
                Err(e) => generic_view(r) == Err::<CertReq, ErrorView>(e),
                Ok(info) => exists|written: Result<BitString, der::Error>| #[trigger]
                    value@.signature.writes(written) && generic_view(r) == assembled(
                        info,
                        value@.signature_algorithm,
                        written,
                    ),
            },
    {
        let info = match CertReqInfo::try_from(value.inner_csr) {
            Ok(info) => info,
            Err(e) => {
                return Err(e);
            },
        };
        let written = value.signature.to_bitstring();
        let ghost witness = written;
        let r = CertReq::assemble(info, value.signature_algorithm, written);
        proof {
            assert(value@.signature.writes(witness));
            assert(generic_view(r) == assembled(info, value@.signature_algorithm, witness));
        }
        r
    }
}

impl<S: Signature> vstd::std_specs::convert::TryFromSpecImpl<IdCsr<S>> for CertReq {
    open spec fn obeys_try_from_spec() -> bool {
        false
    }

    open spec fn try_from_spec(value: IdCsr<S>) -> Result<Self, Error> {
        arbitrary()
    }
}

impl<S: Signature> Constrained for IdCsr<S> {
    /// A request is valid where its capabilities and then its subject are.
    open spec fn verdict(&self) -> Result<(), ConstraintErrorView> {
        match capabilities_verdict(self.inner_csr.capabilities@) {
            Err(e) => Err(e),
            Ok(()) => name_verdict(name_contents(self.inner_csr.subject)),
        }
    }

    fn validate(&self) -> (r: Result<(), ConstraintError>) {
        match self.inner_csr.capabilities.validate() {
            Ok(()) => {},
            Err(e) => {
                return Err(e);
            },
        }
        self.inner_csr.subject.validate()
    }
}

} // verus!
