//! The generic X.509 and PKCS #10 side: the types of the codec that the library
//! carries through, the plain values that it reads out of them, and the
//! library's own forms of the composite structures.

use vstd::prelude::*;
use der::asn1::BitString;
use der::{Decode, Encode};
use der::Error as CodecError;
use spki::AlgorithmIdentifierOwned;

pub mod certificate;
pub mod integer;
pub mod name;
pub mod primitive;
pub mod request;

verus! {

/// An X.501 distinguished name: a sequence of relative distinguished names,
/// each a set of attributes. What the library reads of it is what
/// [`name::name_contents`] names.
#[verifier::external_type_specification]
#[verifier::external_body]
pub struct ExRdnSequence(x509_cert::name::RdnSequence);

/// An ASN.1 value of any type, as the parameters of an algorithm are.
#[verifier::external_type_specification]
#[verifier::external_body]
pub struct ExAny(der::asn1::Any);

/// An algorithm identifier: an object identifier and optional parameters.
#[verifier::external_type_specification]
#[verifier::external_body]
#[verifier::reject_recursive_types(Params)]
pub struct ExAlgorithmIdentifier<Params>(spki::AlgorithmIdentifier<Params>);

/// An ASN.1 bit string.
#[verifier::external_type_specification]
#[verifier::external_body]
pub struct ExBitString(der::asn1::BitString);

/// The validity period of a certificate.
#[verifier::external_type_specification]
#[verifier::external_body]
pub struct ExValidity(x509_cert::time::Validity);

/// One X.509 extension.
#[verifier::external_type_specification]
#[verifier::external_body]
pub struct ExExtension(x509_cert::ext::Extension);

/// An error of the codec.
#[verifier::external_type_specification]
#[verifier::external_body]
pub struct ExCodecError(CodecError);

/// `Clone` of a distinguished name gives an equal name.
pub assume_specification[ <x509_cert::name::RdnSequence as Clone>::clone ](
    name: &x509_cert::name::RdnSequence,
) -> (copy: x509_cert::name::RdnSequence)
    ensures
        copy == *name,
;

/// `Clone` of a bit string gives an equal bit string.
pub assume_specification[ <der::asn1::BitString as Clone>::clone ](
    bits: &der::asn1::BitString,
) -> (copy: der::asn1::BitString)
    ensures
        copy == *bits,
;

/// An ASN.1 value as plain data: the octet of its tag and the bytes of its
/// content.
#[derive(Debug, PartialEq, Eq)]
pub struct AttributeValue {
    pub tag: u8,
    pub value: Vec<u8>,
}

/// The mathematical form of an [`AttributeValue`].
pub struct AttributeValueView {
    pub tag: u8,
    pub value: Seq<u8>,
}

impl DeepView for AttributeValue {
    type V = AttributeValueView;

    open spec fn deep_view(&self) -> AttributeValueView {
        AttributeValueView { tag: self.tag, value: self.value@ }
    }
}

impl Clone for AttributeValue {
    fn clone(&self) -> (copy: Self)
        ensures
            copy.deep_view() == self.deep_view(),
    {
        AttributeValue { tag: self.tag, value: self.value.clone() }
    }
}

/// The raw bytes of a bit string, its unused bits among them.
pub uninterp spec fn bit_string_bytes(bits: BitString) -> Seq<u8>;

/// `BitString::raw_bytes` of the codec, copied.
#[verifier::external_body]
pub(crate) fn raw_bytes(bits: &BitString) -> (bytes: Vec<u8>)
    ensures
        bytes@ == bit_string_bytes(*bits),
{
    bits.raw_bytes().to_vec()
}

/// What encoding a bit string and decoding the encoding again gives: the bit
/// string, or the error of the step that the codec refused.
pub uninterp spec fn bit_string_reencoded(bits: BitString) -> Result<BitString, CodecError>;

/// Encodes a bit string with `Encode::to_der` and decodes what came out with
/// `Decode::from_der`. Where both succeed, the bit string is the same: the
/// encoding holds the number of unused bits and the raw bytes, and decoding
/// reads the two back.
#[verifier::external_body]
pub(crate) fn reencode(bits: &BitString) -> (r: Result<BitString, CodecError>)
    ensures
        r == bit_string_reencoded(*bits),
        r matches Ok(copy) ==> copy == *bits,
{
    BitString::from_der(&bits.to_der()?)
}

/// `Clone` of an algorithm identifier whose parameters are an ASN.1 value:
/// an equal identifier.
#[verifier::external_body]
pub(crate) fn copy_algorithm(id: &AlgorithmIdentifierOwned) -> (copy: AlgorithmIdentifierOwned)
    ensures
        copy == *id,
{
    id.clone()
}

/// The generic subject-public-key-info structure: an algorithm and the key
/// as a bit string.
#[derive(Debug, PartialEq, Eq)]
pub struct SubjectPublicKeyInfo {
    pub algorithm: AlgorithmIdentifierOwned,
    pub subject_public_key: BitString,
}

impl Clone for SubjectPublicKeyInfo {
    fn clone(&self) -> (copy: Self)
        ensures
            copy == *self,
    {
        SubjectPublicKeyInfo {
            algorithm: copy_algorithm(&self.algorithm),
            subject_public_key: self.subject_public_key.clone(),
        }
    }
}

} // verus!
