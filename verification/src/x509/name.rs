//! Reading a distinguished name.

use vstd::prelude::*;
use vstd::utf8::{decode_utf8, encode_utf8, valid_utf8};
use der::Tagged;
use x509_cert::name::Name;
use crate::x509::{AttributeValue, AttributeValueView};

verus! {

/// One attribute of a name as plain data: the object identifier in dotted
/// form and the value.
#[derive(Debug, PartialEq, Eq)]
pub struct AttributeTypeAndValue {
    pub oid: String,
    pub value: AttributeValue,
}

/// The mathematical form of an [`AttributeTypeAndValue`].
pub struct AttributeTypeAndValueView {
    pub oid: Seq<char>,
    pub value: AttributeValueView,
}

impl DeepView for AttributeTypeAndValue {
    type V = AttributeTypeAndValueView;

    open spec fn deep_view(&self) -> AttributeTypeAndValueView {
        AttributeTypeAndValueView { oid: self.oid@, value: self.value.deep_view() }
    }
}

impl Clone for AttributeTypeAndValue {
    fn clone(&self) -> (copy: Self)
        ensures
            copy.deep_view() == self.deep_view(),
    {
        AttributeTypeAndValue { oid: self.oid.clone(), value: self.value.clone() }
    }
}

/// What a name holds: for each relative distinguished name, in the order of
/// the sequence, its attributes in the order in which the set stores them.
pub uninterp spec fn name_contents(name: Name) -> Seq<Seq<AttributeTypeAndValueView>>;

/// Hands out the attributes of `name` as plain values. Each object identifier
/// is given as `ObjectIdentifier`'s `Display` writes it, each value by
/// `Any::tag`, `Tag::octet` and `Any::value`. What comes out is what contracts
/// call [`name_contents`].
#[verifier::external_body]
pub(crate) fn name_attributes(name: &Name) -> (rdns: Vec<Vec<AttributeTypeAndValue>>)
    ensures
        rdns.deep_view() == name_contents(*name),
{
    name.0.iter().map(|rdn| {
        rdn.0.iter().map(|atv| AttributeTypeAndValue {
            oid: atv.oid.to_string(),
            value: AttributeValue { tag: atv.value.tag().octet(), value: atv.value.value().to_vec() },
        }).collect()
    }).collect()
}

/// The octet of the tag of an ASN.1 `UTF8String`.
pub const TAG_UTF8_STRING: u8 = 0x0C;

/// The greatest length in bytes of a value that the codec handles.
pub const MAX_VALUE_LEN: usize = 0xfff_ffff;

/// Whether a value decodes as a string: it is a `UTF8String` of valid UTF-8
/// within the codec's length limit.
pub open spec fn is_utf8_string(value: AttributeValueView) -> bool {
    &&& value.tag == TAG_UTF8_STRING
    &&& value.value.len() <= MAX_VALUE_LEN
    &&& valid_utf8(value.value)
}

/// The text that a value decodes to, where it decodes as a string.
pub open spec fn decoded_text(value: AttributeValueView) -> Option<Seq<char>> {
    if is_utf8_string(value) {
        Some(decode_utf8(value.value))
    } else {
        None
    }
}

/// Decodes a value as a string, as `Any::new` and `Any::decode_as::<String>`
/// do: `Some` for a `UTF8String` whose content is valid UTF-8, and then the
/// text of which the content is the encoding.
#[verifier::external_body]
pub(crate) fn decode_string(value: &AttributeValue) -> (text: Option<String>)
    ensures
        text is Some <==> is_utf8_string(value.deep_view()),
        text matches Some(t) ==> encode_utf8(t@) == value.value@,
{
    let tag = der::Tag::try_from(value.tag).ok()?;
    der::asn1::Any::new(tag, value.value.as_slice()).ok()?.decode_as::<String>().ok()
}

} // verus!
