//! Booleans and unsigned integers as ASN.1 values. The contents are the
//! codec's: `Any::encode_from` writes them and `Any::decode_as` reads them.

use vstd::prelude::*;
use der::Tagged;
use crate::x509::integer::{signed_form, strip_leading_zeros};
use crate::x509::{AttributeValue, AttributeValueView};

verus! {

/// The octet of the tag of an ASN.1 `BOOLEAN`.
pub const TAG_BOOLEAN: u8 = 0x01;

/// The octet of the tag of an ASN.1 `INTEGER`.
pub const TAG_INTEGER: u8 = 0x02;

/// A boolean as a value: one byte, `0xff` for true and `0x00` for false.
pub open spec fn boolean_value(flag: bool) -> AttributeValueView {
    AttributeValueView {
        tag: TAG_BOOLEAN,
        value: seq![
            if flag {
                0xffu8
            } else {
                0x00u8
            },
        ],
    }
}

/// The boolean that a value holds, if it holds one.
pub open spec fn decoded_boolean(value: AttributeValueView) -> Option<bool> {
    if value.tag == TAG_BOOLEAN && value.value.len() == 1 && (value.value[0] == 0x00
        || value.value[0] == 0xff) {
        Some(value.value[0] == 0xff)
    } else {
        None
    }
}

/// The last `len` bytes of a number, the most significant first.
pub open spec fn be_bytes(n: nat, len: nat) -> Seq<u8>
    decreases len,
{
    if len == 0 {
        Seq::empty()
    } else {
        be_bytes(n / 256, (len - 1) as nat).push((n % 256) as u8)
    }
}

/// The number that bytes stand for, the most significant first.
pub open spec fn be_value(bytes: Seq<u8>) -> nat
    decreases bytes.len(),
{
    if bytes.len() == 0 {
        0
    } else {
        be_value(bytes.drop_last()) * 256 + bytes.last() as nat
    }
}

/// The content of the `INTEGER` of an unsigned number in DER: its bytes
/// without leading zeros, with a zero byte in front where the first bit is
/// set.
pub open spec fn integer_content(n: u64) -> Seq<u8> {
    signed_form(strip_leading_zeros(be_bytes(n as nat, 8)))
}

/// An unsigned number as a value.
pub open spec fn integer_value(n: u64) -> AttributeValueView {
    AttributeValueView { tag: TAG_INTEGER, value: integer_content(n) }
}

/// Whether bytes are the content of the `INTEGER` of an unsigned number in
/// DER: not empty, and in the one form that DER has for the number.
pub open spec fn is_unsigned_content(bytes: Seq<u8>) -> bool {
    bytes.len() > 0 && signed_form(strip_leading_zeros(bytes)) == bytes
}

/// The unsigned number of at most 64 bits that a value holds, if it holds
/// one.
pub open spec fn decoded_integer(value: AttributeValueView) -> Option<u64> {
    if value.tag == TAG_INTEGER && is_unsigned_content(value.value) && strip_leading_zeros(
        value.value,
    ).len() <= 8 {
        Some(be_value(strip_leading_zeros(value.value)) as u64)
    } else {
        None
    }
}

/// `Any::encode_from` of a `bool`, with `Any::tag`, `Tag::octet` and
/// `Any::value`: a `BOOLEAN` of one byte. The codec has no way to fail here.
#[verifier::external_body]
pub(crate) fn encode_boolean(flag: bool) -> (r: Result<AttributeValue, der::Error>)
    ensures
        r is Ok,
        r matches Ok(value) ==> value.deep_view() == boolean_value(flag),
{
    let any = der::asn1::Any::encode_from(&flag)?;
    Ok(AttributeValue { tag: any.tag().octet(), value: any.value().to_vec() })
}

/// `Any::encode_from` of a `u64`, with `Any::tag`, `Tag::octet` and
/// `Any::value`: an `INTEGER` in the shortest form. The codec has no way to
/// fail here.
#[verifier::external_body]
pub(crate) fn encode_integer(n: u64) -> (r: Result<AttributeValue, der::Error>)
    ensures
        r is Ok,
        r matches Ok(value) ==> value.deep_view() == integer_value(n),
{
    let any = der::asn1::Any::encode_from(&n)?;
    Ok(AttributeValue { tag: any.tag().octet(), value: any.value().to_vec() })
}

/// `Tag::try_from`, `Any::new` and `Any::decode_as::<bool>`: the boolean of a
/// `BOOLEAN` of one byte that is `0x00` or `0xff`.
#[verifier::external_body]
pub(crate) fn decode_boolean(value: &AttributeValue) -> (flag: Option<bool>)
    ensures
        flag == decoded_boolean(value.deep_view()),
{
    let tag = der::Tag::try_from(value.tag).ok()?;
    der::asn1::Any::new(tag, value.value.as_slice()).ok()?.decode_as::<bool>().ok()
}

/// `Tag::try_from`, `Any::new` and `Any::decode_as::<u64>`: the number of an
/// `INTEGER` whose content is the DER form of an unsigned number of at most
/// eight bytes.
#[verifier::external_body]
pub(crate) fn decode_integer(value: &AttributeValue) -> (n: Option<u64>)
    ensures
        n == decoded_integer(value.deep_view()),
{
    let tag = der::Tag::try_from(value.tag).ok()?;
    der::asn1::Any::new(tag, value.value.as_slice()).ok()?.decode_as::<u64>().ok()
}

/// 256 to the power of `k`.
pub open spec fn pow256(k: nat) -> nat
    decreases k,
{
    if k == 0 {
        1
    } else {
        256 * pow256((k - 1) as nat)
    }
}

/// A number below 256 to the power of `len` is read back from its `len`
/// bytes.
pub proof fn lemma_be_round_trip(n: nat, len: nat)
    requires
        n < pow256(len),
    ensures
        be_bytes(n, len).len() == len,
        be_value(be_bytes(n, len)) == n,
    decreases len,
{
    if len > 0 {
        lemma_be_round_trip(n / 256, (len - 1) as nat);
        let bytes = be_bytes(n, len);
        assert(bytes.drop_last() =~= be_bytes(n / 256, (len - 1) as nat));
        assert(bytes.last() == (n % 256) as u8);
    }
}

/// A zero byte in front changes no number.
proof fn lemma_leading_zero(bytes: Seq<u8>)
    ensures
        be_value(seq![0u8] + bytes) == be_value(bytes),
    decreases bytes.len(),
{
    let longer = seq![0u8] + bytes;
    if bytes.len() == 0 {
        assert(longer.drop_last() =~= Seq::<u8>::empty());
        assert(longer.last() == 0u8);
        assert(be_value(longer.drop_last()) == 0);
        assert(be_value(longer) == be_value(longer.drop_last()) * 256 + longer.last() as nat);
    } else {
        lemma_leading_zero(bytes.drop_last());
        assert(longer.drop_last() =~= seq![0u8] + bytes.drop_last());
        assert(longer.last() == bytes.last());
    }
}

/// Stripping leading zeros changes no number, and leaves a byte of what is
/// not empty.
proof fn lemma_strip_keeps_value(bytes: Seq<u8>)
    ensures
        be_value(strip_leading_zeros(bytes)) == be_value(bytes),
        bytes.len() > 0 ==> strip_leading_zeros(bytes).len() > 0,
    decreases bytes.len(),
{
    if bytes.len() > 1 && bytes[0] == 0 {
        lemma_strip_keeps_value(bytes.skip(1));
        lemma_leading_zero(bytes.skip(1));
        assert(seq![0u8] + bytes.skip(1) =~= bytes);
    }
}

/// The value of an unsigned number is read back as the number.
pub proof fn lemma_integer_read_back(n: u64)
    ensures
        decoded_integer(integer_value(n)) == Some(n),
        decoded_boolean(boolean_value(true)) == Some(true),
        decoded_boolean(boolean_value(false)) == Some(false),
{
    let bytes = be_bytes(n as nat, 8);
    let stripped = strip_leading_zeros(bytes);
    reveal_with_fuel(pow256, 9);
    lemma_be_round_trip(n as nat, 8);
    lemma_strip_keeps_value(bytes);
    crate::x509::integer::lemma_strip_is_stripped(bytes);
    crate::x509::integer::lemma_signed_form_round_trip(stripped);
    crate::x509::integer::lemma_strip_of_stripped(stripped);
    assert(strip_leading_zeros(integer_content(n)) == stripped);
}

} // verus!
