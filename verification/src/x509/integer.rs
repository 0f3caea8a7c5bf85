//! Unsigned integers and serial numbers as the codec holds them.

use vstd::prelude::*;

verus! {

/// The greatest length in bytes of an integer that the codec handles.
pub const MAX_INTEGER_LEN: usize = 0xfff_ffff;

/// The greatest length in bytes of the encoding of a serial number.
pub const MAX_SERIAL_LEN: usize = 20;

/// `bytes` without its leading zero bytes; of an all-zero input the last byte
/// stays.
pub open spec fn strip_leading_zeros(bytes: Seq<u8>) -> Seq<u8>
    decreases bytes.len(),
{
    if bytes.len() > 1 && bytes[0] == 0 {
        strip_leading_zeros(bytes.skip(1))
    } else {
        bytes
    }
}

/// Whether `bytes` has no leading zero byte to strip.
pub open spec fn is_stripped(bytes: Seq<u8>) -> bool {
    bytes.len() > 1 ==> bytes[0] != 0
}

/// Whether a big-endian unsigned number needs a zero byte in front to be read
/// as non-negative.
pub open spec fn needs_sign_byte(bytes: Seq<u8>) -> bool {
    bytes.len() > 0 && bytes[0] >= 0x80
}

/// The content of the ASN.1 `INTEGER` that encodes a stripped unsigned number.
pub open spec fn signed_form(bytes: Seq<u8>) -> Seq<u8> {
    if needs_sign_byte(bytes) {
        seq![0u8] + bytes
    } else {
        bytes
    }
}

/// The error with which the codec refuses bytes as an unsigned integer.
pub uninterp spec fn uint_error(bytes: Seq<u8>) -> der::Error;

/// The error with which the X.509 crate refuses bytes as a serial number.
pub uninterp spec fn serial_number_error(bytes: Seq<u8>) -> der::Error;

/// `Uint::new` and `Uint::as_bytes` of the codec: the bytes without their
/// leading zeros, or an error where what is left is longer than the codec's
/// limit.
#[verifier::external_body]
pub(crate) fn uint_bytes(bytes: &[u8]) -> (r: Result<Vec<u8>, der::Error>)
    ensures
        r is Ok <==> strip_leading_zeros(bytes@).len() <= MAX_INTEGER_LEN,
        r matches Ok(stripped) ==> stripped@ == strip_leading_zeros(bytes@),
        r matches Err(e) ==> e == uint_error(bytes@),
{
    der::asn1::Uint::new(bytes).map(|uint| uint.as_bytes().to_vec())
}

/// `SerialNumber::new` and `SerialNumber::as_bytes` of the X.509 crate: the
/// number as the content of an `INTEGER`, that is stripped and with a zero
/// byte in front where the first bit is set; an error where that is longer
/// than 20 bytes.
#[verifier::external_body]
pub(crate) fn serial_number_bytes(bytes: &[u8]) -> (r: Result<Vec<u8>, der::Error>)
    ensures
        r is Ok <==> signed_form(strip_leading_zeros(bytes@)).len() <= MAX_SERIAL_LEN,
        r matches Ok(content) ==> content@ == signed_form(strip_leading_zeros(bytes@)),
        r matches Err(e) ==> e == serial_number_error(bytes@),
{
    x509_cert::serial_number::SerialNumber::<x509_cert::certificate::Rfc5280>::new(bytes)
        .map(|serial| serial.as_bytes().to_vec())
}

/// An unsigned integer of any size: its big-endian bytes without leading
/// zeros.
#[derive(Debug, PartialEq, Eq)]
pub struct Uint {
    bytes: Vec<u8>,
}

impl View for Uint {
    type V = Seq<u8>;

    closed spec fn view(&self) -> Seq<u8> {
        self.bytes@
    }
}

impl Uint {
    /// Whether the number is in the form that the type keeps: stripped and
    /// within the codec's limit.
    pub open spec fn wf(&self) -> bool {
        is_stripped(self@) && self@.len() <= MAX_INTEGER_LEN
    }

    #[verifier::type_invariant]
    closed spec fn inv(self) -> bool {
        self.wf()
    }

    /// The number that the big-endian `bytes` stand for.
    pub fn new(bytes: &[u8]) -> (r: Result<Uint, der::Error>)
        ensures
            r is Ok <==> strip_leading_zeros(bytes@).len() <= MAX_INTEGER_LEN,
            r matches Ok(uint) ==> uint@ == strip_leading_zeros(bytes@) && uint.wf(),
            r matches Err(e) ==> e == uint_error(bytes@),
    {
        match uint_bytes(bytes) {
            Ok(stripped) => {
                proof {
                    lemma_strip_is_stripped(bytes@);
                }
                Ok(Uint { bytes: stripped })
            },
            Err(e) => Err(e),
        }
    }

    /// The big-endian bytes of the number, without leading zeros.
    pub fn as_bytes(&self) -> (bytes: &[u8])
        ensures
            bytes@ == self@,
            self.wf(),
    {
        proof {
            use_type_invariant(self);
        }
        self.bytes.as_slice()
    }
}

impl Clone for Uint {
    fn clone(&self) -> (copy: Self)
        ensures
            copy@ == self@,
    {
        proof {
            use_type_invariant(self);
        }
        Uint { bytes: self.bytes.clone() }
    }
}

/// The serial number of a certificate, as the content bytes of its `INTEGER`.
#[derive(Debug, PartialEq, Eq)]
pub struct SerialNumber {
    pub bytes: Vec<u8>,
}

impl View for SerialNumber {
    type V = Seq<u8>;

    open spec fn view(&self) -> Seq<u8> {
        self.bytes@
    }
}

impl SerialNumber {
    /// The serial number that the big-endian unsigned `bytes` stand for, if
    /// its encoding has at most 20 bytes.
    pub fn new(bytes: &[u8]) -> (r: Result<SerialNumber, der::Error>)
        ensures
            r is Ok <==> signed_form(strip_leading_zeros(bytes@)).len() <= MAX_SERIAL_LEN,
            r matches Ok(serial) ==> serial@ == signed_form(strip_leading_zeros(bytes@)),
            r matches Err(e) ==> e == serial_number_error(bytes@),
    {
        match serial_number_bytes(bytes) {
            Ok(content) => Ok(SerialNumber { bytes: content }),
            Err(e) => Err(e),
        }
    }

    /// The content bytes of the number.
    pub fn as_bytes(&self) -> (bytes: &[u8])
        ensures
            bytes@ == self@,
    {
        self.bytes.as_slice()
    }
}

impl Clone for SerialNumber {
    fn clone(&self) -> (copy: Self)
        ensures
            copy@ == self@,
    {
        SerialNumber { bytes: self.bytes.clone() }
    }
}

/// What is left after stripping has nothing more to strip.
pub proof fn lemma_strip_is_stripped(bytes: Seq<u8>)
    ensures
        is_stripped(strip_leading_zeros(bytes)),
        strip_leading_zeros(bytes).len() <= bytes.len(),
    decreases bytes.len(),
{
    if bytes.len() > 1 && bytes[0] == 0 {
        lemma_strip_is_stripped(bytes.skip(1));
    }
}

/// Stripping changes nothing where there is nothing to strip.
pub proof fn lemma_strip_of_stripped(bytes: Seq<u8>)
    requires
        is_stripped(bytes),
    ensures
        strip_leading_zeros(bytes) == bytes,
{
}

/// A stripped unsigned number goes into the content of an `INTEGER` and comes
/// back out of it unchanged.
pub proof fn lemma_signed_form_round_trip(bytes: Seq<u8>)
    requires
        is_stripped(bytes),
    ensures
        strip_leading_zeros(signed_form(strip_leading_zeros(bytes))) == bytes,
{
    lemma_strip_of_stripped(bytes);
    if needs_sign_byte(bytes) {
        let signed = seq![0u8] + bytes;
        assert(signed.len() > 1 && signed[0] == 0);
        assert(signed.skip(1) =~= bytes);
    }
}

} // verus!
