//! Error values of the library, each with a mathematical view that the
//! contracts speak of.

use vstd::prelude::*;

verus! {

/// A value breaks one of the semantic rules of the profile.
#[derive(Debug, PartialEq, Eq)]
pub enum ConstraintError {
    /// A count or a length lies outside `lower..=upper`; `actual` is the
    /// offending number in decimal.
    OutOfBounds { lower: i32, upper: i32, actual: String, reason: Option<String> },
    /// The value is not of the expected shape.
    Malformed(Option<String>),
}

/// What a [`ConstraintError`] says, as plain mathematical values.
pub enum ConstraintErrorView {
    OutOfBounds { lower: int, upper: int, actual: Seq<char>, reason: Option<Seq<char>> },
    Malformed(Option<Seq<char>>),
}

/// The view of an optional reason.
pub open spec fn reason_view(reason: Option<String>) -> Option<Seq<char>> {
    match reason {
        Some(text) => Some(text@),
        None => None,
    }
}

impl View for ConstraintError {
    type V = ConstraintErrorView;

    open spec fn view(&self) -> ConstraintErrorView {
        match *self {
            ConstraintError::OutOfBounds { lower, upper, actual, reason } => {
                ConstraintErrorView::OutOfBounds {
                    lower: lower as int,
                    upper: upper as int,
                    actual: actual@,
                    reason: reason_view(reason),
                }
            },
            ConstraintError::Malformed(reason) => ConstraintErrorView::Malformed(
                reason_view(reason),
            ),
        }
    }
}

/// The view of the outcome of a validation.
pub open spec fn verdict_view(r: Result<(), ConstraintError>) -> Result<(), ConstraintErrorView> {
    match r {
        Ok(()) => Ok(()),
        Err(e) => Err(e@),
    }
}

impl Clone for ConstraintError {
    fn clone(&self) -> (copy: Self)
        ensures
            copy@ == self@,
    {
        match self {
            ConstraintError::OutOfBounds { lower, upper, actual, reason } => {
                ConstraintError::OutOfBounds {
                    lower: *lower,
                    upper: *upper,
                    actual: actual.clone(),
                    reason: match reason {
                        Some(text) => Some(text.clone()),
                        None => None,
                    },
                }
            },
            ConstraintError::Malformed(reason) => ConstraintError::Malformed(
                match reason {
                    Some(text) => Some(text.clone()),
                    None => None,
                },
            ),
        }
    }
}

impl ConstraintError {
    /// An out-of-bounds error with the given bounds, actual value and reason.
    pub fn out_of_bounds(lower: i32, upper: i32, actual: String, reason: &str) -> (e: Self)
        ensures
            e@ == (ConstraintErrorView::OutOfBounds {
                lower: lower as int,
                upper: upper as int,
                actual: actual@,
                reason: Some(reason@),
            }),
    {
        ConstraintError::OutOfBounds { lower, upper, actual, reason: Some(reason.to_string()) }
    }

    /// A malformed-value error with the given reason.
    pub fn malformed(reason: &str) -> (e: Self)
        ensures
            e@ == ConstraintErrorView::Malformed(Some(reason@)),
    {
        ConstraintError::Malformed(Some(reason.to_string()))
    }
}

/// Why a generic to-be-signed certificate is no certificate of the profile.
#[derive(Debug, Clone, Copy, PartialEq, Eq)]
pub enum TbsCertToIdCert {
    /// The certificate has no subject unique identifier, which is to carry
    /// the session identifier.
    SubjectUid,
    /// The certificate has no extensions.
    Extensions,
    /// The serial number is no unsigned integer that the codec takes.
    Signature(der::Error),
}

/// Why a certificate of the profile has no generic form.
#[derive(Debug, Clone, Copy, PartialEq, Eq)]
pub enum IdCertToTbsCert {
    /// The serial number does not fit the serial numbers of the generic
    /// profile.
    SerialNumber(der::Error),
}

/// Why the attributes of a request stand for no capabilities, or
/// capabilities for no attributes.
#[derive(Debug, Clone, Copy, PartialEq, Eq, Structural)]
pub enum InvalidInput {
    /// An attribute of a key usage does not hold exactly one boolean.
    KeyUsageValue,
    /// The attribute of the basic constraints does not hold one boolean and
    /// at most one path length.
    BasicConstraintsValue,
    /// There is more than one attribute of basic constraints.
    RepeatedBasicConstraints,
    /// The set of attributes that the codec made does not stand for the
    /// capabilities that were put into it.
    Unrepresentable,
}

/// Every error of the library.
#[derive(Debug, PartialEq, Eq)]
pub enum Error {
    /// A value breaks a rule of the profile.
    ConstraintError(ConstraintError),
    /// A generic to-be-signed certificate is none of the profile.
    TbsCertToIdCert(TbsCertToIdCert),
    /// A certificate of the profile has no generic form.
    IdCertToTbsCert(IdCertToTbsCert),
    /// Attributes and capabilities do not go into one another.
    InvalidInput(InvalidInput),
    /// The codec refused to encode or to decode.
    DerError(der::Error),
}

impl Clone for Error {
    fn clone(&self) -> (copy: Self)
        ensures
            copy@ == self@,
    {
        match self {
            Error::ConstraintError(e) => Error::ConstraintError(e.clone()),
            Error::TbsCertToIdCert(e) => Error::TbsCertToIdCert(*e),
            Error::IdCertToTbsCert(e) => Error::IdCertToTbsCert(*e),
            Error::InvalidInput(e) => Error::InvalidInput(*e),
            Error::DerError(e) => Error::DerError(*e),
        }
    }
}

/// What an [`Error`] says, as plain mathematical values.
pub enum ErrorView {
    ConstraintError(ConstraintErrorView),
    TbsCertToIdCert(TbsCertToIdCert),
    IdCertToTbsCert(IdCertToTbsCert),
    InvalidInput(InvalidInput),
    DerError(der::Error),
}

impl View for Error {
    type V = ErrorView;

    open spec fn view(&self) -> ErrorView {
        match *self {
            Error::ConstraintError(e) => ErrorView::ConstraintError(e@),
            Error::TbsCertToIdCert(e) => ErrorView::TbsCertToIdCert(e),
            Error::IdCertToTbsCert(e) => ErrorView::IdCertToTbsCert(e),
            Error::InvalidInput(e) => ErrorView::InvalidInput(e),
            Error::DerError(e) => ErrorView::DerError(e),
        }
    }
}

/// A validation as part of a larger operation: its error becomes an
/// [`Error::ConstraintError`].
pub open spec fn lifted(verdict: Result<(), ConstraintErrorView>) -> Result<(), ErrorView> {
    match verdict {
        Ok(()) => Ok(()),
        Err(e) => Err(ErrorView::ConstraintError(e)),
    }
}

/// The view of the outcome of an operation that yields nothing.
pub open spec fn outcome_view(r: Result<(), Error>) -> Result<(), ErrorView> {
    match r {
        Ok(()) => Ok(()),
        Err(e) => Err(e@),
    }
}

impl From<ConstraintError> for Error {
    fn from(e: ConstraintError) -> (r: Error) {
        Error::ConstraintError(e)
    }
}

impl vstd::std_specs::convert::FromSpecImpl<ConstraintError> for Error {
    open spec fn obeys_from_spec() -> bool {
        true
    }

    open spec fn from_spec(e: ConstraintError) -> Error {
        Error::ConstraintError(e)
    }
}

impl From<TbsCertToIdCert> for Error {
    fn from(e: TbsCertToIdCert) -> (r: Error) {
        Error::TbsCertToIdCert(e)
    }
}

impl vstd::std_specs::convert::FromSpecImpl<TbsCertToIdCert> for Error {
    open spec fn obeys_from_spec() -> bool {
        true
    }

    open spec fn from_spec(e: TbsCertToIdCert) -> Error {
        Error::TbsCertToIdCert(e)
    }
}

impl From<IdCertToTbsCert> for Error {
    fn from(e: IdCertToTbsCert) -> (r: Error) {
        Error::IdCertToTbsCert(e)
    }
}

impl vstd::std_specs::convert::FromSpecImpl<IdCertToTbsCert> for Error {
    open spec fn obeys_from_spec() -> bool {
        true
    }

    open spec fn from_spec(e: IdCertToTbsCert) -> Error {
        Error::IdCertToTbsCert(e)
    }
}

impl From<InvalidInput> for Error {
    fn from(e: InvalidInput) -> (r: Error) {
        Error::InvalidInput(e)
    }
}

impl vstd::std_specs::convert::FromSpecImpl<InvalidInput> for Error {
    open spec fn obeys_from_spec() -> bool {
        true
    }

    open spec fn from_spec(e: InvalidInput) -> Error {
        Error::InvalidInput(e)
    }
}

impl From<der::Error> for Error {
    fn from(e: der::Error) -> (r: Error) {
        Error::DerError(e)
    }
}

impl vstd::std_specs::convert::FromSpecImpl<der::Error> for Error {
    open spec fn obeys_from_spec() -> bool {
        true
    }

    open spec fn from_spec(e: der::Error) -> Error {
        Error::DerError(e)
    }
}

} // verus!
