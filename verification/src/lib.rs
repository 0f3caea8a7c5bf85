//! Identity certificates and certificate signing requests for a federated
//! identity protocol: a restrictive profile of X.509 and PKCS #10 that binds a
//! federation name and a session identifier to a public key, and tells
//! certificate authorities from actors by their capabilities.
//!
//! - [`certs`] holds the object model: session identifiers, capabilities,
//!   requests and to-be-signed certificates, and their conversion to and from
//!   the generic structures.
//! - [`constraints`] holds the rules of the profile and what checks them.
//! - [`key`] and [`signature`] say what a signature scheme has to offer.
//! - [`x509`] holds the generic structures and every call into the codec.
//! - [`errors`] holds the error values, [`text`] the decimal numerals in them.
//! - [`api`] gives the addresses of the routes of the protocol.
//!
//! Every function states what it returns in terms of mathematical values:
//! the `..View` types, the `..verdict` functions and their like. The codec is
//! not verified; what is believed of it is said where it is called.

pub mod api;
pub mod certs;
pub mod constraints;
pub mod errors;
pub mod key;
pub mod signature;
pub mod text;
pub mod x509;
