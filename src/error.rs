use vstd::prelude::*;

verus! {

/// The ways in which an operation of this library can fail.
#[derive(Clone, Copy, Debug, PartialEq, Eq, Structural)]
pub enum Error {
    /// A locator string does not name one of the two known hosts.
    InvalidDomain,
    /// A charset string is neither `utf-8` nor `utf-16`.
    InvalidCharset,
    /// A content-type string is none of the three known values.
    InvalidContentType,
    /// A time bound has more than fourteen digits, or `from` lies after `to`.
    InvalidRange,
    /// A page size of zero was requested.
    InvalidPageSize,
    /// The remote service answered with a status other than 200.
    UnexpectedStatus(u16),
    /// A body does not match the expected record schema.
    DecodeFailed,
    /// The transport failed before a response was received.
    TransportError,
}

} // verus!
