//! The library's error type.
use vstd::prelude::*;

verus! {

#[verifier::external_type_specification]
#[verifier::external_body]
pub struct ExUrlParseError(url::ParseError);

/// What can go wrong between building a request and decoding its response.
#[derive(Debug)]
pub enum Error {
    /// The response body is not a JSON document; carries the parser's message.
    Json(String),
    /// The response body is JSON but does not have the shape of the expected model,
    /// for instance a member is missing or an enumeration tag is unknown; carries the
    /// dotted path of the member at fault, such as `data.attributes.ageRating`.
    Decode(String),
    /// The service answered 400; carries the response body.
    BadRequest(Vec<u8>),
    /// The service answered 401.
    Unauthorized,
    /// The service answered with a status other than 200, 400 and 401.
    InvalidResponse(u16),
    /// The request URL could not be parsed; carries the url crate's error.
    Url(url::ParseError),
    /// The transport failed to complete the request; carries its message.
    Transport(String),
}

/// A result whose error is the library's [`Error`].
pub type Result<T> = core::result::Result<T, Error>;

} // verus!
