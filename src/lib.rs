//! A client library for the Kitsu media-catalog API: a query builder for
//! search requests, the resource models, and the decoding of response bodies
//! into them, with the HTTP round trip left to a caller-supplied transport.
use vstd::prelude::*;

pub mod builder;
pub mod codec;
pub mod error;
pub mod json;
pub mod model;
pub mod request;

pub use error::{Error, Result};
pub use request::{KitsuRequester, Reply, Transport, API_URL};

verus! {

} // verus!
