//! Session handling and response unwrapping for the Growatt monitoring
//! service, without any transport.
//!
//! Every operation comes in two halves: a function that builds the
//! [`Request`] to send, and a function that digests what came back. Between
//! the two stands whoever owns a connection. [`GrowattServer`] keeps the
//! session that a login hands out and puts it on the requests that follow.
//!
//! - [`server`]: the client, its requests and how it digests responses.
//! - [`session`]: what a login leaves behind, and what holds of it.
//! - [`cookie`]: the matchers that a login runs over `set-cookie` values.
//! - [`envelope`]: the success test and the payload of a status response.
//! - [`json`]: what the JSON reader and writer are trusted to do.
//! - [`utils`]: numbers that the service writes as strings.
//! - [`when`]: the moment a record was made.

pub mod cookie;
pub mod envelope;
pub mod error;
pub mod json;
pub mod request;
pub mod server;
pub mod session;
pub mod text;
pub mod utils;
pub mod when;

pub use error::GrowattError;
pub use request::Request;
pub use server::GrowattServer;
pub use when::When;
