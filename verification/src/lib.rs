//! Request construction and authentication for the HitBTC REST API.
//!
//! Every endpoint is a function from typed arguments to a [`Request`]: the
//! method, the path, the encoded query and, for an authenticated client, the
//! value of the `Authorization` header. Sending a request and decoding the
//! answer are left to the caller.

pub mod amount;
pub mod auth;
pub mod client;
pub mod digits;
pub mod endpoint;
pub mod error;
pub mod models;
pub mod query;
pub mod request;
pub mod time;

pub use amount::Decimal;
pub use client::{AuthenticatedClient, Client};
pub use error::ErrorKind;
pub use request::{Method, Request};
pub use time::Timestamp;
