//! A minimal typed client for the key-listing endpoint of a monitoring
//! platform's HTTP API.
//!
//! The library holds the logic of the client: building the request URL from a
//! base URL, an endpoint path and query parameters, injecting the configured
//! authentication into the URL's userinfo, and turning an HTTP response
//! (status code and body bytes) into a typed result or a typed error. The
//! network call itself is left to the application around the library.

pub mod auth;
pub mod client;
pub mod common;
pub mod error;
pub mod json;
pub mod schema;
pub mod strutil;
pub mod url;

pub use auth::ListApiKeysRequest;
pub use client::AuthMethod;
pub use client::Client;
pub use error::Error;
pub use error::GrafanaError;
pub use schema::ApiKey;
pub use schema::Timestamp;
