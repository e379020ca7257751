//! A minimal single-shot asynchronous HTTP request primitive.
//!
//! A [`RequestBuilder`] accumulates the description of one request (method,
//! URL, headers in insertion order, optional body). Dispatching it hands the
//! description to one of two backends: a native one, where a worker thread
//! performs the blocking transport call and completes a shared one-slot cell
//! ([`native::SharedState`]), and a sandboxed one, where a host runtime
//! performs the request and is polled for the raw response bytes
//! ([`sandbox::poll_host_response`]).

pub mod builder;
pub mod error;
pub mod method;
pub mod native;
pub mod sandbox;

pub use builder::Dispatch;
pub use builder::HostCall;
pub use builder::RequestBuilder;
pub use builder::TransportCall;
pub use error::HttpError;
pub use error::RequestResult;
pub use method::Method;
pub use native::SharedState;
