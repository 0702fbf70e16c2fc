//! A minimal HTTP/1.x-style file server library.
//!
//! The verified core covers the full request/response lifecycle of one
//! connection: parsing a raw request into a structured [`request::HttpRequest`],
//! deciding the response for a resolved resource ([`response::HttpResponse::new`]),
//! and rendering the exact wire bytes ([`response::HttpResponse::serialize`]).
//! Socket and filesystem access stay outside the library; callers hand in the
//! bytes they read and the outcome of resolving the requested path.

pub mod handler;
pub mod request;
pub mod response;

