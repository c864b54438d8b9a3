//! A small HTTP/1.1 message layer and path-pattern router.
//!
//! The crate turns one fully buffered request into a structured
//! [`models::http::HTTPRequest`], finds the handler registered for it in a
//! [`router::Router`], and writes the resulting
//! [`models::http::HTTPResponse`] back out as text. Every function is
//! verified against the mathematical description given in its contract.

pub mod assoc;
pub mod httpserver;
pub mod models;
pub mod params;
pub mod router;
pub mod text;
