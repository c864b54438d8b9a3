//! The data model of the message layer.

pub mod http;
