//! HTTP messages: methods, versions, header names, statuses, requests and
//! responses.

pub mod error;
pub mod header;
pub mod headers;
pub mod method;
pub mod request;
pub mod response;
pub mod status;
pub mod version;

pub use error::HTTPParseError;
pub use header::HTTPHeaderType;
pub use headers::Headers;
pub use method::HTTPMethod;
pub use request::HTTPRequest;
pub use response::HTTPResponse;
pub use status::HTTPStatus;
pub use version::HTTPVersion;
