//! An embeddable HTTP/2 request client core.
//!
//! The crate holds the verified logic of a narrow HTTP/2 request
//! primitive: client configuration, query-string serialization, the
//! decision steps of the request path, and an error classifier that
//! maps a transport failure and its cause chain to one of nine
//! distinct error kinds.  The surrounding I/O shell (the connection
//! pool, the network calls, and the host-language bindings) lives
//! outside the library and hands it plain values.

pub mod config;
pub mod errors;
pub mod query;
pub mod request;

pub use config::ClientConfig;
pub use config::NegotiationMode;
pub use errors::Cause;
pub use errors::CauseKind;
pub use errors::ClassifiedError;
pub use errors::ErrorKind;
pub use errors::TransportError;
