//! A synchronous GraphQL-over-HTTP gateway core.
//!
//! The gateway adapts a push-style, callback-based query engine to a plain
//! request/response contract: an HTTP layer decodes a request, a bridge
//! drives the engine through a fixed protocol until a terminal result or
//! error arrives, and a formatter turns that outcome into the HTTP body.
//! The engine itself (parsing, schema resolution, data access) is an outside
//! collaborator; this crate holds the decision logic around it.

pub mod bridge;
pub mod request;
pub mod response;
