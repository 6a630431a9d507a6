//! A typed JSON request/response adapter: a request body is decoded into a
//! typed value, handed to a handler exactly once, and the handler's result is
//! rendered back into a response body.
pub mod adapter;
pub mod handler;
pub mod laws;

pub use adapter::{reply, respond, Fault, Outcome, Reply, RUNTIME_ERROR, STATUS_OK};
pub use handler::Handler;
