//! A low-level TCP server framework core: framing discrete requests out of a
//! delimited byte stream, per-connection context state with an attribute
//! store and sticky termination flags, hook-pipeline scheduling with panic
//! isolation, and accept-loop shutdown coordination.
//!
//! Sockets, tasks and signal channels live in the transport layer around
//! this crate; everything that decides — what a chunk of bytes contributes
//! to a request, what runs next for a connection, what an event does to the
//! accept loop, when an operation must fail — is here, under contract.

pub mod attrs;
pub mod config;
pub mod context;
pub mod error;
pub mod framing;
pub mod pipeline;
pub mod response;
pub mod server;
pub mod stream;

mod util;

pub use attrs::AttrValue;
pub use config::ServerConfig;
pub use context::Context;
pub use context::InnerContext;
pub use context::Request;
pub use error::ResponseError;
pub use error::ServerError;
pub use framing::RequestFramer;
pub use framing::remove_trailing_zeros;
pub use pipeline::HandlerPipeline;
pub use response::Response;
pub use response::ResponseData;
pub use response::ResponseResult;
pub use server::Server;
pub use stream::ArcRwLockStream;
