//! A minimal concurrent HTTP server framework: a route table that maps
//! URI paths to method-distinguished handlers, the FIFO task queue behind
//! a bounded worker pool, and the per-connection request/response loop
//! with idle-timeout semantics.

pub mod connection;
pub mod handler;
pub mod message;
pub mod method;
pub mod route;
pub mod server;
pub mod thread_pool;

pub use connection::connection_step;
pub use connection::handle_request;
pub use connection::write_step;
pub use connection::ReadOutcome;
pub use connection::Step;
pub use handler::Handler;
pub use message::Request;
pub use message::Response;
pub use message::METHOD_NOT_ALLOWED;
pub use message::NOT_FOUND;
pub use method::Method;
pub use route::RouteTable;
pub use server::Route;
pub use server::Server;
pub use thread_pool::ThreadPool;
