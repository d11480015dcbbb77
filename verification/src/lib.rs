//! Serve JSON-RPC over any bidirectional message stream.
//!
//! The crate holds the verified core of a per-connection server: the
//! configuration and its builders, the session identity with its push queue,
//! the envelope type, the decision logic of the serve loop, and a model of
//! the pipelined dispatch stage with its ordering and delivery guarantees.
//! The asynchronous glue that races the loop's event sources belongs to the
//! surrounding runtime crate.

pub mod config;
pub mod pipeline;
pub mod session;
pub mod stream;

pub use config::StreamServerConfig;
pub use config::duration_of_secs;
pub use config::signal_of;
pub use config::valid_config;
pub use pipeline::Pipeline;
pub use session::Session;
pub use session::SessionIdCounter;
pub use session::open_session;
pub use session::queue_bound;
pub use session::queue_of_receiver;
pub use session::queue_of_sender;
pub use stream::LoopEvent;
pub use stream::StepResult;
pub use stream::StreamMsg;
pub use stream::request_payload;
pub use stream::serve_step;
pub use stream::write_outcome;
