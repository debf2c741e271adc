//! Node-side runtime for a line-oriented, JSON-framed message-passing
//! protocol. A node reads one message per line, gives it to the handlers
//! that are registered for its discriminator, and writes the envelopes that
//! answer it, one per line.
//!
//! - [`protocol`] holds the error taxonomy, the envelope model with its wire
//!   format, and the message context through which handlers answer.
//! - [`server`] holds the output sequencer, the handler registry, the node
//!   lifecycle and the service that runs one cycle per inbound message.
//! - [`messages`] and [`echo`] hold the handlers that come with the library.
//! - [`json`] and [`unique`] are the boundaries to `serde_json`, to `uuid` and
//!   to the system clock: the calls that leave the library, with the
//!   contracts that are taken on trust. Everything else is proved against its
//!   contract.
//! - [`text`] holds small helpers on strings.

pub mod echo;
pub mod json;
pub mod messages;
pub mod protocol;
pub mod server;
pub mod text;
pub mod unique;

pub use protocol::{ErrorKind, ErrorMessage, Message, MessageContext, MessageHandler};
pub use server::{MaelstromServer, MaelstromService};
