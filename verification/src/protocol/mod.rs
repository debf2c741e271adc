//! The protocol layer: the error taxonomy, the envelope model, payload
//! conversion and the per-message context.

pub mod errors;
pub mod fields;
pub mod payload;
pub mod handler;
pub mod context;
pub mod serialization;
pub mod wire;

pub use context::{ContextView, MessageContext};
pub use handler::MessageHandler;
pub use errors::{ErrorKind, ErrorMessage, ErrorMessageView};
pub use payload::{Message, MessageBody, MessageContent, MessageView};
pub use crate::json::DynamicMap;
