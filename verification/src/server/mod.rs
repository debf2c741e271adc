//! The server layer: the output sequencer, the handler registry, the node
//! lifecycle and the service that ties them together.

pub mod handler;
pub mod node;
pub mod queued;
pub mod sender;
pub mod service;
pub mod system_messages;

pub use handler::{MaelstromServerMessageHandler, RegisteredHandler, RegistryView};
pub use node::{MaelstromServerNode, NodeView};
pub use queued::MaelstromServer;
pub use sender::{MaelstromServerMessageSender, SenderView};
pub use service::{MaelstromService, ServiceView};
pub use system_messages::{InitMessage, InitOkMessage};
