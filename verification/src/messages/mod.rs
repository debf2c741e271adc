//! The handlers that come with the library.

pub mod echo;
pub mod generate_id;

pub use echo::{EchoMessageContent, EchoMessageHandler};
pub use generate_id::{
    GenerateIdMessageContent, GenerateIdMessageHandler, GenerateIdOkMessageContent,
};
