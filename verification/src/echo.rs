//! The echo exchange on typed messages: an `Echo` is answered with an
//! `EchoOk` that carries the same text.

use vstd::prelude::*;
use crate::protocol::errors::ErrorMessage;

verus! {

/// The two messages of the echo exchange.
#[derive(Debug, PartialEq)]
pub enum EchoMessageContent {
    /// The request: a text to send back.
    Echo { echo: String },
    /// The answer: the text of the request.
    EchoOk { echo: String },
}

/// What an [`EchoMessageContent`] holds, as plain values.
pub enum EchoContentView {
    Echo { echo: Seq<char> },
    EchoOk { echo: Seq<char> },
}

impl View for EchoMessageContent {
    type V = EchoContentView;

    open spec fn view(&self) -> EchoContentView {
        match self {
            EchoMessageContent::Echo { echo } => EchoContentView::Echo { echo: echo@ },
            EchoMessageContent::EchoOk { echo } => EchoContentView::EchoOk { echo: echo@ },
        }
    }
}

impl EchoContentView {
    /// The answer to a message: an `EchoOk` with the same text for an
    /// `Echo`, nothing for anything else.
    pub open spec fn answer(self) -> Option<EchoContentView> {
        match self {
            EchoContentView::Echo { echo } => Some(EchoContentView::EchoOk { echo }),
            EchoContentView::EchoOk { .. } => None,
        }
    }
}

/// The view of an optional message of the exchange.
pub open spec fn content_of(content: Option<EchoMessageContent>) -> Option<EchoContentView> {
    match content {
        Some(c) => Some(c@),
        None => None,
    }
}

/// The echo exchange. It has no state.
#[derive(Debug)]
pub struct EchoMessageHandler;

impl EchoMessageHandler {
    /// The echo exchange.
    pub fn new() -> (handler: Self) {
        EchoMessageHandler
    }

    /// The answer to a message of the exchange: an `EchoOk` with the same
    /// text for an `Echo`, nothing for anything else. It never fails.
    pub fn handle(&mut self, msg: EchoMessageContent) -> (response: Result<
        Option<EchoMessageContent>,
        ErrorMessage,
    >)
        ensures
            response matches Ok(answer) && content_of(answer) == msg@.answer(),
    {
        Ok(
            match msg {
                EchoMessageContent::Echo { echo } => Some(EchoMessageContent::EchoOk { echo }),
                _ => None,
            },
        )
    }
}

} // verus!
