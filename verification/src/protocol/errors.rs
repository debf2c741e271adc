//! The fixed error taxonomy and the error value that travels both as a
//! return value and as the payload of an `error` reply.

use vstd::prelude::*;
use vstd::string::*;
use vstd::std_specs::convert::FromSpecImpl;
use serde_json::Value;
use crate::json::{
    json_of, map_insert, map_new, no_fields, value_number, value_object, value_string, Fields,
    Json, JsonNumber,
};
use crate::text::{decimal, decimal_string};

verus! {

/// The failure categories of the protocol. Each has a numeric code that is
/// part of the wire contract.
#[derive(Clone, Copy, Debug, PartialEq, Eq, Structural)]
pub enum ErrorKind {
    /// The operation did not complete in time.
    Timeout,
    /// The target node is unknown.
    NodeNotFound,
    /// The discriminator has no registered handler.
    NotSupported,
    /// The operation cannot proceed now.
    TemporarilyUnavailable,
    /// The input did not conform to the expected shape.
    MalformedRequest,
    /// An unclassified internal failure.
    Crash,
    /// An unclassified failure that is known not to have taken effect.
    Abort,
    /// The requested key is absent.
    KeyDoesNotExist,
    /// The creation of a key collided with an existing one.
    KeyAlreadyExists,
    /// A required precondition was not met.
    PreconditionFailed,
    /// A conflicting concurrent transaction.
    TxnConflict,
}

impl ErrorKind {
    /// The wire code of this kind.
    pub open spec fn spec_code(self) -> usize {
        match self {
            ErrorKind::Timeout => 0,
            ErrorKind::NodeNotFound => 1,
            ErrorKind::NotSupported => 10,
            ErrorKind::TemporarilyUnavailable => 11,
            ErrorKind::MalformedRequest => 12,
            ErrorKind::Crash => 13,
            ErrorKind::Abort => 14,
            ErrorKind::KeyDoesNotExist => 20,
            ErrorKind::KeyAlreadyExists => 21,
            ErrorKind::PreconditionFailed => 22,
            ErrorKind::TxnConflict => 30,
        }
    }

    /// The wire code of this kind.
    #[verifier::when_used_as_spec(spec_code)]
    pub fn code(self) -> (code: usize)
        ensures
            code == self.spec_code(),
    {
        match self {
            ErrorKind::Timeout => 0,
            ErrorKind::NodeNotFound => 1,
            ErrorKind::NotSupported => 10,
            ErrorKind::TemporarilyUnavailable => 11,
            ErrorKind::MalformedRequest => 12,
            ErrorKind::Crash => 13,
            ErrorKind::Abort => 14,
            ErrorKind::KeyDoesNotExist => 20,
            ErrorKind::KeyAlreadyExists => 21,
            ErrorKind::PreconditionFailed => 22,
            ErrorKind::TxnConflict => 30,
        }
    }
}

impl From<ErrorKind> for usize {
    fn from(kind: ErrorKind) -> (code: usize) {
        kind.code()
    }
}

impl FromSpecImpl<ErrorKind> for usize {
    open spec fn obeys_from_spec() -> bool {
        true
    }

    open spec fn from_spec(kind: ErrorKind) -> usize {
        kind.spec_code()
    }
}

/// What an [`ErrorMessage`] holds, as plain values.
pub struct ErrorMessageView {
    pub code: usize,
    pub text: Seq<char>,
    pub cause: Option<Seq<char>>,
}

/// A protocol error: a code of the taxonomy, a human text and, for local
/// diagnostics only, the text of what caused it. The cause never goes on the
/// wire.
#[derive(Debug)]
pub struct ErrorMessage {
    code: usize,
    text: String,
    source: Option<String>,
}

impl View for ErrorMessage {
    type V = ErrorMessageView;

    closed spec fn view(&self) -> ErrorMessageView {
        ErrorMessageView {
            code: self.code,
            text: self.text@,
            cause: match self.source {
                Some(cause) => Some(cause@),
                None => None,
            },
        }
    }
}

impl ErrorMessageView {
    /// The error of kind `kind` with text `text` and no cause.
    pub open spec fn of(kind: ErrorKind, text: Seq<char>) -> ErrorMessageView {
        ErrorMessageView { code: kind.spec_code(), text, cause: None }
    }

    /// The payload of an `error` reply that reports this error: its code and
    /// its text. The cause stays behind.
    pub open spec fn fields(self) -> Fields {
        no_fields().insert("code"@, Json::Number(JsonNumber::Natural(self.code as u64))).insert(
            "text"@,
            Json::String(self.text),
        )
    }

    /// The text that this error renders to: `[code] text`, followed by a
    /// line naming the cause where one is attached.
    pub open spec fn rendered(self) -> Seq<char> {
        let head = "["@ + decimal(self.code as nat) + "] "@ + self.text;
        match self.cause {
            Some(cause) => head + "\nSource: "@ + cause,
            None => head,
        }
    }
}

impl ErrorMessage {
    /// An error of the given kind with the given text and no cause.
    pub fn new(error: ErrorKind, text: &str) -> (message: ErrorMessage)
        ensures
            message@ == ErrorMessageView::of(error, text@),
    {
        ErrorMessage { code: error.code(), text: String::from_str(text), source: None }
    }

    /// The same error with `cause` attached as the text of its cause.
    pub fn with_cause(self, cause: &str) -> (message: ErrorMessage)
        ensures
            message@ == (ErrorMessageView { cause: Some(cause@), ..self@ }),
    {
        ErrorMessage { code: self.code, text: self.text, source: Some(String::from_str(cause)) }
    }

    /// The same error with `source` attached as its cause. The cause is kept
    /// as the text that `source` displays as.
    pub fn with_source<E: std::fmt::Display>(self, source: E) -> (message: ErrorMessage)
        ensures
            message@.code == self@.code,
            message@.text == self@.text,
            exists|text: String|
                message@.cause == Some(text@) && #[trigger] to_string_from_display_ensures::<E>(
                    &source,
                    text,
                ),
    {
        let cause = source.to_string();
        let message = self.with_cause(cause.as_str());
        assert(message@.cause == Some(cause@) && to_string_from_display_ensures::<E>(
            &source,
            cause,
        ));
        message
    }

    /// The numeric code.
    pub fn code(&self) -> (code: usize)
        ensures
            code == self@.code,
    {
        self.code
    }

    /// The human text.
    pub fn text(&self) -> (text: &str)
        ensures
            text@ == self@.text,
    {
        self.text.as_str()
    }

    /// The text of the cause, where one is attached.
    pub fn cause(&self) -> (cause: Option<&str>)
        ensures
            match cause {
                Some(c) => self@.cause == Some(c@),
                None => self@.cause is None,
            },
    {
        match &self.source {
            Some(cause) => Some(cause.as_str()),
            None => None,
        }
    }

    /// Writes the error as the payload of an `error` reply: its code and its
    /// text. The cause stays behind.
    pub fn to_value(&self) -> (value: Value)
        ensures
            json_of(value) == Json::Object(self@.fields()),
    {
        let mut map = map_new();
        map_insert(&mut map, String::from_str("code"), value_number(self.code as u64));
        map_insert(&mut map, String::from_str("text"), value_string(self.text.clone()));
        value_object(map)
    }

    /// Renders the error as `[code] text`, with a second line `Source: cause`
    /// where a cause is attached.
    pub fn to_string(&self) -> (rendered: String)
        ensures
            rendered@ == self@.rendered(),
    {
        let mut out = String::from_str("[");
        out.append(decimal_string(self.code).as_str());
        out.append("] ");
        out.append(self.text.as_str());
        match &self.source {
            Some(cause) => {
                out.append("\nSource: ");
                out.append(cause.as_str());
            },
            None => {},
        }
        out
    }
}

impl Clone for ErrorMessage {
    fn clone(&self) -> (copy: ErrorMessage)
        ensures
            copy@ == self@,
    {
        ErrorMessage {
            code: self.code,
            text: self.text.clone(),
            source: match &self.source {
                Some(cause) => Some(cause.clone()),
                None => None,
            },
        }
    }
}

} // verus!
