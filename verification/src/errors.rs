//! The errors that a stream hands to its consumer, and which of them may be
//! retried.

use vstd::prelude::*;

verus! {

/// `prost::DecodeError`, the error with which a Protobuf message fails to
/// decode. Declared without its fields: the library carries it and reads its
/// text, and nothing is claimed of what it holds.
#[verifier::external_type_specification]
#[verifier::external_body]
pub struct ExDecodeError(prost::DecodeError);

/// An error raised by a collaborator (the store, the transport, the MLS engine),
/// reduced to what the streaming core reads of it: its text, and whether the
/// collaborator classifies it as transient.
#[derive(Clone, Debug, PartialEq, Eq)]
pub struct SourceError {
    pub message: String,
    pub retryable: bool,
}

/// An error of the client shell.
#[derive(Clone, Debug, PartialEq, Eq)]
pub enum ClientError {
    /// A failure that is final for the item it concerns; it carries only a text.
    Generic(String),
    /// A collaborator's error passed through unchanged.
    Source(SourceError),
}

/// How the text of every decoding error begins.
pub open spec fn decode_error_prefix() -> Seq<char> {
    "failed to decode Protobuf message: "@
}

/// The text of a decoding error: `to_string` on `prost::DecodeError`, that is
/// its `Display`. Believed, not proved: the text begins with the fixed words
/// that this display writes before the location and the description of the
/// failure. Nothing is claimed of what follows them.
#[verifier::external_body]
fn decode_error_text(error: &prost::DecodeError) -> (text: String)
    ensures
        decode_error_prefix().is_prefix_of(text@),
{
    error.to_string()
}

impl ClientError {
    /// The generic error that stands for a failure to decode: it carries the
    /// decoding error's text.
    pub fn from_decode_error(error: &prost::DecodeError) -> (e: ClientError)
        ensures
            e matches ClientError::Generic(text) && decode_error_prefix().is_prefix_of(text@),
            !e.retryable(),
    {
        ClientError::Generic(decode_error_text(error))
    }

    /// A generic error is never retried; a collaborator's error is retried when
    /// the collaborator says so.
    pub open spec fn retryable(&self) -> bool {
        match self {
            ClientError::Generic(_) => false,
            ClientError::Source(e) => e.retryable,
        }
    }

    pub fn is_retryable(&self) -> (r: bool)
        ensures
            r == self.retryable(),
    {
        match self {
            ClientError::Generic(_) => false,
            ClientError::Source(e) => e.retryable,
        }
    }

    /// The text that the error carries.
    pub open spec fn message_text(&self) -> Seq<char> {
        match self {
            ClientError::Generic(text) => text@,
            ClientError::Source(e) => e.message@,
        }
    }

    pub fn message(&self) -> (text: String)
        ensures
            text@ == self.message_text(),
    {
        match self {
            ClientError::Generic(text) => text.clone(),
            ClientError::Source(e) => e.message.clone(),
        }
    }
}

/// A failure to publish on the local event bus.
#[derive(Clone, Debug, PartialEq, Eq)]
pub enum LocalEventError {
    Send(String),
}

impl LocalEventError {
    /// Publishing may always be tried again.
    pub fn is_retryable(&self) -> (r: bool)
        ensures
            r,
    {
        true
    }

    /// The text of the error: fixed words, then what the bus reported.
    pub open spec fn message_text(&self) -> Seq<char> {
        match self {
            LocalEventError::Send(reason) => "Unable to send event: "@ + reason@,
        }
    }

    pub fn message(&self) -> (text: String)
        ensures
            text@ == self.message_text(),
    {
        match self {
            LocalEventError::Send(reason) => "Unable to send event: ".to_owned().concat(
                reason.as_str(),
            ),
        }
    }
}

/// What a stream yields in place of an item that could not be produced.
#[derive(Debug, PartialEq, Eq)]
pub enum SubscribeError {
    FailedToStartNewMessagesStream(ClientError),
    Client(ClientError),
    Group(SourceError),
    GroupMessageNotFound,
    ReceiveGroup(SourceError),
    Database(SourceError),
    Storage(SourceError),
    Api(SourceError),
    Decode(prost::DecodeError),
}

/// A client error in a stream is a `Client` error.
impl From<ClientError> for SubscribeError {
    fn from(error: ClientError) -> (e: SubscribeError) {
        SubscribeError::Client(error)
    }
}

impl vstd::std_specs::convert::FromSpecImpl<ClientError> for SubscribeError {
    open spec fn obeys_from_spec() -> bool {
        true
    }

    open spec fn from_spec(error: ClientError) -> SubscribeError {
        SubscribeError::Client(error)
    }
}

/// A decoding error in a stream is a `Decode` error.
impl From<prost::DecodeError> for SubscribeError {
    fn from(error: prost::DecodeError) -> (e: SubscribeError) {
        SubscribeError::Decode(error)
    }
}

impl vstd::std_specs::convert::FromSpecImpl<prost::DecodeError> for SubscribeError {
    open spec fn obeys_from_spec() -> bool {
        true
    }

    open spec fn from_spec(error: prost::DecodeError) -> SubscribeError {
        SubscribeError::Decode(error)
    }
}

impl SubscribeError {
    /// Which errors may be tried again. Errors of group resolution, of message
    /// processing, of the database, of storage and of the transport are
    /// transient, whatever the wrapped error says of itself; so is a missing
    /// group message, a visibility race. A decode failure is final for its
    /// item. A client error, also one that kept a new fan-in from starting, is
    /// as retryable as the client says.
    pub open spec fn retryable(&self) -> bool {
        match self {
            SubscribeError::FailedToStartNewMessagesStream(e) => e.retryable(),
            SubscribeError::Client(e) => e.retryable(),
            SubscribeError::Group(_) => true,
            SubscribeError::GroupMessageNotFound => true,
            SubscribeError::ReceiveGroup(_) => true,
            SubscribeError::Database(_) => true,
            SubscribeError::Storage(_) => true,
            SubscribeError::Api(_) => true,
            SubscribeError::Decode(_) => false,
        }
    }

    pub fn is_retryable(&self) -> (r: bool)
        ensures
            r == self.retryable(),
    {
        match self {
            SubscribeError::FailedToStartNewMessagesStream(e) => e.is_retryable(),
            SubscribeError::Client(e) => e.is_retryable(),
            SubscribeError::Group(_) => true,
            SubscribeError::GroupMessageNotFound => true,
            SubscribeError::ReceiveGroup(_) => true,
            SubscribeError::Database(_) => true,
            SubscribeError::Storage(_) => true,
            SubscribeError::Api(_) => true,
            SubscribeError::Decode(_) => false,
        }
    }

    /// The stream error for a failure of the database, given its text. Like
    /// every storage failure it may be tried again.
    pub fn database(message: String) -> (e: SubscribeError)
        ensures
            e == SubscribeError::Database(SourceError { message, retryable: true }),
            e.retryable(),
    {
        SubscribeError::Database(SourceError { message, retryable: true })
    }

    /// Whether `text` is the text of the error. An error that only wraps
    /// another has the other's text; the rest put fixed words before it, or
    /// are fixed words. A decoding error has the decoder's text, of which only
    /// the beginning is known.
    pub open spec fn has_text(&self, text: Seq<char>) -> bool {
        match self {
            SubscribeError::FailedToStartNewMessagesStream(e) => text
                == "failed to start new messages stream "@ + e.message_text(),
            SubscribeError::Client(e) => text == e.message_text(),
            SubscribeError::Group(e) => text == e.message@,
            SubscribeError::GroupMessageNotFound => text
                == "group message expected in database but is missing"@,
            SubscribeError::ReceiveGroup(e) => text == "processing group message in stream: "@
                + e.message@,
            SubscribeError::Database(e) => text == e.message@,
            SubscribeError::Storage(e) => text == e.message@,
            SubscribeError::Api(e) => text == e.message@,
            SubscribeError::Decode(_) => decode_error_prefix().is_prefix_of(text),
        }
    }

    /// The text of the error.
    pub fn message(&self) -> (text: String)
        ensures
            self.has_text(text@),
    {
        match self {
            SubscribeError::FailedToStartNewMessagesStream(e) =>
                "failed to start new messages stream ".to_owned().concat(e.message().as_str()),
            SubscribeError::Client(e) => e.message(),
            SubscribeError::Group(e) => e.message.clone(),
            SubscribeError::GroupMessageNotFound =>
                "group message expected in database but is missing".to_owned(),
            SubscribeError::ReceiveGroup(e) =>
                "processing group message in stream: ".to_owned().concat(e.message.as_str()),
            SubscribeError::Database(e) => e.message.clone(),
            SubscribeError::Storage(e) => e.message.clone(),
            SubscribeError::Api(e) => e.message.clone(),
            SubscribeError::Decode(e) => decode_error_text(e),
        }
    }
}

} // verus!
