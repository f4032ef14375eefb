//! Publish-subscribe vocabulary shared by every BryggIO client: client ids,
//! subjects, raw messages and the errors met while reading a message.
use vstd::prelude::*;

verus! {

/// Whether a client keeps running after handling a message.
#[derive(Copy, Clone, Debug, PartialEq, Eq)]
pub enum ClientState {
    Inactive,
    Active,
}

/// Unique id of a pub-sub client.
#[derive(Clone, Debug, PartialEq, Eq, Hash)]
pub struct ClientId(pub String);

impl ClientId {
    /// A client id with the text of `s`.
    pub fn from_text(s: &str) -> (r: ClientId)
        ensures
            r.0@ == s@,
    {
        ClientId(s.to_owned())
    }

    /// A copy of this id with the same text.
    pub fn duplicate(&self) -> (r: ClientId)
        ensures
            r.0@ == self.0@,
    {
        ClientId(self.0.clone())
    }

    /// The text of the id.
    pub fn as_str(&self) -> (r: &str)
        ensures
            r@ == self.0@,
    {
        self.0.as_str()
    }

    /// Whether two ids hold the same text.
    pub fn same(&self, other: &ClientId) -> (r: bool)
        ensures
            r == (self.0@ == other.0@),
    {
        self.0 == other.0
    }
}

/// A pub-sub subject, dot separated, such as `actor.mash.set_signal`.
#[derive(Clone, Debug, PartialEq, Eq)]
pub struct Subject(pub String);

impl Subject {
    /// A subject with the text of `s`.
    pub fn from_text(s: &str) -> (r: Subject)
        ensures
            r.0@ == s@,
    {
        Subject(s.to_owned())
    }
}

/// The payload of a pub-sub message.
#[derive(Clone, Debug, PartialEq, Eq)]
pub struct PubSubMsg(pub String);

impl PubSubMsg {
    /// A message with an empty payload.
    pub fn empty() -> (r: PubSubMsg)
        ensures
            r.0@ == Seq::<char>::empty(),
    {
        PubSubMsg(String::new())
    }
}

/// Why an incoming message could not be read.
#[derive(Clone, Debug, PartialEq, Eq)]
pub enum MessageParseError {
    /// The payload bytes are not UTF-8.
    InvalidUtf8(Vec<u8>),
    /// The payload text (first field) could not be read as the named type
    /// (second field); the third field is the reason given by the decoder.
    Deserialization(String, String, String),
    /// The subject does not name a message that the client understands.
    InvalidSubject(Subject),
}

/// The subject `prefix + id + suffix`.
pub fn compose_subject(prefix: &str, id: &ClientId, suffix: &str) -> (r: Subject)
    ensures
        r.0@ == prefix@ + id.0@ + suffix@,
{
    let mut s = prefix.to_owned();
    crate::text::push_text(&mut s, id.as_str());
    crate::text::push_text(&mut s, suffix);
    Subject(s)
}

} // verus!
