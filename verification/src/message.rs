//! The envelope that crosses a conduit, and the payload types it can carry.

use vstd::prelude::*;

verus! {

/// The type of the payload that a [`Message`] carries.
#[derive(Clone, Copy, Debug, PartialEq, Eq, Structural)]
pub enum Kind {
    Unit,
    Bool,
    U8,
    U32,
    U64,
    I64,
    Text,
    Bytes,
}

/// One payload value together with the identity of its type.
///
/// A conduit carries messages of every kind; the receiving step checks the
/// kind against the type it expects before it hands the payload out.
#[derive(Debug, PartialEq, Eq)]
pub enum Message {
    Unit,
    Bool(bool),
    U8(u8),
    U32(u32),
    U64(u64),
    I64(i64),
    Text(String),
    Bytes(Vec<u8>),
}

impl Message {
    /// The kind of this message's payload, in contracts.
    pub open spec fn spec_kind(&self) -> Kind {
        match self {
            Message::Unit => Kind::Unit,
            Message::Bool(_) => Kind::Bool,
            Message::U8(_) => Kind::U8,
            Message::U32(_) => Kind::U32,
            Message::U64(_) => Kind::U64,
            Message::I64(_) => Kind::I64,
            Message::Text(_) => Kind::Text,
            Message::Bytes(_) => Kind::Bytes,
        }
    }

    /// The kind of this message's payload.
    #[verifier::when_used_as_spec(spec_kind)]
    pub fn kind(&self) -> (k: Kind)
        ensures
            k == self.spec_kind(),
    {
        match self {
            Message::Unit => Kind::Unit,
            Message::Bool(_) => Kind::Bool,
            Message::U8(_) => Kind::U8,
            Message::U32(_) => Kind::U32,
            Message::U64(_) => Kind::U64,
            Message::I64(_) => Kind::I64,
            Message::Text(_) => Kind::Text,
            Message::Bytes(_) => Kind::Bytes,
        }
    }
}

/// A type whose values can travel in a [`Message`].
pub trait Payload: Sized {
    /// The kind under which values of this type travel.
    spec fn kind() -> Kind;

    /// The message that carries `self`.
    spec fn envelope(self) -> Message;

    /// The payload of `m`, where `m` is of this type's kind.
    spec fn content(m: Message) -> Self
        recommends
            m.kind() == Self::kind(),
    ;

    /// An envelope has its payload's kind, and holds the payload unchanged.
    proof fn lemma_envelope(v: Self)
        ensures
            v.envelope().kind() == Self::kind(),
            Self::content(v.envelope()) == v,
    ;

    /// A message of this kind is the envelope of its content.
    proof fn lemma_content(m: Message)
        requires
            m.kind() == Self::kind(),
        ensures
            Self::content(m).envelope() == m,
    ;

    /// Puts `self` into its envelope.
    fn pack(self) -> (m: Message)
        ensures
            m == self.envelope(),
    ;

    /// Takes the payload out of `m`, or hands `m` back where it is of another
    /// kind.
    fn unpack(m: Message) -> (r: Result<Self, Message>)
        ensures
            match r {
                Ok(v) => m.kind() == Self::kind() && v == Self::content(m),
                Err(back) => m.kind() != Self::kind() && back == m,
            },
    ;
}

impl Payload for () {
    open spec fn kind() -> Kind {
        Kind::Unit
    }

    open spec fn envelope(self) -> Message {
        Message::Unit
    }

    open spec fn content(m: Message) -> () {
        ()
    }

    proof fn lemma_envelope(v: ()) {
    }

    proof fn lemma_content(m: Message) {
    }

    fn pack(self) -> (m: Message) {
        Message::Unit
    }

    fn unpack(m: Message) -> (r: Result<(), Message>) {
        match m {
            Message::Unit => Ok(()),
            other => Err(other),
        }
    }
}

impl Payload for bool {
    open spec fn kind() -> Kind {
        Kind::Bool
    }

    open spec fn envelope(self) -> Message {
        Message::Bool(self)
    }

    open spec fn content(m: Message) -> bool {
        match m {
            Message::Bool(v) => v,
            _ => false,
        }
    }

    proof fn lemma_envelope(v: bool) {
    }

    proof fn lemma_content(m: Message) {
    }

    fn pack(self) -> (m: Message) {
        Message::Bool(self)
    }

    fn unpack(m: Message) -> (r: Result<bool, Message>) {
        match m {
            Message::Bool(v) => Ok(v),
            other => Err(other),
        }
    }
}

impl Payload for u8 {
    open spec fn kind() -> Kind {
        Kind::U8
    }

    open spec fn envelope(self) -> Message {
        Message::U8(self)
    }

    open spec fn content(m: Message) -> u8 {
        match m {
            Message::U8(v) => v,
            _ => 0,
        }
    }

    proof fn lemma_envelope(v: u8) {
    }

    proof fn lemma_content(m: Message) {
    }

    fn pack(self) -> (m: Message) {
        Message::U8(self)
    }

    fn unpack(m: Message) -> (r: Result<u8, Message>) {
        match m {
            Message::U8(v) => Ok(v),
            other => Err(other),
        }
    }
}

impl Payload for u32 {
    open spec fn kind() -> Kind {
        Kind::U32
    }

    open spec fn envelope(self) -> Message {
        Message::U32(self)
    }

    open spec fn content(m: Message) -> u32 {
        match m {
            Message::U32(v) => v,
            _ => 0,
        }
    }

    proof fn lemma_envelope(v: u32) {
    }

    proof fn lemma_content(m: Message) {
    }

    fn pack(self) -> (m: Message) {
        Message::U32(self)
    }

    fn unpack(m: Message) -> (r: Result<u32, Message>) {
        match m {
            Message::U32(v) => Ok(v),
            other => Err(other),
        }
    }
}

impl Payload for u64 {
    open spec fn kind() -> Kind {
        Kind::U64
    }

    open spec fn envelope(self) -> Message {
        Message::U64(self)
    }

    open spec fn content(m: Message) -> u64 {
        match m {
            Message::U64(v) => v,
            _ => 0,
        }
    }

    proof fn lemma_envelope(v: u64) {
    }

    proof fn lemma_content(m: Message) {
    }

    fn pack(self) -> (m: Message) {
        Message::U64(self)
    }

    fn unpack(m: Message) -> (r: Result<u64, Message>) {
        match m {
            Message::U64(v) => Ok(v),
            other => Err(other),
        }
    }
}

impl Payload for i64 {
    open spec fn kind() -> Kind {
        Kind::I64
    }

    open spec fn envelope(self) -> Message {
        Message::I64(self)
    }

    open spec fn content(m: Message) -> i64 {
        match m {
            Message::I64(v) => v,
            _ => 0,
        }
    }

    proof fn lemma_envelope(v: i64) {
    }

    proof fn lemma_content(m: Message) {
    }

    fn pack(self) -> (m: Message) {
        Message::I64(self)
    }

    fn unpack(m: Message) -> (r: Result<i64, Message>) {
        match m {
            Message::I64(v) => Ok(v),
            other => Err(other),
        }
    }
}

impl Payload for String {
    open spec fn kind() -> Kind {
        Kind::Text
    }

    open spec fn envelope(self) -> Message {
        Message::Text(self)
    }

    open spec fn content(m: Message) -> String {
        match m {
            Message::Text(v) => v,
            _ => arbitrary(),
        }
    }

    proof fn lemma_envelope(v: String) {
    }

    proof fn lemma_content(m: Message) {
    }

    fn pack(self) -> (m: Message) {
        Message::Text(self)
    }

    fn unpack(m: Message) -> (r: Result<String, Message>) {
        match m {
            Message::Text(v) => Ok(v),
            other => Err(other),
        }
    }
}

impl Payload for Vec<u8> {
    open spec fn kind() -> Kind {
        Kind::Bytes
    }

    open spec fn envelope(self) -> Message {
        Message::Bytes(self)
    }

    open spec fn content(m: Message) -> Vec<u8> {
        match m {
            Message::Bytes(v) => v,
            _ => arbitrary(),
        }
    }

    proof fn lemma_envelope(v: Vec<u8>) {
    }

    proof fn lemma_content(m: Message) {
    }

    fn pack(self) -> (m: Message) {
        Message::Bytes(self)
    }

    fn unpack(m: Message) -> (r: Result<Vec<u8>, Message>) {
        match m {
            Message::Bytes(v) => Ok(v),
            other => Err(other),
        }
    }
}

} // verus!
