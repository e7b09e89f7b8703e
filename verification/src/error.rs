//! The ways in which a step can fail.

use vstd::prelude::*;

verus! {

/// Why an operation on a channel or a protocol step failed.
///
/// Every failure is reported to the caller; nothing is retried. The step that
/// was attempted is consumed either way.
#[derive(Clone, Copy, Debug, PartialEq, Eq, Structural)]
pub enum Error {
    /// The message that arrived carries a payload of another type than the
    /// step expects.
    TypeMismatch,
    /// The counterpart has dropped its outgoing handle and no message is left.
    ChannelClosed,
    /// The conduit rejected the message, because the counterpart is gone.
    SendFailure,
}

impl Error {
    /// A short description for the user.
    pub fn describe(&self) -> (text: String)
        ensures
            text@ == self.description(),
    {
        match self {
            Error::TypeMismatch => "got unexpected message".to_owned(),
            Error::ChannelClosed => "channel closed".to_owned(),
            Error::SendFailure => "cannot send".to_owned(),
        }
    }

    /// The text that [`Error::describe`] returns.
    pub open spec fn description(&self) -> Seq<char> {
        match self {
            Error::TypeMismatch => "got unexpected message"@,
            Error::ChannelClosed => "channel closed"@,
            Error::SendFailure => "cannot send"@,
        }
    }
}

} // verus!
