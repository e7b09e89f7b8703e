//! Multi-party session types.
//!
//! Each participant (a *role*) holds a chain of single-use protocol steps and
//! one [`Channel`] per counterpart. Performing a step consumes it and yields
//! the next one, so the order of sends, receives and external choices that a
//! role performs is fixed by the type of its protocol.

pub mod channel;
pub mod error;
pub mod message;
pub mod protocol;
pub mod transports;

pub use channel::{Channel, Either, Transport};
pub use error::Error;
pub use message::{Kind, Message, Payload};
pub use protocol::{enter, protocol, Choice, ChoiceResult, End, Recursive, Rx, Tx};

use vstd::prelude::*;

verus! {

/// Connects two roles over `tr`.
///
/// Two conduits are made, one for each direction. The first channel returned
/// is the one that role `A` holds to reach `B`, the second the one that `B`
/// holds to reach `A`: what either of them sends, the other receives.
pub fn pair<A, B, Tr: Transport>(tr: &Tr) -> (ends: (Channel<B, Tr>, Channel<A, Tr>))
    ensures
        ends.0.outgoing() == ends.1.incoming(),
        ends.1.outgoing() == ends.0.incoming(),
{
    let (ta, ra) = tr.make_channel();
    let (tb, rb) = tr.make_channel();
    (Channel::new(tr.clone(), tb, ra), Channel::new(tr.clone(), ta, rb))
}

} // verus!
