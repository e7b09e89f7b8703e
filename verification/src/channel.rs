//! Channels to one counterpart, and the contract a backend has to meet.

use crate::error::Error;
use crate::message::{Message, Payload};
use crate::protocol::{Rx, Tx};
use std::marker::PhantomData;
use vstd::prelude::*;

verus! {

/// What an external choice between two incoming handles produced.
#[derive(Debug, PartialEq, Eq)]
pub enum Either {
    /// The message came from the first handle.
    Left(Message),
    /// The message came from the second handle.
    Right(Message),
    /// Both handles draw from one conduit, which produced the message.
    Both(Message),
}

impl Either {
    /// A message from the first handle.
    pub fn left(message: Message) -> (e: Either)
        ensures
            e == Either::Left(message),
    {
        Either::Left(message)
    }

    /// A message from the second handle.
    pub fn right(message: Message) -> (e: Either)
        ensures
            e == Either::Right(message),
    {
        Either::Right(message)
    }

    /// The message, whichever handle it came from.
    pub open spec fn message(self) -> Message {
        match self {
            Either::Left(m) => m,
            Either::Right(m) => m,
            Either::Both(m) => m,
        }
    }
}

/// A backend that moves messages between roles.
///
/// A conduit carries messages in one direction, first in, first out, from its
/// outgoing handles to its incoming handles. Contracts tell conduits apart by
/// an identity that a handle keeps for as long as it lives.
pub trait Transport: Clone {
    /// The incoming handle of a conduit.
    type Rx;

    /// The outgoing handle of a conduit.
    type Tx;

    /// The conduit that `tx` feeds.
    spec fn outgoing_conduit(tx: &Self::Tx) -> int;

    /// The conduit that `rx` draws from.
    spec fn incoming_conduit(rx: &Self::Rx) -> int;

    /// Whether the two handles are duplicates of one another, so that a
    /// message taken through one of them is gone for the other. A backend
    /// whose incoming handles cannot be duplicated answers `false` throughout.
    spec fn same_source(rx1: &Self::Rx, rx2: &Self::Rx) -> bool;

    /// Handles that are duplicates of one another draw from one conduit.
    proof fn lemma_same_source(rx1: &Self::Rx, rx2: &Self::Rx)
        ensures
            Self::same_source(rx1, rx2) ==> Self::incoming_conduit(rx1) == Self::incoming_conduit(
                rx2,
            ),
    ;

    /// Creates a conduit and returns its two handles.
    fn make_channel(&self) -> (ends: (Self::Tx, Self::Rx))
        ensures
            Self::outgoing_conduit(&ends.0) == Self::incoming_conduit(&ends.1),
    ;

    /// Waits for the next message on `rx`. Fails once the conduit is closed
    /// and empty.
    fn recv(&self, rx: &mut Self::Rx) -> (arrival: Result<Message, Error>)
        ensures
            Self::incoming_conduit(final(rx)) == Self::incoming_conduit(old(rx)),
            arrival matches Err(e) ==> e == Error::ChannelClosed,
    ;

    /// Hands `value` to the conduit behind `tx`. Fails where the counterpart
    /// is gone.
    fn send(&self, tx: &mut Self::Tx, value: Message) -> (outcome: Result<(), Error>)
        ensures
            Self::outgoing_conduit(final(tx)) == Self::outgoing_conduit(old(tx)),
            outcome matches Err(e) ==> e == Error::SendFailure,
    ;

    /// Waits for the next message on either handle and tells where it came
    /// from. Where the handles are duplicates of one another, it takes a
    /// single message and reports it as coming from both. Otherwise the handle
    /// that is ready first decides; where both are ready, either may be
    /// chosen, and what the other one holds stays there. It fails on closure
    /// only where no message is ready on either handle: a closed conduit does
    /// not hide the message that the other one holds.
    fn choice(&self, rx1: &mut Self::Rx, rx2: &mut Self::Rx) -> (raced: Result<Either, Error>)
        ensures
            Self::incoming_conduit(final(rx1)) == Self::incoming_conduit(old(rx1)),
            Self::incoming_conduit(final(rx2)) == Self::incoming_conduit(old(rx2)),
            raced matches Ok(e) ==> (e is Both <==> Self::same_source(old(rx1), old(rx2))),
            raced matches Err(e) ==> e == Error::ChannelClosed,
    ;
}

/// One role's end of the connection to the role `To`.
///
/// `To` exists in the type only: it keeps the channels to different
/// counterparts apart at compile time and is never looked at when the program
/// runs.
pub struct Channel<To, Tr: Transport> {
    pub(crate) tx: Tr::Tx,
    pub(crate) rx: Tr::Rx,
    pub(crate) tr: Tr,
    _ph: PhantomData<To>,
}

impl<To, Tr> Clone for Channel<To, Tr> where Tr: Transport, Tr::Rx: Clone, Tr::Tx: Clone {
    /// A second channel to the same counterpart, over duplicates of this
    /// channel's handles. Only a backend whose handles can be duplicated
    /// offers it.
    fn clone(&self) -> (copy: Self)
        ensures
            cloned(self.outgoing_handle(), copy.outgoing_handle()),
            cloned(self.incoming_handle(), copy.incoming_handle()),
    {
        Self { tx: self.tx.clone(), rx: self.rx.clone(), tr: self.tr.clone(), _ph: PhantomData }
    }
}

impl<To, Tr: Transport> Channel<To, Tr> {
    /// The handle on which this channel sends.
    pub closed spec fn outgoing_handle(&self) -> Tr::Tx {
        self.tx
    }

    /// The handle on which this channel receives.
    pub closed spec fn incoming_handle(&self) -> Tr::Rx {
        self.rx
    }

    /// The conduit on which this channel sends.
    pub open spec fn outgoing(&self) -> int {
        Tr::outgoing_conduit(&self.outgoing_handle())
    }

    /// The conduit on which this channel receives.
    pub open spec fn incoming(&self) -> int {
        Tr::incoming_conduit(&self.incoming_handle())
    }

    /// Whether this channel and `other` receive through duplicates of one
    /// handle, as a channel and its clone do.
    pub open spec fn shares_source<Other>(&self, other: &Channel<Other, Tr>) -> bool {
        Tr::same_source(&self.incoming_handle(), &other.incoming_handle())
    }

    /// What a choice between this channel and `other` may produce: a message
    /// from both exactly where the two share their source, and no error but
    /// the closure of a conduit.
    pub open spec fn choice_outcome<Other>(
        &self,
        other: &Channel<Other, Tr>,
        raced: Result<Either, Error>,
    ) -> bool {
        match raced {
            Ok(e) => e is Both <==> self.shares_source(other),
            Err(e) => e == Error::ChannelClosed,
        }
    }

    /// A channel over the given handles.
    pub fn new(tr: Tr, tx: Tr::Tx, rx: Tr::Rx) -> (channel: Self)
        ensures
            channel.outgoing_handle() == tx,
            channel.incoming_handle() == rx,
    {
        Self { tx, rx, tr, _ph: PhantomData }
    }

    /// Takes the channel apart into its transport, its outgoing handle and its
    /// incoming handle, for a caller that drives the transport by itself.
    pub fn into_parts(self) -> (parts: (Tr, Tr::Tx, Tr::Rx))
        ensures
            parts.1 == self.outgoing_handle(),
            parts.2 == self.incoming_handle(),
    {
        (self.tr, self.tx, self.rx)
    }

    /// Waits for the next message and takes the payload that `protocol`
    /// expects out of it.
    pub fn recv<T: Payload, Cont>(&mut self, protocol: Rx<To, T, Cont>) -> (r: Result<
        (T, Cont),
        Error,
    >)
        ensures
            final(self).incoming() == old(self).incoming(),
            final(self).outgoing() == old(self).outgoing(),
            exists|arrival: Result<Message, Error>|
                {
                    &&& arrival matches Err(e) ==> e == Error::ChannelClosed
                    &&& r == #[trigger] protocol.acceptance(arrival)
                },
    {
        let arrival = self.tr.recv(&mut self.rx);
        protocol.accept(arrival)
    }

    /// Sends `value` as the step `protocol` asks.
    pub fn send<T: Payload, Cont>(&mut self, protocol: Tx<To, T, Cont>, value: T) -> (r: Result<
        Cont,
        Error,
    >)
        ensures
            final(self).incoming() == old(self).incoming(),
            final(self).outgoing() == old(self).outgoing(),
            r matches Ok(cont) ==> cont == protocol.continuation(),
            r matches Err(e) ==> e == Error::SendFailure,
    {
        let message = value.pack();
        let outcome = self.tr.send(&mut self.tx, message);
        protocol.conclude(outcome)
    }

    /// Waits for the next message on this channel or on `other`, whichever
    /// produces one first, and tells which of the two it was.
    pub fn choice<Other>(&mut self, other: &mut Channel<Other, Tr>) -> (raced: Result<
        Either,
        Error,
    >)
        ensures
            final(self).incoming() == old(self).incoming(),
            final(self).outgoing() == old(self).outgoing(),
            final(other).incoming() == old(other).incoming(),
            final(other).outgoing() == old(other).outgoing(),
            old(self).choice_outcome(old(other), raced),
    {
        self.tr.choice(&mut self.rx, &mut other.rx)
    }
}

} // verus!
