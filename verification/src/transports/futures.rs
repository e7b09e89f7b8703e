//! A backend whose conduits can also be awaited: a role that waits through
//! this module blocks its thread, and a task may wait on the same conduits
//! without blocking.

use crate::channel::{Either, Transport};
use crate::error::Error;
use crate::message::Message;
use futures_channel::mpsc::{TryRecvError, TrySendError, UnboundedReceiver, UnboundedSender};
use futures_lite::StreamExt;
use vstd::prelude::*;

verus! {

/// The sending end of an unbounded channel of `futures_channel`. Nothing of
/// its inside is visible to the verifier.
#[verifier::external_type_specification]
#[verifier::external_body]
#[verifier::reject_recursive_types(T)]
pub struct ExUnboundedSender<T>(UnboundedSender<T>);

/// The receiving end of an unbounded channel of `futures_channel`. Nothing of
/// its inside is visible to the verifier.
#[verifier::external_type_specification]
#[verifier::external_body]
#[verifier::reject_recursive_types(T)]
pub struct ExUnboundedReceiver<T>(UnboundedReceiver<T>);

/// The error of `UnboundedSender::unbounded_send`. It holds the message that
/// was not sent.
#[verifier::external_type_specification]
#[verifier::external_body]
#[verifier::reject_recursive_types(T)]
pub struct ExTrySendError<T>(TrySendError<T>);

/// The error of `UnboundedReceiver::try_recv`: the channel is empty, whether
/// or not it is closed.
#[verifier::external_type_specification]
#[verifier::external_body]
pub struct ExTryRecvError(TryRecvError);

/// The channel that a sending end was made for.
pub uninterp spec fn sender_stream(tx: UnboundedSender<Message>) -> int;

/// The channel that a receiving end holds. An end that has come to the end of
/// its stream holds none any more, and nothing is claimed of it.
pub uninterp spec fn receiver_stream(rx: UnboundedReceiver<Message>) -> int;

/// `futures_channel::mpsc::unbounded`: a new channel without a bound on its
/// length. Believed: the receiving end returned holds the channel that the
/// sending end was made for.
#[verifier::external_body]
fn unbounded_stream() -> (ends: (UnboundedSender<Message>, UnboundedReceiver<Message>))
    ensures
        sender_stream(ends.0) == receiver_stream(ends.1),
{
    futures_channel::mpsc::unbounded()
}

/// `futures_lite::future::block_on` on `StreamExt::next`: blocks until the
/// channel has a message, or until it is empty and closed. Nothing is claimed
/// of the result, nor of the receiving end after the call.
#[verifier::external_body]
fn stream_next(rx: &mut UnboundedReceiver<Message>) -> (r: Option<Message>) {
    futures_lite::future::block_on(rx.next())
}

/// `UnboundedReceiver::try_recv`: takes a message where one is there, and
/// returns an error at once where the channel is empty. Nothing is claimed of
/// the result, nor of the receiving end after the call.
#[verifier::external_body]
fn stream_try_recv(rx: &mut UnboundedReceiver<Message>) -> (r: Result<Message, TryRecvError>) {
    rx.try_recv()
}

/// `UnboundedSender::unbounded_send`: puts the message into the channel, or
/// returns it where the receiving end is gone. Nothing is claimed of the
/// result.
#[verifier::external_body]
fn stream_send(tx: &UnboundedSender<Message>, message: Message) -> (r: Result<
    (),
    TrySendError<Message>,
>) {
    tx.unbounded_send(message)
}

/// `futures_lite::future::block_on` on `futures_lite::future::race` of the
/// next message of `rx1`, marked as coming from the left, and the next of
/// `rx2`, marked as coming from the right: blocks until one of the two is
/// there, or one of the channels is empty and closed. Believed: a message is
/// marked left or right. Nothing is claimed of the receiving ends after the
/// call.
#[verifier::external_body]
fn stream_race(rx1: &mut UnboundedReceiver<Message>, rx2: &mut UnboundedReceiver<Message>) -> (r:
    Option<Either>)
    ensures
        r matches Some(e) ==> e is Left || e is Right,
{
    let mut left = StreamExt::map(rx1, Either::left);
    let mut right = StreamExt::map(rx2, Either::right);
    futures_lite::future::block_on(futures_lite::future::race(left.next(), right.next()))
}

/// The incoming handle of a conduit of [`FuturesChannel`].
///
/// The handle remembers the conduit it was made for. The receiving end
/// inside lets go of its channel once the channel is closed and empty; the
/// handle's conduit stays what it was.
pub struct Incoming {
    stream: UnboundedReceiver<Message>,
    conduit: Ghost<int>,
}

impl Incoming {
    /// The conduit that this handle was made for.
    pub closed spec fn conduit(&self) -> int {
        self.conduit@
    }

    /// The receiving end inside.
    pub closed spec fn receiving_end(&self) -> UnboundedReceiver<Message> {
        self.stream
    }

    /// Lends out the receiving end inside, for a task that awaits it. The
    /// handle stays that of its conduit.
    pub fn stream(&mut self) -> (stream: &mut UnboundedReceiver<Message>)
        ensures
            *stream == old(self).receiving_end(),
            final(self).receiving_end() == *final(stream),
            final(self).conduit() == old(self).conduit(),
    {
        &mut self.stream
    }
}

/// The backend over the unbounded channels of `futures_channel`.
///
/// Its incoming handles cannot be duplicated, so no two of them draw from one
/// conduit.
#[derive(Clone, Copy, Debug)]
pub struct FuturesChannel;

impl FuturesChannel {
    /// What a receive reports for what the channel gave: the message where
    /// there was one, closure where the channel is empty and closed.
    pub open spec fn arrival(next: Option<Message>) -> Result<Message, Error> {
        match next {
            Some(m) => Ok(m),
            None => Err(Error::ChannelClosed),
        }
    }

    /// Turns what the channel gave to a receive into what the receive
    /// reports.
    pub fn arrive(next: Option<Message>) -> (arrival: Result<Message, Error>)
        ensures
            arrival == Self::arrival(next),
    {
        match next {
            Some(m) => Ok(m),
            None => Err(Error::ChannelClosed),
        }
    }

    /// What a send reports for the channel's answer: success where the
    /// channel took the message, a send failure where it handed the message
    /// back.
    pub open spec fn settlement(sent: Result<(), TrySendError<Message>>) -> Result<(), Error> {
        match sent {
            Ok(_) => Ok(()),
            Err(_) => Err(Error::SendFailure),
        }
    }

    /// Turns the channel's answer to a send into what the send reports. The
    /// message that a closed channel hands back is dropped.
    pub fn settle(sent: Result<(), TrySendError<Message>>) -> (outcome: Result<(), Error>)
        ensures
            outcome == Self::settlement(sent),
    {
        match sent {
            Ok(_) => Ok(()),
            Err(_) => Err(Error::SendFailure),
        }
    }

    /// What a choice reports once the race has ended on a closed channel and
    /// a handle was asked without waiting. `index` is that of the handle
    /// asked, 0 for the first, and `tried` what its channel gave.
    pub open spec fn salvaged(index: usize, tried: Result<Message, TryRecvError>) -> Result<
        Either,
        Error,
    > {
        match tried {
            Ok(m) => if index == 0 {
                Ok(Either::Left(m))
            } else {
                Ok(Either::Right(m))
            },
            Err(_) => Err(Error::ChannelClosed),
        }
    }

    /// Turns what the channel asked without waiting gave into what the choice
    /// reports: its message, marked with its origin, or closure where it had
    /// none ready.
    pub fn salvage(index: usize, tried: Result<Message, TryRecvError>) -> (raced: Result<
        Either,
        Error,
    >)
        ensures
            raced == Self::salvaged(index, tried),
    {
        match tried {
            Ok(m) => if index == 0 {
                Ok(Either::Left(m))
            } else {
                Ok(Either::Right(m))
            },
            Err(_) => Err(Error::ChannelClosed),
        }
    }

    /// What a choice reports. `first` is what the race gave. Where the race
    /// ended on a closed channel, `left` is what the first handle gave when
    /// asked without waiting, and `right` what the second gave, which is asked
    /// only where the first had no message.
    pub open spec fn choice_outcome(
        first: Option<Either>,
        left: Result<Message, TryRecvError>,
        right: Result<Message, TryRecvError>,
    ) -> Result<Either, Error> {
        match first {
            Some(e) => Ok(e),
            None => if left is Ok {
                Self::salvaged(0, left)
            } else {
                Self::salvaged(1, right)
            },
        }
    }

    /// Ends a choice between `rx1` and `rx2` with what the race between them
    /// gave. A message is reported as the race marked it. Where the race
    /// ended on a closed channel, the two handles are asked in turn without
    /// waiting, so that closure is reported only where neither has a message
    /// ready.
    pub fn decide(first: Option<Either>, rx1: &mut Incoming, rx2: &mut Incoming) -> (raced: Result<
        Either,
        Error,
    >)
        ensures
            final(rx1).conduit() == old(rx1).conduit(),
            final(rx2).conduit() == old(rx2).conduit(),
            exists|left: Result<Message, TryRecvError>, right: Result<Message, TryRecvError>|
                raced == #[trigger] Self::choice_outcome(first, left, right),
    {
        match first {
            Some(e) => {
                let ghost none: Result<Message, TryRecvError> = arbitrary();
                assert(Ok::<Either, Error>(e) == Self::choice_outcome(first, none, none));
                Ok(e)
            },
            None => {
                let left = stream_try_recv(&mut rx1.stream);
                match left {
                    Ok(m) => {
                        let ghost none: Result<Message, TryRecvError> = arbitrary();
                        let raced = Self::salvage(0, Ok(m));
                        assert(raced == Self::choice_outcome(first, left, none));
                        raced
                    },
                    Err(_) => {
                        let right = stream_try_recv(&mut rx2.stream);
                        let raced = Self::salvage(1, right);
                        assert(raced == Self::choice_outcome(first, left, right));
                        raced
                    },
                }
            },
        }
    }
}

impl Transport for FuturesChannel {
    type Rx = Incoming;

    type Tx = UnboundedSender<Message>;

    open spec fn outgoing_conduit(tx: &UnboundedSender<Message>) -> int {
        sender_stream(*tx)
    }

    open spec fn incoming_conduit(rx: &Incoming) -> int {
        rx.conduit()
    }

    open spec fn same_source(rx1: &Incoming, rx2: &Incoming) -> bool {
        false
    }

    proof fn lemma_same_source(rx1: &Incoming, rx2: &Incoming) {
    }

    fn make_channel(&self) -> (ends: (UnboundedSender<Message>, Incoming)) {
        let (tx, rx) = unbounded_stream();
        let conduit = Ghost(receiver_stream(rx));
        (tx, Incoming { stream: rx, conduit })
    }

    /// Takes the next message of the channel behind `rx`, waiting for one
    /// where the channel is empty and not closed.
    fn recv(&self, rx: &mut Incoming) -> (arrival: Result<Message, Error>)
        ensures
            exists|next: Option<Message>| arrival == #[trigger] Self::arrival(next),
    {
        Self::arrive(stream_next(&mut rx.stream))
    }

    /// Puts `value` at the end of the channel behind `tx`. The channel has no
    /// bound, so a send never waits.
    fn send(&self, tx: &mut UnboundedSender<Message>, value: Message) -> (outcome: Result<
        (),
        Error,
    >)
        ensures
            *final(tx) == *old(tx),
            exists|sent: Result<(), TrySendError<Message>>|
                outcome == #[trigger] Self::settlement(sent),
    {
        Self::settle(stream_send(tx, value))
    }

    /// The first of the two channels that has a message, or is closed, ends
    /// the race. Where it is closed, both handles are asked in turn without
    /// waiting, so that closure is reported only where neither has a message
    /// ready.
    fn choice(&self, rx1: &mut Incoming, rx2: &mut Incoming) -> (raced: Result<Either, Error>)
        ensures
            exists|
                first: Option<Either>,
                left: Result<Message, TryRecvError>,
                right: Result<Message, TryRecvError>,
            |
                {
                    &&& first matches Some(e) ==> e is Left || e is Right
                    &&& raced == #[trigger] Self::choice_outcome(first, left, right)
                },
    {
        let first = stream_race(&mut rx1.stream, &mut rx2.stream);
        Self::decide(first, rx1, rx2)
    }
}

} // verus!
