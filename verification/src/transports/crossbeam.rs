//! A backend for roles that run on threads of their own: conduits are
//! unbounded queues, and a role that waits blocks its thread.

use crate::channel::{Channel, Either, Transport};
use crate::error::Error;
use crate::message::Message;
use crossbeam_channel::{Receiver, RecvError, SendError, Sender, TryRecvError};
use vstd::prelude::*;

verus! {

/// The sending half of a queue of `crossbeam_channel`. Nothing of its inside
/// is visible to the verifier.
#[verifier::external_type_specification]
#[verifier::external_body]
#[verifier::reject_recursive_types(T)]
pub struct ExSender<T>(Sender<T>);

/// The receiving half of a queue of `crossbeam_channel`. Nothing of its
/// inside is visible to the verifier.
#[verifier::external_type_specification]
#[verifier::external_body]
#[verifier::reject_recursive_types(T)]
pub struct ExReceiver<T>(Receiver<T>);

/// The error of `Receiver::recv`: the queue is empty and all its senders are
/// gone.
#[verifier::external_type_specification]
#[verifier::external_body]
pub struct ExRecvError(RecvError);

/// The error of `Sender::send`: all receivers of the queue are gone. It holds
/// the message that was not sent.
#[verifier::external_type_specification]
#[verifier::external_body]
#[verifier::reject_recursive_types(T)]
pub struct ExSendError<T>(SendError<T>);

/// The error of `Receiver::try_recv`: the queue is empty, whether or not a
/// sending half is left.
#[verifier::external_type_specification]
#[verifier::external_body]
pub struct ExTryRecvError(TryRecvError);

/// The queue that a sending half belongs to.
pub uninterp spec fn sender_queue(tx: Sender<Message>) -> int;

/// The queue that a receiving half belongs to. Two receiving halves belong to
/// one queue exactly where `Receiver::same_channel` says so.
pub uninterp spec fn receiver_queue(rx: Receiver<Message>) -> int;

/// `crossbeam_channel::unbounded`: a new queue without a bound on its length.
/// Believed: the two halves returned belong to one queue.
#[verifier::external_body]
fn unbounded_queue() -> (ends: (Sender<Message>, Receiver<Message>))
    ensures
        sender_queue(ends.0) == receiver_queue(ends.1),
{
    crossbeam_channel::unbounded()
}

/// `Sender::clone`: one more sending half. Believed: it belongs to the queue
/// of the half it was made from.
#[verifier::external_body]
fn sender_clone(tx: &Sender<Message>) -> (copy: Sender<Message>)
    ensures
        sender_queue(copy) == sender_queue(*tx),
{
    tx.clone()
}

/// `Receiver::clone`: one more receiving half. Believed: it belongs to the
/// queue of the half it was made from.
#[verifier::external_body]
fn receiver_clone(rx: &Receiver<Message>) -> (copy: Receiver<Message>)
    ensures
        receiver_queue(copy) == receiver_queue(*rx),
{
    rx.clone()
}

/// `Receiver::recv`: blocks until a message is there, or until the queue is
/// empty and disconnected. Nothing is claimed of the result.
#[verifier::external_body]
fn queue_recv(rx: &Receiver<Message>) -> (r: Result<Message, RecvError>) {
    rx.recv()
}

/// `Receiver::try_recv`: takes a message where one is there, and returns an
/// error at once where the queue is empty. Nothing is claimed of the result.
#[verifier::external_body]
fn queue_try_recv(rx: &Receiver<Message>) -> (r: Result<Message, TryRecvError>) {
    rx.try_recv()
}

/// `Sender::send`: puts the message into the queue, or returns it where the
/// queue is disconnected. Nothing is claimed of the result.
#[verifier::external_body]
fn queue_send(tx: &Sender<Message>, message: Message) -> (r: Result<(), SendError<Message>>) {
    tx.send(message)
}

/// `Receiver::same_channel`. Believed: it tells whether the two halves belong
/// to one queue.
#[verifier::external_body]
fn same_queue(rx1: &Receiver<Message>, rx2: &Receiver<Message>) -> (same: bool)
    ensures
        same == (receiver_queue(*rx1) == receiver_queue(*rx2)),
{
    rx1.same_channel(rx2)
}

/// `Select::select` over two receive operations, completed on the receiver
/// that was selected: blocks until one of the two queues has a message or is
/// disconnected. Returns the index of the operation selected, 0 for `rx1` and
/// 1 for `rx2`, and what receiving from it gave. Believed: the index is one of
/// the two.
#[verifier::external_body]
fn select_recv(rx1: &Receiver<Message>, rx2: &Receiver<Message>) -> (r: (
    usize,
    Result<Message, RecvError>,
))
    ensures
        r.0 < 2,
{
    let receivers = [rx1, rx2];
    let mut select = crossbeam_channel::Select::new();
    select.recv(receivers[0]);
    select.recv(receivers[1]);
    let operation = select.select();
    let index = operation.index();
    (index, operation.recv(receivers[index]))
}

/// The outgoing handle of a conduit of [`Crossbeam`].
pub struct Outgoing {
    queue: Sender<Message>,
}

impl Outgoing {
    /// The conduit that this handle feeds.
    pub closed spec fn conduit(&self) -> int {
        sender_queue(self.queue)
    }
}

impl Clone for Outgoing {
    /// One more handle that feeds the same conduit.
    fn clone(&self) -> (copy: Self)
        ensures
            copy.conduit() == self.conduit(),
    {
        Outgoing { queue: sender_clone(&self.queue) }
    }
}

/// The incoming handle of a conduit of [`Crossbeam`].
pub struct Incoming {
    queue: Receiver<Message>,
}

impl Incoming {
    /// The conduit that this handle draws from.
    pub closed spec fn conduit(&self) -> int {
        receiver_queue(self.queue)
    }
}

impl Clone for Incoming {
    /// One more handle that draws from the same conduit. A message goes to
    /// one of the handles of a conduit only.
    fn clone(&self) -> (copy: Self)
        ensures
            copy.conduit() == self.conduit(),
    {
        Incoming { queue: receiver_clone(&self.queue) }
    }
}

/// A channel and its clone share their source.
pub proof fn lemma_clone_shares_source<To>(
    channel: Channel<To, Crossbeam>,
    copy: Channel<To, Crossbeam>,
)
    requires
        cloned(channel.incoming_handle(), copy.incoming_handle()),
    ensures
        channel.shares_source(&copy),
{
}

/// The backend over the queues of `crossbeam_channel`.
#[derive(Clone, Copy, Debug)]
pub struct Crossbeam;

impl Crossbeam {
    /// What a receive reports for what the queue gave: the message where
    /// there was one, closure where the queue is empty and disconnected.
    pub open spec fn arrival(taken: Result<Message, RecvError>) -> Result<Message, Error> {
        match taken {
            Ok(m) => Ok(m),
            Err(_) => Err(Error::ChannelClosed),
        }
    }

    /// Turns what the queue gave to a receive into what the receive reports.
    pub fn arrive(taken: Result<Message, RecvError>) -> (arrival: Result<Message, Error>)
        ensures
            arrival == Self::arrival(taken),
    {
        match taken {
            Ok(m) => Ok(m),
            Err(_) => Err(Error::ChannelClosed),
        }
    }

    /// What a send reports for the queue's answer: success where the queue
    /// took the message, a send failure where it handed the message back.
    pub open spec fn settlement(sent: Result<(), SendError<Message>>) -> Result<(), Error> {
        match sent {
            Ok(_) => Ok(()),
            Err(_) => Err(Error::SendFailure),
        }
    }

    /// Turns the queue's answer to a send into what the send reports. The
    /// message that a disconnected queue hands back is dropped.
    pub fn settle(sent: Result<(), SendError<Message>>) -> (outcome: Result<(), Error>)
        ensures
            outcome == Self::settlement(sent),
    {
        match sent {
            Ok(_) => Ok(()),
            Err(_) => Err(Error::SendFailure),
        }
    }
}

impl Crossbeam {
    /// What a choice reports for what the queue selected gave. `shared` says
    /// that both handles belong to one queue, `index` which of the two
    /// handles was selected where they do not: 0 for the first.
    pub open spec fn decision(shared: bool, index: usize, taken: Result<Message, RecvError>) -> Result<
        Either,
        Error,
    > {
        match taken {
            Ok(m) => if shared {
                Ok(Either::Both(m))
            } else if index == 0 {
                Ok(Either::Left(m))
            } else {
                Ok(Either::Right(m))
            },
            Err(_) => Err(Error::ChannelClosed),
        }
    }

    /// Turns what the queue selected gave into what the choice reports: the
    /// message taken, marked with its origin, or closure.
    pub fn decide(shared: bool, index: usize, taken: Result<Message, RecvError>) -> (raced: Result<
        Either,
        Error,
    >)
        ensures
            raced == Self::decision(shared, index, taken),
    {
        match taken {
            Ok(m) => if shared {
                Ok(Either::Both(m))
            } else if index == 0 {
                Ok(Either::Left(m))
            } else {
                Ok(Either::Right(m))
            },
            Err(_) => Err(Error::ChannelClosed),
        }
    }

    /// What a choice reports once the queue selected has turned out closed
    /// and the other one was asked without waiting. `index` is that of the
    /// handle asked, 0 for the first, and `tried` what its queue gave.
    pub open spec fn salvaged(index: usize, tried: Result<Message, TryRecvError>) -> Result<
        Either,
        Error,
    > {
        match tried {
            Ok(m) => if index == 0 {
                Ok(Either::Left(m))
            } else {
                Ok(Either::Right(m))
            },
            Err(_) => Err(Error::ChannelClosed),
        }
    }

    /// Turns what the queue asked without waiting gave into what the choice
    /// reports: its message, marked with its origin, or closure where it had
    /// none ready.
    pub fn salvage(index: usize, tried: Result<Message, TryRecvError>) -> (raced: Result<
        Either,
        Error,
    >)
        ensures
            raced == Self::salvaged(index, tried),
    {
        match tried {
            Ok(m) => if index == 0 {
                Ok(Either::Left(m))
            } else {
                Ok(Either::Right(m))
            },
            Err(_) => Err(Error::ChannelClosed),
        }
    }

    /// What a choice reports. `taken` is what the queue selected gave. Between
    /// two queues, where the one selected has turned out closed, `tried` is
    /// what the other one gave when asked without waiting; else nothing was
    /// asked of it.
    pub open spec fn choice_outcome(
        shared: bool,
        index: usize,
        taken: Result<Message, RecvError>,
        tried: Result<Message, TryRecvError>,
    ) -> Result<Either, Error> {
        if shared || taken is Ok {
            Self::decision(shared, index, taken)
        } else if index == 0 {
            Self::salvaged(1, tried)
        } else {
            Self::salvaged(0, tried)
        }
    }
}

impl Transport for Crossbeam {
    type Rx = Incoming;

    type Tx = Outgoing;

    open spec fn outgoing_conduit(tx: &Outgoing) -> int {
        tx.conduit()
    }

    open spec fn incoming_conduit(rx: &Incoming) -> int {
        rx.conduit()
    }

    open spec fn same_source(rx1: &Incoming, rx2: &Incoming) -> bool {
        rx1.conduit() == rx2.conduit()
    }

    proof fn lemma_same_source(rx1: &Incoming, rx2: &Incoming) {
    }

    fn make_channel(&self) -> (ends: (Outgoing, Incoming)) {
        let (tx, rx) = unbounded_queue();
        (Outgoing { queue: tx }, Incoming { queue: rx })
    }

    /// Takes the next message of the queue behind `rx`, waiting for one where
    /// the queue is empty and a sending half is left.
    fn recv(&self, rx: &mut Incoming) -> (arrival: Result<Message, Error>)
        ensures
            *final(rx) == *old(rx),
            exists|taken: Result<Message, RecvError>| arrival == #[trigger] Self::arrival(taken),
    {
        Self::arrive(queue_recv(&rx.queue))
    }

    /// Puts `value` at the end of the queue behind `tx`. The queue has no
    /// bound, so a send never waits.
    fn send(&self, tx: &mut Outgoing, value: Message) -> (outcome: Result<(), Error>)
        ensures
            *final(tx) == *old(tx),
            exists|sent: Result<(), SendError<Message>>|
                outcome == #[trigger] Self::settlement(sent),
    {
        Self::settle(queue_send(&tx.queue, value))
    }

    /// Where both handles belong to one queue, a single message is taken from
    /// it and reported as coming from both. Otherwise the first of the two
    /// queues that has a message, or is closed, is selected. Where it is
    /// closed, the other one is asked without waiting, so that closure is
    /// reported only where neither has a message ready.
    fn choice(&self, rx1: &mut Incoming, rx2: &mut Incoming) -> (raced: Result<Either, Error>)
        ensures
            *final(rx1) == *old(rx1),
            *final(rx2) == *old(rx2),
            exists|index: usize, taken: Result<Message, RecvError>, tried: Result<Message, TryRecvError>|
                index < 2 && raced == #[trigger] Self::choice_outcome(
                    Self::same_source(old(rx1), old(rx2)),
                    index,
                    taken,
                    tried,
                ),
    {
        let ghost shared = Self::same_source(old(rx1), old(rx2));
        if same_queue(&rx1.queue, &rx2.queue) {
            let taken = queue_recv(&rx1.queue);
            let ghost tried: Result<Message, TryRecvError> = arbitrary();
            let raced = Self::decide(true, 0, taken);
            assert(raced == Self::choice_outcome(shared, 0, taken, tried));
            raced
        } else {
            let (index, taken) = select_recv(&rx1.queue, &rx2.queue);
            match taken {
                Ok(m) => {
                    let ghost tried: Result<Message, TryRecvError> = arbitrary();
                    let raced = Self::decide(false, index, Ok(m));
                    assert(raced == Self::choice_outcome(shared, index, taken, tried));
                    raced
                },
                Err(_) => {
                    if index == 0 {
                        let tried = queue_try_recv(&rx2.queue);
                        let raced = Self::salvage(1, tried);
                        assert(raced == Self::choice_outcome(shared, index, taken, tried));
                        raced
                    } else {
                        let tried = queue_try_recv(&rx1.queue);
                        let raced = Self::salvage(0, tried);
                        assert(raced == Self::choice_outcome(shared, index, taken, tried));
                        raced
                    }
                },
            }
        }
    }
}

} // verus!
