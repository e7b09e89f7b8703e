//! The steps of a protocol: send one value, receive one value, offer a choice,
//! terminate.

use crate::channel::{Channel, Either, Transport};
use crate::error::Error;
use crate::message::{Message, Payload};
use std::marker::PhantomData;
use vstd::prelude::*;

verus! {

/// The root step of the protocol `P`, from which every later step follows.
pub fn protocol<P: Default>() -> (root: P)
    ensures
        call_ensures(P::default, (), root),
{
    P::default()
}

/// A named point of a protocol to which a later step can return, which closes
/// a loop. The marker stands where the loop goes round; `Body` is the step
/// with which each round begins.
pub trait Recursive: Sized {
    type Body: Default;
}

/// Begins a round of the loop that `marker` names. The step is made afresh:
/// nothing is carried over from the round before.
pub fn enter<R: Recursive>(marker: R) -> (body: R::Body)
    ensures
        call_ensures(<R::Body as Default>::default, (), body),
{
    <R::Body as Default>::default()
}

/// The step that sends one value of type `T` to `Role` and goes on with `Cont`.
pub struct Tx<Role, T, Cont> {
    pub(crate) cont: Cont,
    _ph: PhantomData<(Role, T)>,
}

impl<Role, T: Payload, Cont> Tx<Role, T, Cont> {
    /// The step that follows this one.
    pub closed spec fn continuation(self) -> Cont {
        self.cont
    }

    /// What the step yields once the transport has answered the send with
    /// `outcome`.
    pub open spec fn conclusion(self, outcome: Result<(), Error>) -> Result<Cont, Error> {
        match outcome {
            Ok(_) => Ok(self.continuation()),
            Err(e) => Err(e),
        }
    }

    /// Ends this step with the transport's answer to the send: the next step
    /// where the message was taken, the transport's error where it was not.
    pub fn conclude(self, outcome: Result<(), Error>) -> (r: Result<Cont, Error>)
        ensures
            r == self.conclusion(outcome),
    {
        match outcome {
            Ok(_) => Ok(self.cont),
            Err(e) => Err(e),
        }
    }

    /// Sends `value` to `Role` over `channel`.
    pub fn send<Tr: Transport>(self, channel: &mut Channel<Role, Tr>, value: T) -> (r: Result<
        Cont,
        Error,
    >)
        ensures
            final(channel).incoming() == old(channel).incoming(),
            final(channel).outgoing() == old(channel).outgoing(),
            r matches Ok(cont) ==> cont == self.continuation(),
            r matches Err(e) ==> e == Error::SendFailure,
    {
        channel.send(self, value)
    }
}

impl<Role, T: Payload, Cont: Default> Default for Tx<Role, T, Cont> {
    /// The step as a protocol declares it: what follows is declared in turn.
    fn default() -> (step: Self)
        ensures
            call_ensures(Cont::default, (), step.continuation()),
    {
        Self { cont: Cont::default(), _ph: PhantomData }
    }
}

/// The step that receives one value of type `T` from `Role` and goes on with
/// `Cont`.
pub struct Rx<Role, T, Cont> {
    pub(crate) cont: Cont,
    _ph: PhantomData<(Role, T)>,
}

impl<Role, T: Payload, Cont> Rx<Role, T, Cont> {
    /// The step that follows this one.
    pub closed spec fn continuation(self) -> Cont {
        self.cont
    }

    /// What the step yields for what the transport delivered.
    pub open spec fn acceptance(self, arrival: Result<Message, Error>) -> Result<(T, Cont), Error> {
        match arrival {
            Ok(m) => if m.kind() == T::kind() {
                Ok((T::content(m), self.continuation()))
            } else {
                Err(Error::TypeMismatch)
            },
            Err(e) => Err(e),
        }
    }

    /// Ends this step with what the transport delivered: the payload and the
    /// next step where a message of the expected type arrived, a type mismatch
    /// where one of another type did, the transport's error where none did.
    pub fn accept(self, arrival: Result<Message, Error>) -> (r: Result<(T, Cont), Error>)
        ensures
            r == self.acceptance(arrival),
    {
        match arrival {
            Ok(m) => match T::unpack(m) {
                Ok(v) => Ok((v, self.cont)),
                Err(_) => Err(Error::TypeMismatch),
            },
            Err(e) => Err(e),
        }
    }

    /// Receives a value from `Role` over `channel`.
    pub fn recv<Tr: Transport>(self, channel: &mut Channel<Role, Tr>) -> (r: Result<
        (T, Cont),
        Error,
    >)
        ensures
            final(channel).incoming() == old(channel).incoming(),
            final(channel).outgoing() == old(channel).outgoing(),
            exists|arrival: Result<Message, Error>|
                {
                    &&& arrival matches Err(e) ==> e == Error::ChannelClosed
                    &&& r == #[trigger] self.acceptance(arrival)
                },
    {
        channel.recv(self)
    }
}

impl<Role, T: Payload, Cont: Default> Default for Rx<Role, T, Cont> {
    /// The step as a protocol declares it: what follows is declared in turn.
    fn default() -> (step: Self)
        ensures
            call_ensures(Cont::default, (), step.continuation()),
    {
        Self { cont: Cont::default(), _ph: PhantomData }
    }
}

/// The end of a protocol. A program that returns this value has run its
/// protocol in full.
#[derive(Debug, PartialEq, Eq)]
pub struct End;

impl Default for End {
    fn default() -> (end: Self)
        ensures
            end == End,
    {
        End
    }
}

/// The branch of a [`Choice`] that fired, with the value received and the
/// step that follows.
#[derive(Debug, PartialEq, Eq)]
pub enum ChoiceResult<T1, C1, T2, C2> {
    One(T1, C1),
    Two(T2, C2),
}

/// The step that receives either a `T1` from `Role1` or a `T2` from `Role2`,
/// whichever of the two sends next, and goes on with the continuation of the
/// branch that fired. The receiver does not choose: it finds out.
pub struct Choice<Role1, T1, Cont1, Role2, T2, Cont2> {
    one: Cont1,
    two: Cont2,
    _ph: PhantomData<(Role1, T1, Role2, T2)>,
}

impl<Role1, T1: Payload, Cont1, Role2, T2: Payload, Cont2> Choice<
    Role1,
    T1,
    Cont1,
    Role2,
    T2,
    Cont2,
> {
    /// The step that follows where the first branch fires.
    pub closed spec fn first(self) -> Cont1 {
        self.one
    }

    /// The step that follows where the second branch fires.
    pub closed spec fn second(self) -> Cont2 {
        self.two
    }

    /// The branch that fires for what the transport's choice produced.
    ///
    /// A message from the first handle must carry a `T1`, one from the second
    /// handle a `T2`. A message from a conduit that both handles share is
    /// tried as a `T1` first and as a `T2` after that.
    pub open spec fn resolution(self, raced: Result<Either, Error>) -> Result<
        ChoiceResult<T1, Cont1, T2, Cont2>,
        Error,
    > {
        match raced {
            Ok(Either::Left(m)) => if m.kind() == T1::kind() {
                Ok(ChoiceResult::One(T1::content(m), self.first()))
            } else {
                Err(Error::TypeMismatch)
            },
            Ok(Either::Right(m)) => if m.kind() == T2::kind() {
                Ok(ChoiceResult::Two(T2::content(m), self.second()))
            } else {
                Err(Error::TypeMismatch)
            },
            Ok(Either::Both(m)) => if m.kind() == T1::kind() {
                Ok(ChoiceResult::One(T1::content(m), self.first()))
            } else if m.kind() == T2::kind() {
                Ok(ChoiceResult::Two(T2::content(m), self.second()))
            } else {
                Err(Error::TypeMismatch)
            },
            Err(e) => Err(e),
        }
    }

    /// Ends this step with what the transport's choice produced.
    pub fn resolve(self, raced: Result<Either, Error>) -> (r: Result<
        ChoiceResult<T1, Cont1, T2, Cont2>,
        Error,
    >)
        ensures
            r == self.resolution(raced),
    {
        match raced {
            Ok(Either::Left(m)) => match T1::unpack(m) {
                Ok(v) => Ok(ChoiceResult::One(v, self.one)),
                Err(_) => Err(Error::TypeMismatch),
            },
            Ok(Either::Right(m)) => match T2::unpack(m) {
                Ok(v) => Ok(ChoiceResult::Two(v, self.two)),
                Err(_) => Err(Error::TypeMismatch),
            },
            Ok(Either::Both(m)) => match T1::unpack(m) {
                Ok(v) => Ok(ChoiceResult::One(v, self.one)),
                Err(m) => match T2::unpack(m) {
                    Ok(v) => Ok(ChoiceResult::Two(v, self.two)),
                    Err(_) => Err(Error::TypeMismatch),
                },
            },
            Err(e) => Err(e),
        }
    }

    /// Receives from whichever of `Role1` and `Role2` sends next.
    pub fn recv<Tr: Transport>(
        self,
        c1: &mut Channel<Role1, Tr>,
        c2: &mut Channel<Role2, Tr>,
    ) -> (r: Result<ChoiceResult<T1, Cont1, T2, Cont2>, Error>)
        ensures
            final(c1).incoming() == old(c1).incoming(),
            final(c1).outgoing() == old(c1).outgoing(),
            final(c2).incoming() == old(c2).incoming(),
            final(c2).outgoing() == old(c2).outgoing(),
            exists|raced: Result<Either, Error>|
                old(c1).choice_outcome(old(c2), raced) && r == #[trigger] self.resolution(raced),
    {
        let raced = c1.choice(c2);
        self.resolve(raced)
    }
}

/// A value that is sent arrives as it was sent: the step that receives the
/// envelope of `value` yields `value` itself, and the step that follows.
pub proof fn lemma_round_trip<Role, T: Payload, Cont>(step: Rx<Role, T, Cont>, value: T)
    ensures
        step.acceptance(Ok(value.envelope())) == Ok::<(T, Cont), Error>(
            (value, step.continuation()),
        ),
{
    T::lemma_envelope(value);
}

/// A step hands out a payload only from a message of its own type, and then
/// the payload that the message carries; a message of any other type is a type
/// mismatch.
pub proof fn lemma_type_enforced<Role, T: Payload, Cont>(step: Rx<Role, T, Cont>, m: Message)
    ensures
        match step.acceptance(Ok(m)) {
            Ok((v, cont)) => m.kind() == T::kind() && v.envelope() == m && cont
                == step.continuation(),
            Err(e) => m.kind() != T::kind() && e == Error::TypeMismatch,
        },
{
    if m.kind() == T::kind() {
        T::lemma_content(m);
    }
}

/// Between two conduits, the branch reported is that of the conduit that the
/// message came from, and the value reported is the payload of that message.
/// A message that does not carry the type of its branch is a type mismatch,
/// also where it would fit the other branch.
pub proof fn lemma_choice_exclusive<Role1, T1: Payload, Cont1, Role2, T2: Payload, Cont2>(
    step: Choice<Role1, T1, Cont1, Role2, T2, Cont2>,
    raced: Either,
)
    requires
        !(raced is Both),
    ensures
        match step.resolution(Ok(raced)) {
            Ok(ChoiceResult::One(v, cont)) => raced == Either::Left(v.envelope()) && cont
                == step.first(),
            Ok(ChoiceResult::Two(v, cont)) => raced == Either::Right(v.envelope()) && cont
                == step.second(),
            Err(e) => {
                &&& e == Error::TypeMismatch
                &&& raced is Left ==> raced.message().kind() != T1::kind()
                &&& raced is Right ==> raced.message().kind() != T2::kind()
            },
        },
{
    match raced {
        Either::Left(m) => {
            if m.kind() == T1::kind() {
                T1::lemma_content(m);
            }
        },
        Either::Right(m) => {
            if m.kind() == T2::kind() {
                T2::lemma_content(m);
            }
        },
        Either::Both(_) => {},
    }
}

/// On a conduit that both branches share, one message is classified: it
/// fires the first branch where it carries the first branch's type, else the
/// second branch where it carries the second's, and is a type mismatch where
/// it carries neither.
pub proof fn lemma_same_source_choice<Role1, T1: Payload, Cont1, Role2, T2: Payload, Cont2>(
    step: Choice<Role1, T1, Cont1, Role2, T2, Cont2>,
    m: Message,
)
    ensures
        match step.resolution(Ok(Either::Both(m))) {
            Ok(ChoiceResult::One(v, cont)) => {
                &&& m.kind() == T1::kind()
                &&& v.envelope() == m
                &&& cont == step.first()
            },
            Ok(ChoiceResult::Two(v, cont)) => {
                &&& m.kind() != T1::kind()
                &&& m.kind() == T2::kind()
                &&& v.envelope() == m
                &&& cont == step.second()
            },
            Err(e) => {
                &&& e == Error::TypeMismatch
                &&& m.kind() != T1::kind()
                &&& m.kind() != T2::kind()
            },
        },
{
    if m.kind() == T1::kind() {
        T1::lemma_content(m);
    } else if m.kind() == T2::kind() {
        T2::lemma_content(m);
    }
}

impl<Role1, T1: Payload, Cont1: Default, Role2, T2: Payload, Cont2: Default> Default for Choice<
    Role1,
    T1,
    Cont1,
    Role2,
    T2,
    Cont2,
> {
    /// The step as a protocol declares it: both branches are declared in turn.
    fn default() -> (step: Self)
        ensures
            call_ensures(Cont1::default, (), step.first()),
            call_ensures(Cont2::default, (), step.second()),
    {
        Self { one: Cont1::default(), two: Cont2::default(), _ph: PhantomData }
    }
}

} // verus!
