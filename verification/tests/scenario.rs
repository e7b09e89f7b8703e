use party_types::transports::{Crossbeam, FuturesChannel};
use party_types::ChoiceResult::{One, Two};
use party_types::{enter, pair, protocol, Choice, End, Error, Recursive, Rx, Tx};

struct Q;
struct A;
struct B;
struct C;

type ProtQ = Tx<A, u32, Rx<A, u32, Tx<A, String, End>>>;

#[derive(Default)]
struct RecA;

impl Recursive for RecA {
    type Body = Choice<
        Q,
        u32,
        Tx<B, u32, Choice<C, u32, Tx<Q, u32, RecA>, B, u32, Tx<Q, u32, RecA>>>,
        Q,
        String,
        End,
    >;
}

#[derive(Default)]
struct RecB;

impl Recursive for RecB {
    type Body = Rx<A, u32, (Tx<C, u32, RecB>, Tx<A, u32, RecB>)>;
}

#[derive(Default)]
struct RecC;

impl Recursive for RecC {
    type Body = Rx<B, u32, Tx<A, u32, RecC>>;
}

/// Runs the four roles in one thread, each role's steps in the order in which
/// the messages allow them. Returns what Q received, which of A's branches
/// delivered it, the text that ended A, and how B and C ended.
fn run(start: u32) -> (u32, &'static str, String, Error, Error) {
    let (mut ch_qa, mut ch_aq) = pair::<Q, A, _>(&Crossbeam);
    let (mut ch_ab, mut ch_ba) = pair::<A, B, _>(&Crossbeam);
    let (mut ch_ac, mut ch_ca) = pair::<A, C, _>(&Crossbeam);
    let (mut ch_bc, mut ch_cb) = pair::<B, C, _>(&Crossbeam);
    let mut ch_aq2 = ch_aq.clone();

    let prot_q: ProtQ = protocol();
    let prot_a = enter(protocol::<RecA>());
    let prot_b = enter(protocol::<RecB>());
    let prot_c = enter(protocol::<RecC>());

    // Q sends the number to A, and A forwards it to B.
    let prot_q = prot_q.send(&mut ch_qa, start).unwrap();
    let prot_a = match prot_a.recv(&mut ch_aq, &mut ch_aq2).unwrap() {
        One(value, cont) => cont.send(&mut ch_ab, value).unwrap(),
        Two(_, _) => panic!("A got the text before the number"),
    };

    // B echoes a small number back to A and hands a large one on to C, which
    // relays it to A.
    let (value, branches) = prot_b.recv(&mut ch_ba).unwrap();
    let (prot_b, prot_c) = if value > 100 {
        let prot_b = enter(branches.0.send(&mut ch_bc, value).unwrap());
        let (value, cont) = prot_c.recv(&mut ch_cb).unwrap();
        (prot_b, enter(cont.send(&mut ch_ca, value).unwrap()))
    } else {
        (enter(branches.1.send(&mut ch_ba, value).unwrap()), prot_c)
    };

    // A takes the number from whichever of the two sent it, and returns it to Q.
    let (via, prot_a) = match prot_a.recv(&mut ch_ac, &mut ch_ab).unwrap() {
        One(value, cont) => ("C", enter(cont.send(&mut ch_aq, value).unwrap())),
        Two(value, cont) => ("B", enter(cont.send(&mut ch_aq, value).unwrap())),
    };
    let (value, prot_q) = prot_q.recv(&mut ch_qa).unwrap();

    // Q stops A, and A's end closes the conduits that B and C wait on.
    let _end: End = prot_q.send(&mut ch_qa, "stop".to_string()).unwrap();
    let text = match prot_a.recv(&mut ch_aq, &mut ch_aq2).unwrap() {
        One(_, _) => panic!("A got a number in place of the text"),
        Two(text, End) => text,
    };
    drop((ch_aq, ch_aq2, ch_ab, ch_ac));
    let b_ended = prot_b.recv(&mut ch_ba).err().unwrap();
    drop((ch_ba, ch_bc));
    let c_ended = prot_c.recv(&mut ch_cb).err().unwrap();
    drop((ch_cb, ch_ca));

    (value, via, text, b_ended, c_ended)
}

#[test]
fn four_roles_echo_a_small_value_through_b() {
    assert_eq!(
        run(1),
        (1, "B", "stop".to_string(), Error::ChannelClosed, Error::ChannelClosed)
    );
}

#[test]
fn four_roles_echo_the_largest_small_value_through_b() {
    assert_eq!(
        run(100),
        (100, "B", "stop".to_string(), Error::ChannelClosed, Error::ChannelClosed)
    );
}

#[test]
fn four_roles_relay_a_large_value_through_c() {
    assert_eq!(
        run(101),
        (101, "C", "stop".to_string(), Error::ChannelClosed, Error::ChannelClosed)
    );
}

#[test]
fn closure_cascades_down_a_chain_of_roles() {
    let (first_to_second, mut second_to_first) = pair::<A, B, _>(&Crossbeam);
    let (mut second_to_third, mut third_to_second) = pair::<B, C, _>(&Crossbeam);

    // The first role ends without sending.
    drop(first_to_second);

    // The second role waits for the first, fails, and ends in turn.
    let step: Rx<A, u32, Tx<C, u32, End>> = protocol();
    let second = match step.recv(&mut second_to_first) {
        Ok((value, step)) => step.send(&mut second_to_third, value),
        Err(e) => Err(e),
    };
    assert_eq!(second, Err(Error::ChannelClosed));
    drop((second_to_first, second_to_third));

    // The third role, which never heard of the first, sees the closure too.
    let step: Rx<B, u32, End> = protocol();
    assert_eq!(step.recv(&mut third_to_second), Err(Error::ChannelClosed));
}

#[test]
fn closure_cascades_over_the_futures_backend_too() {
    let (first_to_second, mut second_to_first) = pair::<A, B, _>(&FuturesChannel);
    let (mut second_to_third, mut third_to_second) = pair::<B, C, _>(&FuturesChannel);
    drop(first_to_second);

    let step: Rx<A, u32, Tx<C, u32, End>> = protocol();
    let second = match step.recv(&mut second_to_first) {
        Ok((value, step)) => step.send(&mut second_to_third, value),
        Err(e) => Err(e),
    };
    assert_eq!(second, Err(Error::ChannelClosed));
    drop((second_to_first, second_to_third));

    let step: Rx<B, u32, End> = protocol();
    assert_eq!(step.recv(&mut third_to_second), Err(Error::ChannelClosed));
}
