use crust::addr::{ipv4, SocketAddress};
use crust::connect::{connect_start, connect_step, ConnectAction, ConnectEvent, CONNECT_TIMEOUT_SECS};
use crust::error::{ConnectError, SingleConnectionError, SocketError};
use crust::message::{ConnectRequest, HandshakeMessage, NameHash, PrivConnectionInfo, PubConnectionInfo};

const HASH: NameHash = [9u8; 32];

fn addr(a: u8, b: u8, c: u8, d: u8, port: u16) -> SocketAddress {
    SocketAddress::new(ipv4(a, b, c, d), port)
}

fn ours(id: u64, hole_punch: bool) -> PrivConnectionInfo<u64, &'static str> {
    PrivConnectionInfo {
        id,
        for_direct: vec![],
        for_hole_punch: vec![],
        hole_punch_socket: if hole_punch { Some("socket") } else { None },
    }
}

fn theirs(id: u64) -> PubConnectionInfo<u64> {
    PubConnectionInfo {
        id,
        for_direct: vec![addr(1, 1, 1, 1, 1), addr(2, 2, 2, 2, 2)],
        for_hole_punch: vec![addr(3, 3, 3, 3, 3)],
    }
}

#[test]
fn connect_start_refuses_ourselves() {
    assert!(matches!(
        connect_start(HASH, &ours(4, false), &theirs(4), &None),
        Err(ConnectError::RequestedConnectToSelf)
    ));
    assert_eq!(CONNECT_TIMEOUT_SECS, 60);
}

#[test]
fn plan_dials_whitelisted_addresses_and_punches_holes_when_prepared() {
    let (_st, plan) =
        connect_start(HASH, &ours(4, true), &theirs(7), &Some(vec![ipv4(2, 2, 2, 2)])).unwrap();
    assert_eq!(plan.dial, vec![addr(2, 2, 2, 2, 2)]);
    assert_eq!(plan.hole_punch, Some(vec![]));
    let (_st, plan) = connect_start(HASH, &ours(4, false), &theirs(7), &None).unwrap();
    assert_eq!(plan.dial.len(), 2);
    assert!(plan.hole_punch.is_none());
}

#[test]
fn the_greater_side_chooses_the_first_usable_connection() {
    let (mut st, _) = connect_start(HASH, &ours(9, false), &theirs(7), &None).unwrap();
    let req = st.our_request();
    assert_eq!((req.uid, req.name_hash), (9, HASH));
    // A request carrying our own identifier is not the peer.
    let a = connect_step(&mut st, ConnectEvent::Incoming(1, ConnectRequest { uid: 9, name_hash: HASH }));
    assert!(matches!(a, ConnectAction::Nothing));
    let a = connect_step(&mut st, ConnectEvent::Incoming(2, ConnectRequest { uid: 7, name_hash: HASH }));
    assert!(matches!(a, ConnectAction::SendRequest(2)));
    let a = connect_step(&mut st, ConnectEvent::Replied(3, Ok(Some(HandshakeMessage::Connect(ConnectRequest { uid: 7, name_hash: HASH })))));
    assert!(matches!(a, ConnectAction::SendChoice(3)));
    // A second usable connection is not chosen.
    let a = connect_step(&mut st, ConnectEvent::RequestSent(2, Ok(())));
    assert!(matches!(a, ConnectAction::Nothing));
    let a = connect_step(&mut st, ConnectEvent::ChoiceSent(3, Ok(())));
    assert!(matches!(a, ConnectAction::Connected(3)));
    // Once done, nothing more happens.
    assert!(matches!(connect_step(&mut st, ConnectEvent::Deadline), ConnectAction::Nothing));
}

#[test]
fn the_smaller_side_keeps_the_chosen_connection() {
    let (mut st, _) = connect_start(HASH, &ours(2, false), &theirs(7), &None).unwrap();
    let a = connect_step(&mut st, ConnectEvent::Replied(1, Ok(Some(HandshakeMessage::Connect(ConnectRequest { uid: 7, name_hash: HASH })))));
    assert!(matches!(a, ConnectAction::AwaitChoice(1)));
    let a = connect_step(&mut st, ConnectEvent::ChoiceReply(1, Ok(Some(HandshakeMessage::ChooseConnection))));
    assert!(matches!(a, ConnectAction::Connected(1)));
}

#[test]
fn all_errors_are_reported_in_order() {
    let (mut st, _) = connect_start(HASH, &ours(2, false), &theirs(7), &None).unwrap();
    connect_step(&mut st, ConnectEvent::Failed(SingleConnectionError::ConnectionDropped));
    connect_step(&mut st, ConnectEvent::Incoming(1, ConnectRequest { uid: 8, name_hash: HASH }));
    connect_step(&mut st, ConnectEvent::Incoming(2, ConnectRequest { uid: 7, name_hash: [0u8; 32] }));
    connect_step(&mut st, ConnectEvent::Replied(3, Ok(Some(HandshakeMessage::EchoAddrReq))));
    connect_step(&mut st, ConnectEvent::RequestSent(4, Err(SocketError::Destroyed)));
    connect_step(&mut st, ConnectEvent::ChoiceReply(5, Ok(None)));
    match connect_step(&mut st, ConnectEvent::Exhausted) {
        ConnectAction::Fail(ConnectError::AllConnectionsFailed(errs)) => {
            assert_eq!(errs.len(), 6);
            assert!(matches!(errs[0], SingleConnectionError::ConnectionDropped));
            assert!(matches!(&errs[1], SingleConnectionError::InvalidUid(s) if s == "8"));
            assert!(matches!(errs[2], SingleConnectionError::InvalidNameHash(h) if h == [0u8; 32]));
            assert!(matches!(errs[3], SingleConnectionError::UnexpectedMessage));
            assert!(matches!(errs[4], SingleConnectionError::Socket(SocketError::Destroyed)));
            assert!(matches!(errs[5], SingleConnectionError::ConnectionDropped));
        }
        a => panic!("unexpected {:?}", a),
    }
}

#[test]
fn the_deadline_ends_the_attempt() {
    let (mut st, _) = connect_start(HASH, &ours(2, false), &theirs(7), &None).unwrap();
    assert!(matches!(connect_step(&mut st, ConnectEvent::Deadline), ConnectAction::Fail(ConnectError::TimedOut)));
}

#[test]
fn a_failed_choice_fails_the_attempt() {
    let (mut st, _) = connect_start(HASH, &ours(9, false), &theirs(7), &None).unwrap();
    connect_step(&mut st, ConnectEvent::Incoming(1, ConnectRequest { uid: 7, name_hash: HASH }));
    connect_step(&mut st, ConnectEvent::RequestSent(1, Ok(())));
    // Exhaustion while the choice is on its way changes nothing.
    assert!(matches!(connect_step(&mut st, ConnectEvent::Exhausted), ConnectAction::Nothing));
    assert!(matches!(
        connect_step(&mut st, ConnectEvent::ChoiceSent(1, Err(SocketError::Destroyed))),
        ConnectAction::Fail(ConnectError::ChooseConnection(SocketError::Destroyed))
    ));
}

#[test]
fn two_peers_with_swapped_infos_end_on_one_connection() {
    let a_info = ours(7, false);
    let b_info = ours(9, false);
    let (mut a, _) = connect_start(HASH, &a_info, &b_info.pub_connection_info(), &None).unwrap();
    let (mut b, _) = connect_start(HASH, &b_info, &a_info.pub_connection_info(), &None).unwrap();
    // `a` dialled `b`: candidate 1 on `a`, candidate 5 on `b`.
    let act = connect_step(&mut b, ConnectEvent::Incoming(5, a.our_request()));
    assert!(matches!(act, ConnectAction::SendRequest(5)));
    let act = connect_step(&mut b, ConnectEvent::RequestSent(5, Ok(())));
    assert!(matches!(act, ConnectAction::SendChoice(5)));
    let act = connect_step(&mut a, ConnectEvent::Replied(1, Ok(Some(HandshakeMessage::Connect(b.our_request())))));
    assert!(matches!(act, ConnectAction::AwaitChoice(1)));
    assert!(matches!(connect_step(&mut b, ConnectEvent::ChoiceSent(5, Ok(()))), ConnectAction::Connected(5)));
    let act = connect_step(&mut a, ConnectEvent::ChoiceReply(1, Ok(Some(HandshakeMessage::ChooseConnection))));
    assert!(matches!(act, ConnectAction::Connected(1)));
}
