use crust::addr::{ipv4, IpAddress, SocketAddress};
use crust::error::{
    AcceptHandshakeError, ConnectError, ConnectHandshakeError, SingleConnectionError, SocketError,
    StunError,
};
use crust::handshake::{
    accept_answer,
    bootstrap_accept, bootstrap_accept_reachability, bootstrap_connect_handshake,
    bootstrap_request, check_not_self, choose_connection, chosen_reply, connect_reply,
    connect_request, connect_within_time, deny_bootstrap, grant_bootstrap,
    require_external_reachability, route_incoming, stun, stun_request, validate_connect_request,
    we_choose_connection, AcceptDecision,
};
use crust::message::{
    BootstrapDenyReason, BootstrapRequest, ConnectRequest, ExternalReachability,
    HandshakeMessage, NameHash,
};
use crust::uid::UniqueId;

fn io_error() -> std::io::Error {
    std::io::Error::new(std::io::ErrorKind::Other, "boom")
}

fn addr(a: u8, b: u8, c: u8, d: u8, port: u16) -> SocketAddress {
    SocketAddress::new(ipv4(a, b, c, d), port)
}

const HASH: NameHash = [7u8; 32];

#[test]
fn stun_gives_the_echoed_address() {
    assert!(matches!(stun_request::<u64>(), HandshakeMessage::EchoAddrReq));
    let a = addr(1, 2, 3, 4, 5000);
    let r = stun::<u64>(Ok(Ok(Some(HandshakeMessage::EchoAddrResp(a)))));
    assert_eq!(r.unwrap(), a);
}

#[test]
fn stun_errors() {
    assert!(matches!(
        stun::<u64>(Ok(Ok(Some(HandshakeMessage::ChooseConnection)))),
        Err(StunError::UnexpectedResponse)
    ));
    assert!(matches!(stun::<u64>(Ok(Ok(None))), Err(StunError::Disconnected)));
    assert!(matches!(
        stun::<u64>(Ok(Err(SocketError::Destroyed))),
        Err(StunError::Socket(SocketError::Destroyed))
    ));
    assert!(matches!(
        stun::<u64>(Ok(Err(SocketError::Io(io_error())))),
        Err(StunError::Socket(SocketError::Io(_)))
    ));
}

#[test]
fn stun_reports_a_failed_connection() {
    match stun::<u64>(Err(io_error())) {
        Err(StunError::Connect(e)) => assert_eq!(e.kind(), io_error().kind()),
        other => panic!("unexpected outcome: {:?}", other),
    }
}

#[test]
fn bootstrap_request_carries_our_details() {
    match bootstrap_request(9u64, HASH, ExternalReachability::NotRequired) {
        HandshakeMessage::BootstrapRequest(req) => {
            assert_eq!(req.uid, 9);
            assert_eq!(req.name_hash, HASH);
            assert!(matches!(req.ext_reachability, ExternalReachability::NotRequired));
        }
        m => panic!("unexpected {:?}", m),
    }
}

#[test]
fn bootstrap_connect_handshake_outcomes() {
    assert_eq!(
        bootstrap_connect_handshake::<u64>(Ok(Some(HandshakeMessage::BootstrapGranted(42))))
            .unwrap(),
        42
    );
    assert!(matches!(
        bootstrap_connect_handshake::<u64>(Ok(Some(HandshakeMessage::BootstrapDenied(
            BootstrapDenyReason::NodeNotWhitelisted
        )))),
        Err(ConnectHandshakeError::BootstrapDenied(BootstrapDenyReason::NodeNotWhitelisted))
    ));
    assert!(matches!(
        bootstrap_connect_handshake::<u64>(Ok(Some(HandshakeMessage::EchoAddrReq))),
        Err(ConnectHandshakeError::InvalidResponse)
    ));
    assert!(matches!(
        bootstrap_connect_handshake::<u64>(Ok(None)),
        Err(ConnectHandshakeError::Disconnected)
    ));
    assert!(matches!(
        bootstrap_connect_handshake::<u64>(Err(SocketError::Destroyed)),
        Err(ConnectHandshakeError::Socket(SocketError::Destroyed))
    ));
}

#[test]
fn grant_and_deny_messages() {
    assert!(matches!(grant_bootstrap(3u64), HandshakeMessage::BootstrapGranted(3)));
    assert!(matches!(
        deny_bootstrap::<u64>(BootstrapDenyReason::ClientNotWhitelisted),
        HandshakeMessage::BootstrapDenied(BootstrapDenyReason::ClientNotWhitelisted)
    ));
}

fn request(uid: u64, name_hash: NameHash, ext: ExternalReachability) -> BootstrapRequest<u64> {
    BootstrapRequest { uid, name_hash, ext_reachability: ext }
}

#[test]
fn accept_refuses_ourselves() {
    let d = bootstrap_accept(
        1u64,
        &HASH,
        true,
        &None,
        &None,
        Ok(addr(8, 8, 8, 8, 1)),
        request(1, HASH, ExternalReachability::NotRequired),
    );
    assert!(matches!(d, AcceptDecision::Refuse(AcceptHandshakeError::ConnectionFromOurself)));
}

#[test]
fn accept_denies_another_network() {
    let other = [8u8; 32];
    let d = bootstrap_accept(
        1u64,
        &HASH,
        true,
        &None,
        &None,
        Ok(addr(8, 8, 8, 8, 1)),
        request(2, other, ExternalReachability::NotRequired),
    );
    match d {
        AcceptDecision::Deny(
            BootstrapDenyReason::InvalidNameHash,
            AcceptHandshakeError::InvalidNameHash(h),
        ) => assert_eq!(h, other),
        d => panic!("unexpected {:?}", d),
    }
}

#[test]
fn accept_fails_when_the_socket_has_no_address() {
    let d = bootstrap_accept(
        1u64,
        &HASH,
        true,
        &None,
        &None,
        Err(SocketError::Destroyed),
        request(2, HASH, ExternalReachability::NotRequired),
    );
    assert!(matches!(
        d,
        AcceptDecision::Refuse(AcceptHandshakeError::Socket(SocketError::Destroyed))
    ));
}

#[test]
fn accept_node_whitelisting_and_reachability() {
    let peer = addr(5, 6, 7, 8, 1234);
    let listeners = vec![addr(10, 0, 0, 1, 1), addr(8, 8, 8, 8, 2), addr(127, 0, 0, 1, 3)];
    // Not on the node whitelist: denied.
    let wl = Some(vec![ipv4(1, 1, 1, 1)]);
    let d = bootstrap_accept(
        1u64,
        &HASH,
        true,
        &wl,
        &None,
        Ok(peer),
        request(2, HASH, ExternalReachability::Required { direct_listeners: listeners.clone() }),
    );
    match d {
        AcceptDecision::Deny(
            BootstrapDenyReason::NodeNotWhitelisted,
            AcceptHandshakeError::NodeNotWhiteListed(ip),
        ) => assert_eq!(ip, peer.ip),
        d => panic!("unexpected {:?}", d),
    }
    // Whitelisted, reachability not required: granted.
    let wl = Some(vec![ipv4(5, 6, 7, 8)]);
    let d = bootstrap_accept(
        1u64,
        &HASH,
        false,
        &wl,
        &None,
        Ok(peer),
        request(2, HASH, ExternalReachability::Required { direct_listeners: listeners.clone() }),
    );
    assert!(matches!(d, AcceptDecision::Grant));
    // Reachability required: only the global listeners are tried.
    let d = bootstrap_accept(
        1u64,
        &HASH,
        true,
        &None,
        &None,
        Ok(peer),
        request(2, HASH, ExternalReachability::Required { direct_listeners: listeners }),
    );
    match d {
        AcceptDecision::CheckReachability(l) => assert_eq!(l, vec![addr(8, 8, 8, 8, 2)]),
        d => panic!("unexpected {:?}", d),
    }
}

#[test]
fn accept_clients() {
    let peer = addr(5, 6, 7, 8, 1234);
    let d = bootstrap_accept(
        1u64,
        &HASH,
        true,
        &None,
        &Some(vec![]),
        Ok(peer),
        request(2, HASH, ExternalReachability::NotRequired),
    );
    assert!(matches!(
        d,
        AcceptDecision::Deny(
            BootstrapDenyReason::ClientNotWhitelisted,
            AcceptHandshakeError::ClientNotWhiteListed(_)
        )
    ));
    let d = bootstrap_accept(
        1u64,
        &HASH,
        true,
        &Some(vec![]),
        &None,
        Ok(peer),
        request(2, HASH, ExternalReachability::NotRequired),
    );
    assert!(matches!(d, AcceptDecision::Grant));
}

#[test]
fn reachability_verdict() {
    assert!(matches!(bootstrap_accept_reachability(Ok(())), AcceptDecision::Grant));
    match bootstrap_accept_reachability(Err(vec![io_error(), io_error()])) {
        AcceptDecision::Deny(
            BootstrapDenyReason::FailedExternalReachability,
            AcceptHandshakeError::FailedExternalReachability(v),
        ) => assert_eq!(v.len(), 2),
        d => panic!("unexpected {:?}", d),
    }
}

#[test]
fn reachability_requirement_option() {
    assert!(require_external_reachability(None));
    assert!(require_external_reachability(Some(false)));
    assert!(!require_external_reachability(Some(true)));
}

#[test]
fn connecting_to_ourselves_is_refused() {
    assert!(matches!(check_not_self(5u64, 5u64), Err(ConnectError::RequestedConnectToSelf)));
    assert!(check_not_self(5u64, 6u64).is_ok());
}

#[test]
fn validate_connect_request_cases() {
    let ok = validate_connect_request(4u64, HASH, ConnectRequest { uid: 4, name_hash: HASH });
    assert_eq!(ok.unwrap(), 4);
    match validate_connect_request(4u64, HASH, ConnectRequest { uid: 9, name_hash: HASH }) {
        Err(SingleConnectionError::InvalidUid(s)) => assert_eq!(s, "9"),
        r => panic!("unexpected {:?}", r),
    }
    let other = [1u8; 32];
    match validate_connect_request(4u64, HASH, ConnectRequest { uid: 4, name_hash: other }) {
        Err(SingleConnectionError::InvalidNameHash(h)) => assert_eq!(h, other),
        r => panic!("unexpected {:?}", r),
    }
    // A wrong identifier is reported before a wrong hash.
    assert!(matches!(
        validate_connect_request(4u64, HASH, ConnectRequest { uid: 9, name_hash: other }),
        Err(SingleConnectionError::InvalidUid(_))
    ));
}

#[test]
fn invalid_uid_is_rendered_with_debug() {
    let expected: UniqueId = [1u8; 20];
    let theirs: UniqueId = [2u8; 20];
    match validate_connect_request(expected, HASH, ConnectRequest { uid: theirs, name_hash: HASH }) {
        Err(SingleConnectionError::InvalidUid(s)) => assert_eq!(s, format!("{:?}", theirs)),
        r => panic!("unexpected {:?}", r),
    }
}

#[test]
fn connect_request_and_reply() {
    let req = connect_request(3u64, HASH);
    assert_eq!((req.uid, req.name_hash), (3, HASH));
    let r = connect_reply(3u64, HASH, Ok(Some(HandshakeMessage::Connect(ConnectRequest {
        uid: 3,
        name_hash: HASH,
    }))));
    assert_eq!(r.unwrap(), 3);
    assert!(matches!(
        connect_reply(3u64, HASH, Ok(Some(HandshakeMessage::Connect(ConnectRequest {
            uid: 4,
            name_hash: HASH,
        })))),
        Err(SingleConnectionError::InvalidUid(_))
    ));
    assert!(matches!(
        connect_reply::<u64>(3, HASH, Ok(None)),
        Err(SingleConnectionError::ConnectionDropped)
    ));
    assert!(matches!(
        connect_reply::<u64>(3, HASH, Ok(Some(HandshakeMessage::EchoAddrReq))),
        Err(SingleConnectionError::UnexpectedMessage)
    ));
    assert!(matches!(
        connect_reply::<u64>(3, HASH, Err(SocketError::Destroyed)),
        Err(SingleConnectionError::Socket(SocketError::Destroyed))
    ));
}

#[test]
fn the_greater_identifier_chooses() {
    assert!(we_choose_connection(7u64, 3u64));
    assert!(!we_choose_connection(3u64, 7u64));
    assert!(!we_choose_connection(3u64, 3u64));
    let mut a: UniqueId = [0u8; 20];
    let mut b: UniqueId = [0u8; 20];
    a[0] = 1;
    b[0] = 0;
    b[1] = 255;
    assert!(we_choose_connection(a, b));
    assert!(!we_choose_connection(b, a));
    let mut c = a;
    c[19] = 1;
    assert!(we_choose_connection(c, a));
    assert!(!we_choose_connection(a, a));
}

#[test]
fn chosen_reply_outcomes() {
    assert!(matches!(choose_connection::<u64>(), HandshakeMessage::ChooseConnection));
    assert!(chosen_reply::<u64>(Ok(Some(HandshakeMessage::ChooseConnection))).is_ok());
    assert!(matches!(
        chosen_reply::<u64>(Ok(Some(HandshakeMessage::EchoAddrReq))),
        Err(SingleConnectionError::UnexpectedMessage)
    ));
    assert!(matches!(chosen_reply::<u64>(Ok(None)), Err(SingleConnectionError::ConnectionDropped)));
    assert!(matches!(
        chosen_reply::<u64>(Err(SocketError::Io(io_error()))),
        Err(SingleConnectionError::Socket(SocketError::Io(_)))
    ));
}

#[test]
fn time_limit_outcome() {
    assert_eq!(connect_within_time(Some(5)).unwrap(), 5);
    assert!(matches!(connect_within_time::<u8>(None), Err(ConnectError::TimedOut)));
}

#[test]
fn incoming_routing() {
    let r = route_incoming(Some(HandshakeMessage::BootstrapRequest(request(
        2,
        HASH,
        ExternalReachability::NotRequired,
    ))));
    assert_eq!(r.unwrap().uid, 2);
    assert!(route_incoming::<u64>(Some(HandshakeMessage::ChooseConnection)).is_none());
    assert!(route_incoming::<u64>(None).is_none());
}

#[test]
fn ipv6_peer_address_in_denial() {
    let peer = SocketAddress::new(IpAddress::V6(5), 1);
    let d = bootstrap_accept(
        1u64,
        &HASH,
        true,
        &None,
        &Some(vec![]),
        Ok(peer),
        request(2, HASH, ExternalReachability::NotRequired),
    );
    match d {
        AcceptDecision::Deny(_, AcceptHandshakeError::ClientNotWhiteListed(ip)) => {
            assert_eq!(ip, IpAddress::V6(5))
        }
        d => panic!("unexpected {:?}", d),
    }
}

#[test]
fn accept_answers_match_what_the_connecting_side_makes_of_them() {
    let granted = accept_answer(&AcceptDecision::Grant, 12u64).unwrap();
    assert_eq!(bootstrap_connect_handshake::<u64>(Ok(Some(granted))).unwrap(), 12);
    let denied = accept_answer(
        &AcceptDecision::Deny(
            BootstrapDenyReason::InvalidNameHash,
            AcceptHandshakeError::InvalidNameHash([0u8; 32]),
        ),
        12u64,
    )
    .unwrap();
    assert!(matches!(
        bootstrap_connect_handshake::<u64>(Ok(Some(denied))),
        Err(ConnectHandshakeError::BootstrapDenied(BootstrapDenyReason::InvalidNameHash))
    ));
    assert!(accept_answer(&AcceptDecision::Refuse(AcceptHandshakeError::ConnectionFromOurself), 12u64).is_none());
    assert!(accept_answer(&AcceptDecision::CheckReachability(vec![]), 12u64).is_none());
}

#[test]
fn invalid_uid_of_six_reads_six() {
    match validate_connect_request(5u64, [1u8; 32], ConnectRequest { uid: 6u64, name_hash: [2u8; 32] }) {
        Err(SingleConnectionError::InvalidUid(s)) => assert_eq!(s, "6"),
        r => panic!("unexpected {:?}", r),
    }
}
