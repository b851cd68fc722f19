use crust::addr::{
    contains_ip, copy_addrs, ip_addr_is_global, ipv4, is_peer_whitelisted, retain_global,
    retain_whitelisted, unspecified_v4, IpAddress, SocketAddress,
};
use crust::discovery::{respond_to, DiscoveryMsg};
use crust::error::SocketError;
use crust::first_ok::{FirstOk, FirstOkPoll, StreamPoll};
use crust::message::{CrustUser, HandshakeMessage, HASH_SIZE, MAX_PAYLOAD_SIZE};
use crust::peer::Peer;
use crust::socket::{ReadOutcome, Socket, SocketPoll};
use crust::uid::{bytes_equal, bytes_greater, Uid, UniqueId};
use crust::util::{random_id, random_vec};

fn addr(a: u8, b: u8, c: u8, d: u8, port: u16) -> SocketAddress {
    SocketAddress::new(ipv4(a, b, c, d), port)
}

#[test]
fn ipv4_numbers() {
    assert_eq!(ipv4(1, 2, 3, 4), IpAddress::V4(0x01020304));
    assert_eq!(ipv4(255, 255, 255, 255), IpAddress::V4(u32::MAX));
    let a = addr(1, 2, 3, 4, 80);
    assert_eq!(a.ip(), IpAddress::V4(0x01020304));
    assert_eq!(a.port(), 80);
    assert_eq!(unspecified_v4(9), SocketAddress::new(IpAddress::V4(0), 9));
}

#[test]
fn global_addresses() {
    assert!(ip_addr_is_global(&ipv4(8, 8, 8, 8)));
    for ip in [
        ipv4(10, 1, 2, 3),
        ipv4(172, 16, 0, 1),
        ipv4(172, 31, 255, 255),
        ipv4(192, 168, 1, 1),
        ipv4(127, 0, 0, 1),
        ipv4(169, 254, 3, 3),
        ipv4(255, 255, 255, 255),
        ipv4(192, 0, 2, 7),
        ipv4(198, 51, 100, 7),
        ipv4(203, 0, 113, 7),
        ipv4(0, 0, 0, 0),
        IpAddress::V6(0),
        IpAddress::V6(1),
    ] {
        assert!(!ip_addr_is_global(&ip), "{:?}", ip);
    }
    assert!(ip_addr_is_global(&ipv4(172, 32, 0, 1)));
    assert!(ip_addr_is_global(&IpAddress::V6(0x2001_0db8 << 96)));
    let kept = retain_global(&vec![addr(10, 0, 0, 1, 1), addr(1, 1, 1, 1, 2)]);
    assert_eq!(kept, vec![addr(1, 1, 1, 1, 2)]);
}

#[test]
fn whitelists() {
    let ips = vec![ipv4(1, 1, 1, 1), ipv4(2, 2, 2, 2)];
    assert!(contains_ip(&ips, ipv4(2, 2, 2, 2)));
    assert!(!contains_ip(&ips, ipv4(3, 3, 3, 3)));
    assert!(is_peer_whitelisted(&None, ipv4(3, 3, 3, 3)));
    assert!(is_peer_whitelisted(&Some(ips.clone()), ipv4(1, 1, 1, 1)));
    assert!(!is_peer_whitelisted(&Some(ips.clone()), ipv4(3, 3, 3, 3)));
    let addrs = vec![addr(1, 1, 1, 1, 1), addr(3, 3, 3, 3, 3), addr(2, 2, 2, 2, 2)];
    assert_eq!(retain_whitelisted(addrs.clone(), &None), addrs);
    assert_eq!(
        retain_whitelisted(addrs.clone(), &Some(ips)),
        vec![addr(1, 1, 1, 1, 1), addr(2, 2, 2, 2, 2)]
    );
    assert_eq!(copy_addrs(&addrs), addrs);
}

#[test]
fn constants() {
    assert_eq!(HASH_SIZE, 32);
    assert_eq!(MAX_PAYLOAD_SIZE, 2 * 1024 * 1024);
    assert!(CrustUser::Node != CrustUser::Client);
}

#[test]
fn identifiers() {
    let a: UniqueId = [1u8; 20];
    let mut b: UniqueId = [1u8; 20];
    assert!(a.is_same(&b));
    b[10] = 2;
    assert!(!a.is_same(&b));
    assert!(b.is_greater(&a));
    assert!(!a.is_greater(&b));
    assert!(!a.is_greater(&a));
    assert!(5u64.is_greater(&4));
    assert!(5u64.is_same(&5));
    assert!(bytes_equal(&[1u8, 2, 3], &[1, 2, 3]));
    assert!(!bytes_equal(&[1u8, 2, 3], &[1, 2, 4]));
    assert!(bytes_greater(&[2u8, 0], &[1, 255]));
    assert!(!bytes_greater(&[1u8, 255], &[2, 0]));
}

#[test]
fn identifier_debug_texts() {
    assert_eq!(6u64.debug_string(), "6");
    assert_eq!(1234567890u64.debug_string(), "1234567890");
    assert_eq!(u64::MAX.debug_string(), "18446744073709551615");
    let mut id: UniqueId = [0u8; 20];
    id[0] = 255;
    id[19] = 7;
    assert_eq!(
        id.debug_string(),
        "[255, 0, 0, 0, 0, 0, 0, 0, 0, 0, 0, 0, 0, 0, 0, 0, 0, 0, 0, 7]"
    );
}

#[test]
fn first_ok_returns_the_first_success() {
    let mut f: FirstOk<&str> = FirstOk::new();
    assert!(matches!(f.poll(StreamPoll::<u8, &str>::Error("a")), FirstOkPoll::NotReady));
    assert!(matches!(f.poll(StreamPoll::<u8, &str>::NotReady), FirstOkPoll::NotReady));
    assert!(matches!(f.poll(StreamPoll::<u8, &str>::Item(7)), FirstOkPoll::Ready(7)));
}

#[test]
fn first_ok_reports_every_error_in_order() {
    let mut f: FirstOk<&str> = FirstOk::new();
    f.poll(StreamPoll::<u8, &str>::Error("a"));
    f.poll(StreamPoll::<u8, &str>::Error("b"));
    f.poll(StreamPoll::<u8, &str>::Error("c"));
    match f.poll(StreamPoll::<u8, &str>::End) {
        FirstOkPoll::Failed(errors) => assert_eq!(errors, vec!["a", "b", "c"]),
        _ => panic!("expected failure"),
    }
}

#[test]
fn first_ok_of_an_empty_stream_fails_with_no_errors() {
    let mut f: FirstOk<&str> = FirstOk::new();
    match f.poll(StreamPoll::<u8, &str>::End) {
        FirstOkPoll::Failed(errors) => assert!(errors.is_empty()),
        _ => panic!("expected failure"),
    }
}

#[test]
fn discovery_answers_requests_only() {
    let sender = addr(1, 2, 3, 4, 5484);
    let req: Result<DiscoveryMsg<u8>, ()> = Ok(DiscoveryMsg::Request);
    assert_eq!(respond_to(sender, &req), Some(sender));
    let resp: Result<DiscoveryMsg<u8>, ()> = Ok(DiscoveryMsg::Response(1));
    assert_eq!(respond_to(sender, &resp), None);
    let bad: Result<DiscoveryMsg<u8>, ()> = Err(());
    assert_eq!(respond_to(sender, &bad), None);
}

#[test]
fn random_vec_has_the_requested_length() {
    assert_eq!(random_vec(0).len(), 0);
    assert_eq!(random_vec(1000).len(), 1000);
    let v = random_vec(256);
    assert!(v.iter().any(|b| *b != 0));
}

#[test]
fn random_ids_differ() {
    assert_ne!(random_id(), random_id());
}

#[test]
fn socket_lives_until_its_stream_ends() {
    let peer = addr(9, 9, 9, 9, 9);
    let mut s = Socket::wrap("io", peer);
    assert!(s.alive());
    assert_eq!(s.peer_addr().unwrap(), peer);
    assert_eq!(*s.io().unwrap(), "io");
    let inner = s.begin_poll().unwrap();
    assert!(!s.alive());
    assert!(matches!(s.poll(inner, ReadOutcome::Message(5u8)), Ok(SocketPoll::Message(5))));
    assert!(s.alive());
    let inner = s.begin_poll().unwrap();
    assert!(matches!(s.poll(inner, ReadOutcome::<u8>::NotReady), Ok(SocketPoll::NotReady)));
    let inner = s.begin_poll().unwrap();
    assert!(matches!(
        s.poll(inner, ReadOutcome::<u8>::Ended),
        Err(SocketError::Destroyed)
    ));
    assert!(!s.alive());
    assert!(matches!(s.peer_addr(), Err(SocketError::Destroyed)));
    assert!(matches!(s.io(), Err(SocketError::Destroyed)));
    assert!(matches!(s.begin_poll(), Err(SocketError::Destroyed)));
}

#[test]
fn socket_failure_destroys_it() {
    let mut s = Socket::wrap(0u8, addr(1, 1, 1, 1, 1));
    let inner = s.begin_poll().unwrap();
    let e = std::io::Error::new(std::io::ErrorKind::Other, "x");
    assert!(matches!(
        s.poll(inner, ReadOutcome::<u8>::Failed(SocketError::Io(e))),
        Err(SocketError::Io(_))
    ));
    assert!(!s.alive());
}

#[test]
fn peer_from_handshake() {
    let s = Socket::wrap(0u8, addr(1, 1, 1, 1, 1));
    let p = Peer::bootstrap_connect_handshake(s, Ok(Some(HandshakeMessage::BootstrapGranted(6u64))))
        .unwrap();
    assert_eq!(p.uid(), 6);
    assert_eq!(p.socket().peer_addr().unwrap(), addr(1, 1, 1, 1, 1));
    let s = Socket::wrap(0u8, addr(1, 1, 1, 1, 1));
    assert!(Peer::bootstrap_connect_handshake(s, Ok(None::<HandshakeMessage<u64>>)).is_err());
    let p = Peer::from_handshaken_socket(Socket::wrap(1u8, addr(2, 2, 2, 2, 2)), 8u64);
    assert_eq!(p.uid(), 8);
    assert_eq!(*p.into_socket().io().unwrap(), 1);
}
