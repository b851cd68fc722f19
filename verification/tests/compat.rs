use crust::addr::{ipv4, SocketAddress};
use crust::compat::ServiceState;
use crust::error::{CrustError, SocketError};
use crust::message::{CrustUser, Event, PrivConnectionInfo};
use crust::service::TaskAction;

fn addr(a: u8, b: u8, c: u8, d: u8, port: u16) -> SocketAddress {
    SocketAddress::new(ipv4(a, b, c, d), port)
}

#[test]
fn switches() {
    let mut s: ServiceState<u64, u8, ()> = ServiceState::new();
    assert_eq!(s.set_accept_bootstrap(true), TaskAction::Start);
    assert_eq!(s.set_accept_bootstrap(true), TaskAction::Keep);
    assert_eq!(s.set_accept_bootstrap(false), TaskAction::Stop);
    assert_eq!(s.start_listening_tcp(), TaskAction::Start);
    assert_eq!(s.start_listening_tcp(), TaskAction::Keep);
    s.stop_tcp_listener();
    assert_eq!(s.start_listening_tcp(), TaskAction::Start);
    s.start_bootstrap();
    s.stop_bootstrap();
}

#[test]
fn bootstrap_and_connect_results_fill_the_connection_map() {
    let mut s: ServiceState<u64, Vec<u8>, ()> = ServiceState::new();
    s.set_accept_bootstrap(true);
    let e = s.on_bootstrap_accepted(1, CrustUser::Client, Ok(addr(1, 1, 1, 1, 1)), vec![]);
    assert!(matches!(e, Some(Event::BootstrapAccept(1, CrustUser::Client))));
    assert!(s.on_bootstrap_accepted(2, CrustUser::Node, Err(SocketError::Destroyed), vec![]).is_none());
    assert!(!s.is_connected(&2));
    s.start_bootstrap();
    assert!(matches!(s.on_bootstrap_done(Some((3, Ok(addr(3, 3, 3, 3, 3)), vec![]))), Some(Event::BootstrapConnect(3, _))));
    assert!(matches!(s.on_bootstrap_done(None), Some(Event::BootstrapFailed)));
    s.stop_bootstrap();
    assert!(s.on_bootstrap_done(Some((6, Ok(addr(6, 6, 6, 6, 6)), vec![]))).is_none());
    assert!(!s.is_connected(&6));
    assert!(matches!(s.on_connect_done(4, Some((Ok(addr(4, 4, 4, 4, 4)), vec![]))), Event::ConnectSuccess(4)));
    assert!(matches!(s.on_connect_done(5, None), Event::ConnectFailure(5)));
    assert!(s.is_connected(&1) && s.is_connected(&3) && s.is_connected(&4));
    assert_eq!(s.get_peer_socket_addr(&4).unwrap(), addr(4, 4, 4, 4, 4));
    s.send(&4).unwrap().push(7);
    assert_eq!(*s.connections().get(&4).unwrap(), vec![7]);
    assert!(matches!(s.send(&5), Err(CrustError::PeerNotFound)));
    assert!(s.disconnect(&4));
    assert!(!s.disconnect(&4));
    assert!(matches!(s.get_peer_socket_addr(&4), Err(CrustError::PeerNotFound)));
}

#[test]
fn bootstrap_peers_are_ignored_when_not_accepting() {
    let mut s: ServiceState<u64, Vec<u8>, ()> = ServiceState::new();
    assert!(s.on_bootstrap_accepted(1, CrustUser::Node, Ok(addr(1, 1, 1, 1, 1)), vec![]).is_none());
    assert!(!s.is_connected(&1));
    s.set_accept_bootstrap(true);
    assert!(s.on_bootstrap_accepted(1, CrustUser::Node, Ok(addr(1, 1, 1, 1, 1)), vec![]).is_some());
    s.set_accept_bootstrap(false);
    assert!(s.on_bootstrap_accepted(2, CrustUser::Node, Ok(addr(2, 2, 2, 2, 2)), vec![]).is_none());
    assert!(s.is_connected(&1) && !s.is_connected(&2));
}

#[test]
fn listener_start_is_reported_while_listening() {
    let mut s: ServiceState<u64, u8, ()> = ServiceState::new();
    assert!(s.on_listener_started(5483).is_none());
    s.start_listening_tcp();
    assert!(matches!(s.on_listener_started(5483), Some(Event::ListenerStarted(5483))));
    s.stop_tcp_listener();
    assert!(s.on_listener_started(5483).is_none());
}

#[test]
fn lost_peers_are_forgotten_and_messages_reported() {
    let mut s: ServiceState<u64, u8, ()> = ServiceState::new();
    s.on_connect_done(4, Some((Ok(addr(4, 4, 4, 4, 4)), 0)));
    assert!(s.is_connected(&4));
    match s.on_peer_message(4, CrustUser::Node, vec![1, 2, 3]) {
        Event::NewMessage(4, CrustUser::Node, data) => assert_eq!(data, vec![1, 2, 3]),
        e => panic!("unexpected event: {:?}", e),
    }
    assert!(matches!(s.on_peer_lost(4), Event::LostPeer(4)));
    assert!(!s.is_connected(&4));
    assert!(matches!(s.on_peer_lost(4), Event::LostPeer(4)));
}

#[test]
fn prepared_connection_info_carries_the_token() {
    let s: ServiceState<u64, u8, &'static str> = ServiceState::new();
    let info = PrivConnectionInfo {
        id: 3u64,
        for_direct: vec![addr(1, 1, 1, 1, 1)],
        for_hole_punch: vec![],
        hole_punch_socket: Some("socket"),
    };
    match s.on_connection_info_prepared(77, Ok(info)) {
        Event::ConnectionInfoPrepared(res) => {
            assert_eq!(res.result_token, 77);
            let ci = res.result.unwrap();
            assert_eq!(ci.id, 3);
            assert_eq!(ci.hole_punch_socket, Some("socket"));
        }
        e => panic!("unexpected event: {:?}", e),
    }
    match s.on_connection_info_prepared(78, Err(CrustError::BootstrapFailed)) {
        Event::ConnectionInfoPrepared(res) => {
            assert_eq!(res.result_token, 78);
            assert!(matches!(res.result, Err(CrustError::BootstrapFailed)));
        }
        e => panic!("unexpected event: {:?}", e),
    }
}
