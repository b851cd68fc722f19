//! The decisions a service makes around its listeners, bootstrapping and peers.
use vstd::prelude::*;
use crate::addr::{IpAddress, SocketAddress, copy_addrs, unspecified_v4};
use crate::connection_map::ConnectionMap;
use crate::message::{CrustUser, Event, ExternalReachability, PrivConnectionInfo};
use crate::uid::Uid;

verus! {

/// The UDP port on which service discovery runs unless configured otherwise.
pub const SERVICE_DISCOVERY_DEFAULT_PORT: u16 = 5484;

/// The service discovery port: the configured one, or the default.
pub fn service_discovery_port(configured: Option<u16>) -> (port: u16)
    ensures
        port == match configured {
            Some(p) => p,
            None => SERVICE_DISCOVERY_DEFAULT_PORT,
        },
{
    match configured {
        Some(p) => p,
        None => SERVICE_DISCOVERY_DEFAULT_PORT,
    }
}

/// The address a TCP listener binds: every interface, on the configured port
/// or on a port the system picks (0).
pub fn listener_address(tcp_acceptor_port: Option<u16>) -> (a: SocketAddress)
    ensures
        a.ip == IpAddress::V4(0),
        a.port == match tcp_acceptor_port {
            Some(p) => p,
            None => 0,
        },
{
    let port = match tcp_acceptor_port {
        Some(p) => p,
        None => 0,
    };
    unspecified_v4(port)
}

/// What a peer asks for when it bootstraps: a node asks to be checked for
/// reachability on its current listening addresses, a client asks for nothing.
pub fn external_reachability(crust_user: CrustUser, current_addrs: &Vec<SocketAddress>) -> (r:
    ExternalReachability)
    ensures
        crust_user == CrustUser::Node ==> (r matches ExternalReachability::Required {
            direct_listeners,
        } && direct_listeners@ == current_addrs@),
        crust_user == CrustUser::Client ==> r is NotRequired,
{
    match crust_user {
        CrustUser::Node => ExternalReachability::Required {
            direct_listeners: copy_addrs(current_addrs),
        },
        CrustUser::Client => ExternalReachability::NotRequired,
    }
}

/// The addresses to try when bootstrapping, in order: the cached peers, the
/// hard-coded contacts, then those that service discovery found.
pub fn bootstrap_peers(
    cached: &Vec<SocketAddress>,
    hard_coded: &Vec<SocketAddress>,
    discovered: &Vec<SocketAddress>,
) -> (peers: Vec<SocketAddress>)
    ensures
        peers@ == cached@ + hard_coded@ + discovered@,
{
    let mut peers = copy_addrs(cached);
    append_addrs(&mut peers, hard_coded);
    append_addrs(&mut peers, discovered);
    peers
}

/// Appends `more` to `peers`, in order.
fn append_addrs(peers: &mut Vec<SocketAddress>, more: &Vec<SocketAddress>)
    ensures
        final(peers)@ == old(peers)@ + more@,
{
    let ghost start = peers@;
    let mut i: usize = 0;
    while i < more.len()
        invariant
            0 <= i <= more@.len(),
            peers@ == start + more@.take(i as int),
        decreases more@.len() - i,
    {
        assert(more@.take(i + 1) =~= more@.take(i as int).push(more@[i as int]));
        peers.push(more[i]);
        i = i + 1;
    }
    assert(more@.take(more@.len() as int) =~= more@);
}

/// The addresses a freshly mapped socket may be reached at before the
/// gateways answer: each local IPv4 interface address with the socket's port.
pub fn local_mapped_addrs(ifv4_ips: &Vec<u32>, port: u16) -> (addrs: Vec<SocketAddress>)
    ensures
        addrs@.len() == ifv4_ips@.len(),
        forall|i: int|
            0 <= i < addrs@.len() ==> addrs@[i] == (SocketAddress {
                ip: IpAddress::V4(ifv4_ips@[i]),
                port,
            }),
{
    let mut addrs: Vec<SocketAddress> = Vec::new();
    let mut i: usize = 0;
    while i < ifv4_ips.len()
        invariant
            0 <= i <= ifv4_ips@.len(),
            addrs@.len() == i,
            forall|j: int|
                0 <= j < i ==> addrs@[j] == (SocketAddress {
                    ip: IpAddress::V4(ifv4_ips@[j]),
                    port,
                }),
        decreases ifv4_ips@.len() - i,
    {
        addrs.push(SocketAddress { ip: IpAddress::V4(ifv4_ips[i]), port });
        i = i + 1;
    }
    addrs
}

/// The successes among a list of results, in order.
pub open spec fn successes<E>(results: Seq<Result<SocketAddress, E>>) -> Seq<SocketAddress>
    decreases results.len(),
{
    if results.len() == 0 {
        Seq::empty()
    } else {
        let rest = successes(results.drop_last());
        match results.last() {
            Ok(a) => rest.push(a),
            Err(_) => rest,
        }
    }
}

/// Every successful mapping is listed, whatever the other gateways gave, and
/// nothing else is: an address is among the successes exactly when some
/// result holds it. A failure adds nothing, a success adds its address at
/// the end.
pub proof fn law_successes_list_every_mapping<E>(
    results: Seq<Result<SocketAddress, E>>,
    e: E,
    a: SocketAddress,
)
    ensures
        forall|i: int|
            0 <= i < results.len() && (#[trigger] results[i]) is Ok ==> successes(
                results,
            ).contains(results[i]->Ok_0),
        successes(results).contains(a) ==> exists|i: int|
            0 <= i < results.len() && #[trigger] results[i] == Ok::<SocketAddress, E>(a),
        successes(results.push(Err(e))) == successes(results),
        successes(results.push(Ok(a))) == successes(results).push(a),
        successes(results).len() <= results.len(),
    decreases results.len(),
{
    assert(results.push(Err(e)).drop_last() =~= results);
    assert(results.push(Ok(a)).drop_last() =~= results);
    if results.len() > 0 {
        let init = results.drop_last();
        law_successes_list_every_mapping(init, e, a);
        let rest = successes(init);
        assert forall|i: int|
            0 <= i < results.len() && (#[trigger] results[i]) is Ok implies successes(
                results,
            ).contains(results[i]->Ok_0) by {
            if i < results.len() - 1 {
                assert(init[i] == results[i]);
                let j = choose|j: int| 0 <= j < rest.len() && rest[j] == results[i]->Ok_0;
                match results.last() {
                    Ok(x) => {
                        assert(rest.push(x)[j] == rest[j]);
                    },
                    Err(_) => {},
                }
            } else {
                match results.last() {
                    Ok(x) => {
                        assert(rest.push(x)[rest.len() as int] == x);
                    },
                    Err(_) => {},
                }
            }
        }
        if successes(results).contains(a) {
            let j = choose|j: int| 0 <= j < successes(results).len() && successes(results)[j] == a;
            match results.last() {
                Ok(x) => {
                    if j < rest.len() {
                        assert(rest.contains(a));
                        let i = choose|i: int|
                            0 <= i < init.len() && #[trigger] init[i] == Ok::<SocketAddress, E>(a);
                        assert(results[i] == init[i]);
                    } else {
                        assert(results[results.len() - 1] == Ok::<SocketAddress, E>(a));
                    }
                },
                Err(_) => {
                    assert(rest.contains(a));
                    let i = choose|i: int|
                        0 <= i < init.len() && #[trigger] init[i] == Ok::<SocketAddress, E>(a);
                    assert(results[i] == init[i]);
                },
            }
        }
    }
}

/// All the addresses of a mapped socket: the local ones, then those the
/// gateways mapped; a gateway that failed adds nothing.
pub fn mapped_tcp_socket_addrs<E>(local: Vec<SocketAddress>, gateway_results: Vec<
    Result<SocketAddress, E>,
>) -> (addrs: Vec<SocketAddress>)
    ensures
        addrs@ == local@ + successes(gateway_results@),
{
    let mut addrs = local;
    let ghost l = addrs@;
    let mut i: usize = 0;
    while i < gateway_results.len()
        invariant
            0 <= i <= gateway_results@.len(),
            addrs@ == l + successes(gateway_results@.take(i as int)),
        decreases gateway_results@.len() - i,
    {
        assert(gateway_results@.take(i + 1).drop_last() =~= gateway_results@.take(i as int));
        assert(gateway_results@.take(i + 1).last() == gateway_results@[i as int]);
        match &gateway_results[i] {
            Ok(a) => {
                addrs.push(*a);
            },
            Err(_) => {},
        }
        i = i + 1;
    }
    assert(gateway_results@.take(gateway_results@.len() as int) =~= gateway_results@);
    addrs
}

/// The list of listening addresses once a listener has started: the listener's
/// address moves to the end, and appears once.
pub fn update_listen_addrs(listen_addrs: Vec<SocketAddress>, listener_addr: SocketAddress) -> (r:
    Vec<SocketAddress>)
    ensures
        r@ == listen_addrs@.filter(|a: SocketAddress| a != listener_addr).push(listener_addr),
{
    let mut kept: Vec<SocketAddress> = Vec::new();
    let mut i: usize = 0;
    while i < listen_addrs.len()
        invariant
            0 <= i <= listen_addrs@.len(),
            kept@ == listen_addrs@.take(i as int).filter(|a: SocketAddress| a != listener_addr),
        decreases listen_addrs@.len() - i,
    {
        reveal_with_fuel(Seq::<_>::filter, 1);
        assert(listen_addrs@.take(i + 1).drop_last() =~= listen_addrs@.take(i as int));
        let a = listen_addrs[i];
        assert(listen_addrs@.take(i + 1).last() == a);
        if a != listener_addr {
            kept.push(a);
        }
        i = i + 1;
    }
    assert(listen_addrs@.take(listen_addrs@.len() as int) =~= listen_addrs@);
    kept.push(listener_addr);
    kept
}

/// Whether one of the hard-coded contacts has the IP address.
pub fn has_contact_with_ip(contacts: &Vec<SocketAddress>, ip: IpAddress) -> (found: bool)
    ensures
        found == exists|i: int| 0 <= i < contacts@.len() && contacts@[i].ip == ip,
{
    let mut i: usize = 0;
    while i < contacts.len()
        invariant
            0 <= i <= contacts@.len(),
            forall|j: int| 0 <= j < i ==> contacts@[j].ip != ip,
        decreases contacts@.len() - i,
    {
        if contacts[i].ip == ip {
            return true;
        }
        i = i + 1;
    }
    false
}

/// Whether a connected peer is one of the hard-coded contacts: some contact
/// has the peer's IP address. An unknown peer is not.
pub fn is_peer_hard_coded<UID: Uid, S>(
    cm: &ConnectionMap<UID, S>,
    peer_uid: &UID,
    hard_coded_contacts: &Vec<SocketAddress>,
) -> (r: bool)
    requires
        cm.wf(),
    ensures
        r == (cm.view().contains_key(*peer_uid) && exists|i: int|
            0 <= i < hard_coded_contacts@.len() && hard_coded_contacts@[i].ip == cm.view()[
                *peer_uid
            ].0.ip),
{
    match cm.peer_addr(peer_uid) {
        Ok(peer_addr) => has_contact_with_ip(hard_coded_contacts, peer_addr.ip),
        Err(_) => false,
    }
}

/// The connection info a service prepares: our identifier, the addresses we
/// listen on directly, and those of the socket prepared for hole punching.
pub fn prepare_connection_info<UID: Uid, S>(
    our_uid: UID,
    direct_addrs: Vec<SocketAddress>,
    hole_punch_addrs: Vec<SocketAddress>,
    hole_punch_socket: S,
) -> (info: PrivConnectionInfo<UID, S>)
    ensures
        info.id == our_uid,
        info.for_direct == direct_addrs,
        info.for_hole_punch == hole_punch_addrs,
        info.hole_punch_socket == Some(hole_punch_socket),
{
    PrivConnectionInfo {
        id: our_uid,
        for_direct: direct_addrs,
        for_hole_punch: hole_punch_addrs,
        hole_punch_socket: Some(hole_punch_socket),
    }
}

/// The event that reports the end of a bootstrap attempt.
pub fn bootstrap_event<UID: Uid, S>(result: Option<(SocketAddress, UID)>) -> (e: Event<UID, S>)
    ensures
        match result {
            Some((addr, uid)) => e == Event::<UID, S>::BootstrapConnect(uid, addr),
            None => e is BootstrapFailed,
        },
{
    match result {
        Some((addr, uid)) => Event::BootstrapConnect(uid, addr),
        None => Event::BootstrapFailed,
    }
}

/// The event that reports the end of a connection attempt.
pub fn connect_event<UID: Uid, S>(uid: UID, connected: bool) -> (e: Event<UID, S>)
    ensures
        connected ==> e == Event::<UID, S>::ConnectSuccess(uid),
        !connected ==> e == Event::<UID, S>::ConnectFailure(uid),
{
    if connected {
        Event::ConnectSuccess(uid)
    } else {
        Event::ConnectFailure(uid)
    }
}

/// What to do with a background task that can be switched on and off.
#[derive(Debug, Clone, Copy, PartialEq, Eq, Structural)]
pub enum TaskAction {
    /// Start it.
    Start,
    /// Stop it if it runs.
    Stop,
    /// Leave it as it is.
    Keep,
}

/// Whether to start or stop accepting bootstrap connections: start when asked
/// to accept and not accepting yet, stop when asked not to accept.
pub fn accept_bootstrap_action(accept: bool, accepting: bool) -> (a: TaskAction)
    ensures
        a == if !accept {
            TaskAction::Stop
        } else if accepting {
            TaskAction::Keep
        } else {
            TaskAction::Start
        },
{
    if accept {
        if accepting {
            TaskAction::Keep
        } else {
            TaskAction::Start
        }
    } else {
        TaskAction::Stop
    }
}

/// Whether to start the TCP listener: only when none runs.
pub fn start_listening_action(listening: bool) -> (a: TaskAction)
    ensures
        a == if listening {
            TaskAction::Keep
        } else {
            TaskAction::Start
        },
{
    if listening {
        TaskAction::Keep
    } else {
        TaskAction::Start
    }
}

} // verus!
