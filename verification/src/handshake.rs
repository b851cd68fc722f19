//! The decisions of the handshakes: what to send, and what a reply means.
//!
//! The sockets themselves belong to the caller, which sends the messages built
//! here and hands back what arrived, as a `Reply`: the next message, `None`
//! when the peer hung up, or the socket's error.
use vstd::prelude::*;
use crate::addr::{
    IpAddress,
    SocketAddress,
    ip_is_global,
    is_peer_whitelisted,
    retain_global,
    whitelist_view,
    whitelisted,
};
use crate::error::{
    AcceptHandshakeError,
    ConnectError,
    ConnectHandshakeError,
    SingleConnectionError,
    SocketError,
    StunError,
};
use crate::message::{
    BootstrapDenyReason,
    BootstrapRequest,
    ConnectRequest,
    ExternalReachability,
    HandshakeMessage,
    NameHash,
};
use crate::uid::{Uid, bytes_equal};

verus! {

/// What reading the next message from a socket gave.
pub type Reply<UID> = Result<Option<HandshakeMessage<UID>>, SocketError>;

/// The request that asks a peer to echo the address it sees us at.
pub fn stun_request<UID>() -> (msg: HandshakeMessage<UID>)
    ensures
        msg is EchoAddrReq,
{
    HandshakeMessage::EchoAddrReq
}

/// The outcome of an address echo request: the error of the connection to
/// the peer, when it could not be made (nothing was sent then); otherwise,
/// from the peer's reply, the echoed address or why there is none.
pub fn stun<UID: Uid>(outcome: Result<Reply<UID>, std::io::Error>) -> (r: Result<
    SocketAddress,
    StunError,
>)
    ensures
        match outcome {
            Err(e) => r == Err::<SocketAddress, StunError>(StunError::Connect(e)),
            Ok(Err(e)) => r == Err::<SocketAddress, StunError>(StunError::Socket(e)),
            Ok(Ok(None)) => r matches Err(StunError::Disconnected),
            Ok(Ok(Some(HandshakeMessage::EchoAddrResp(addr)))) => r == Ok::<
                SocketAddress,
                StunError,
            >(addr),
            Ok(Ok(Some(_))) => r matches Err(StunError::UnexpectedResponse),
        },
{
    match outcome {
        Err(e) => Err(StunError::Connect(e)),
        Ok(Err(e)) => Err(StunError::Socket(e)),
        Ok(Ok(Some(HandshakeMessage::EchoAddrResp(addr)))) => Ok(addr),
        Ok(Ok(Some(_))) => Err(StunError::UnexpectedResponse),
        Ok(Ok(None)) => Err(StunError::Disconnected),
    }
}

/// The request that opens a bootstrap handshake.
pub fn bootstrap_request<UID>(
    our_uid: UID,
    name_hash: NameHash,
    ext_reachability: ExternalReachability,
) -> (msg: HandshakeMessage<UID>)
    ensures
        msg == HandshakeMessage::BootstrapRequest(
            BootstrapRequest { uid: our_uid, name_hash, ext_reachability },
        ),
{
    HandshakeMessage::BootstrapRequest(
        BootstrapRequest { uid: our_uid, name_hash: name_hash, ext_reachability: ext_reachability },
    )
}

/// What the connecting side of a bootstrap handshake makes of the reply to
/// its request.
pub open spec fn connect_handshake_result<UID>(reply: Reply<UID>) -> Result<UID, ConnectHandshakeError> {
    match reply {
        Err(e) => Err(ConnectHandshakeError::Socket(e)),
        Ok(None) => Err(ConnectHandshakeError::Disconnected),
        Ok(Some(HandshakeMessage::BootstrapGranted(uid))) => Ok(uid),
        Ok(Some(HandshakeMessage::BootstrapDenied(reason))) => Err(
            ConnectHandshakeError::BootstrapDenied(reason),
        ),
        Ok(Some(_)) => Err(ConnectHandshakeError::InvalidResponse),
    }
}

/// The connecting side of a bootstrap handshake: from the reply to our
/// request, the identifier of the peer that granted it, or why it failed.
pub fn bootstrap_connect_handshake<UID: Uid>(reply: Reply<UID>) -> (r: Result<
    UID,
    ConnectHandshakeError,
>)
    ensures
        r == connect_handshake_result(reply),
{
    match reply {
        Err(e) => Err(ConnectHandshakeError::Socket(e)),
        Ok(Some(HandshakeMessage::BootstrapGranted(uid))) => Ok(uid),
        Ok(Some(HandshakeMessage::BootstrapDenied(reason))) => Err(
            ConnectHandshakeError::BootstrapDenied(reason),
        ),
        Ok(Some(_)) => Err(ConnectHandshakeError::InvalidResponse),
        Ok(None) => Err(ConnectHandshakeError::Disconnected),
    }
}

/// The message that grants a bootstrap request.
pub fn grant_bootstrap<UID>(our_uid: UID) -> (msg: HandshakeMessage<UID>)
    ensures
        msg == HandshakeMessage::BootstrapGranted(our_uid),
{
    HandshakeMessage::BootstrapGranted(our_uid)
}

/// The message that denies a bootstrap request.
pub fn deny_bootstrap<UID>(reason: BootstrapDenyReason) -> (msg: HandshakeMessage<UID>)
    ensures
        msg == HandshakeMessage::<UID>::BootstrapDenied(reason),
{
    HandshakeMessage::BootstrapDenied(reason)
}

/// What the accepting side of a bootstrap handshake does next.
#[derive(Debug)]
pub enum AcceptDecision {
    /// Fail at once, without answering.
    Refuse(AcceptHandshakeError),
    /// Answer `BootstrapDenied` with the reason, then fail with the error.
    Deny(BootstrapDenyReason, AcceptHandshakeError),
    /// Answer `BootstrapGranted` with our identifier: the peer is connected.
    Grant,
    /// Try to connect to each of these listeners of the peer: grant if one
    /// connection succeeds, deny otherwise (see `bootstrap_accept_reachability`).
    CheckReachability(Vec<SocketAddress>),
}

/// Whether external reachability is required, given the development option
/// that may disable the requirement.
pub fn require_external_reachability(disable_requirement: Option<bool>) -> (required: bool)
    ensures
        required == match disable_requirement {
            None => true,
            Some(d) => !d,
        },
{
    match disable_requirement {
        None => true,
        Some(d) => !d,
    }
}

/// The accepting side of a bootstrap handshake, once the peer's request has
/// been read: whether to refuse, deny, grant, or first check that the peer can
/// be reached.
///
/// `their_addr` is the peer's address as the socket reports it; the
/// whitelists are the configured ones for nodes and for clients.
pub fn bootstrap_accept<UID: Uid>(
    our_uid: UID,
    our_name_hash: &NameHash,
    require_reachability: bool,
    node_whitelist: &Option<Vec<IpAddress>>,
    client_whitelist: &Option<Vec<IpAddress>>,
    their_addr: Result<SocketAddress, SocketError>,
    request: BootstrapRequest<UID>,
) -> (d: AcceptDecision)
    ensures
        request.uid == our_uid ==> d matches AcceptDecision::Refuse(
            AcceptHandshakeError::ConnectionFromOurself,
        ),
        request.uid != our_uid && request.name_hash != *our_name_hash ==> d == AcceptDecision::Deny(
            BootstrapDenyReason::InvalidNameHash,
            AcceptHandshakeError::InvalidNameHash(request.name_hash),
        ),
        request.uid != our_uid && request.name_hash == *our_name_hash ==> match their_addr {
            Err(e) => d == AcceptDecision::Refuse(AcceptHandshakeError::Socket(e)),
            Ok(addr) => match request.ext_reachability {
                ExternalReachability::Required { direct_listeners } => if !whitelisted(
                    whitelist_view(node_whitelist),
                    addr.ip,
                ) {
                    d == AcceptDecision::Deny(
                        BootstrapDenyReason::NodeNotWhitelisted,
                        AcceptHandshakeError::NodeNotWhiteListed(addr.ip),
                    )
                } else if !require_reachability {
                    d is Grant
                } else {
                    d matches AcceptDecision::CheckReachability(listeners) && listeners@
                        == direct_listeners@.filter(|a: SocketAddress| ip_is_global(a.ip))
                },
                ExternalReachability::NotRequired => if !whitelisted(
                    whitelist_view(client_whitelist),
                    addr.ip,
                ) {
                    d == AcceptDecision::Deny(
                        BootstrapDenyReason::ClientNotWhitelisted,
                        AcceptHandshakeError::ClientNotWhiteListed(addr.ip),
                    )
                } else {
                    d is Grant
                },
            },
        },
{
    if our_uid.is_same(&request.uid) {
        return AcceptDecision::Refuse(AcceptHandshakeError::ConnectionFromOurself);
    }
    if !bytes_equal(our_name_hash, &request.name_hash) {
        return AcceptDecision::Deny(
            BootstrapDenyReason::InvalidNameHash,
            AcceptHandshakeError::InvalidNameHash(request.name_hash),
        );
    }
    let addr = match their_addr {
        Err(e) => {
            return AcceptDecision::Refuse(AcceptHandshakeError::Socket(e));
        },
        Ok(addr) => addr,
    };
    match request.ext_reachability {
        ExternalReachability::Required { direct_listeners } => {
            if !is_peer_whitelisted(node_whitelist, addr.ip) {
                return AcceptDecision::Deny(
                    BootstrapDenyReason::NodeNotWhitelisted,
                    AcceptHandshakeError::NodeNotWhiteListed(addr.ip),
                );
            }
            if !require_reachability {
                return AcceptDecision::Grant;
            }
            AcceptDecision::CheckReachability(retain_global(&direct_listeners))
        },
        ExternalReachability::NotRequired => {
            if !is_peer_whitelisted(client_whitelist, addr.ip) {
                return AcceptDecision::Deny(
                    BootstrapDenyReason::ClientNotWhitelisted,
                    AcceptHandshakeError::ClientNotWhiteListed(addr.ip),
                );
            }
            AcceptDecision::Grant
        },
    }
}

/// The end of a reachability check: grant if a connection to one of the
/// peer's listeners succeeded, otherwise deny with the errors of every attempt.
pub fn bootstrap_accept_reachability(outcome: Result<(), Vec<std::io::Error>>) -> (d:
    AcceptDecision)
    ensures
        match outcome {
            Ok(()) => d is Grant,
            Err(errors) => d == AcceptDecision::Deny(
                BootstrapDenyReason::FailedExternalReachability,
                AcceptHandshakeError::FailedExternalReachability(errors),
            ),
        },
{
    match outcome {
        Ok(()) => AcceptDecision::Grant,
        Err(errors) => AcceptDecision::Deny(
            BootstrapDenyReason::FailedExternalReachability,
            AcceptHandshakeError::FailedExternalReachability(errors),
        ),
    }
}

/// The one message the accepting side sends for a decision: the grant, the
/// denial with its reason, or nothing (a refusal sends nothing, and a
/// reachability check decides later).
pub open spec fn accept_answer_spec<UID>(d: AcceptDecision, our_uid: UID) -> Option<HandshakeMessage<UID>> {
    match d {
        AcceptDecision::Grant => Some(HandshakeMessage::BootstrapGranted(our_uid)),
        AcceptDecision::Deny(reason, _) => Some(HandshakeMessage::BootstrapDenied(reason)),
        _ => None,
    }
}

/// The message the accepting side sends for a decision, if any.
pub fn accept_answer<UID: Copy>(d: &AcceptDecision, our_uid: UID) -> (m: Option<HandshakeMessage<UID>>)
    ensures
        m == accept_answer_spec(*d, our_uid),
{
    match d {
        AcceptDecision::Grant => Some(HandshakeMessage::BootstrapGranted(our_uid)),
        AcceptDecision::Deny(reason, _) => Some(HandshakeMessage::BootstrapDenied(*reason)),
        _ => None,
    }
}

/// Both ends of a bootstrap handshake agree: when the accepting side grants,
/// the connecting side gets the accepting side's identifier; when it denies
/// with a reason, the connecting side fails with that reason; when it refuses
/// or has yet to check reachability, it answers nothing.
pub proof fn law_bootstrap_handshake_agrees<UID>(d: AcceptDecision, our_uid: UID)
    ensures
        d is Grant ==> connect_handshake_result(
            Ok::<Option<HandshakeMessage<UID>>, SocketError>(accept_answer_spec(d, our_uid)),
        ) == Ok::<UID, ConnectHandshakeError>(our_uid),
        d matches AcceptDecision::Deny(reason, _) ==> connect_handshake_result(
            Ok::<Option<HandshakeMessage<UID>>, SocketError>(accept_answer_spec(d, our_uid)),
        ) == Err::<UID, ConnectHandshakeError>(ConnectHandshakeError::BootstrapDenied(reason)),
        (d is Refuse || d is CheckReachability) ==> accept_answer_spec(d, our_uid) is None,
{
}

/// Refuses a connection to ourselves.
pub fn check_not_self<UID: Uid>(our_uid: UID, their_uid: UID) -> (r: Result<(), ConnectError>)
    ensures
        r is Ok <==> our_uid != their_uid,
        r is Err ==> r matches Err(ConnectError::RequestedConnectToSelf),
{
    if our_uid.is_same(&their_uid) {
        Err(ConnectError::RequestedConnectToSelf)
    } else {
        Ok(())
    }
}

/// The request each side sends when it connects.
pub fn connect_request<UID: Uid>(our_uid: UID, name_hash: NameHash) -> (req: ConnectRequest<UID>)
    ensures
        req.uid == our_uid,
        req.name_hash == name_hash,
{
    ConnectRequest { uid: our_uid, name_hash: name_hash }
}

/// The error a connect request that does not match gets: a wrong identifier
/// is reported first, with its `Debug` text; then a wrong name hash.
pub open spec fn is_request_error<UID: Uid>(
    e: SingleConnectionError,
    expected_uid: UID,
    req: ConnectRequest<UID>,
) -> bool {
    if req.uid != expected_uid {
        e matches SingleConnectionError::InvalidUid(s) && s@ == req.uid.debug_text()
    } else {
        e == SingleConnectionError::InvalidNameHash(req.name_hash)
    }
}

/// Whether a connect request carries the identifier we expect and our
/// network's name hash.
pub open spec fn request_matches<UID>(
    expected_uid: UID,
    name_hash: NameHash,
    req: ConnectRequest<UID>,
) -> bool {
    req.uid == expected_uid && req.name_hash == name_hash
}

/// Checks a connect request against the identifier we expect and our network's
/// name hash, and gives the identifier it carries.
pub fn validate_connect_request<UID: Uid>(
    expected_uid: UID,
    our_name_hash: NameHash,
    connect_request: ConnectRequest<UID>,
) -> (r: Result<UID, SingleConnectionError>)
    ensures
        r is Ok <==> request_matches(expected_uid, our_name_hash, connect_request),
        r matches Ok(uid) ==> uid == connect_request.uid,
        r matches Err(e) ==> is_request_error(e, expected_uid, connect_request),
{
    let ConnectRequest { uid: their_uid, name_hash: their_name_hash } = connect_request;
    if !their_uid.is_same(&expected_uid) {
        return Err(SingleConnectionError::InvalidUid(their_uid.debug_string()));
    }
    if !bytes_equal(&our_name_hash, &their_name_hash) {
        return Err(SingleConnectionError::InvalidNameHash(their_name_hash));
    }
    Ok(their_uid)
}

/// Whether the answer on a connection we dialled is a connect request from
/// the peer we want, on our network.
pub open spec fn reply_accepted<UID>(their_uid: UID, name_hash: NameHash, reply: Reply<UID>) -> bool {
    reply matches Ok(Some(HandshakeMessage::Connect(req))) && request_matches(
        their_uid,
        name_hash,
        req,
    )
}

/// The error an answer that is not accepted gets.
pub open spec fn is_reply_error<UID: Uid>(
    e: SingleConnectionError,
    their_uid: UID,
    reply: Reply<UID>,
) -> bool {
    match reply {
        Err(se) => e == SingleConnectionError::Socket(se),
        Ok(None) => e is ConnectionDropped,
        Ok(Some(HandshakeMessage::Connect(req))) => is_request_error(e, their_uid, req),
        Ok(Some(_)) => e is UnexpectedMessage,
    }
}

/// The answer to our connect request on a connection we dialled: the peer's
/// identifier, once checked against the identifier it published (`their_uid`)
/// and our network's name hash, or why this connection failed.
pub fn connect_reply<UID: Uid>(their_uid: UID, name_hash: NameHash, reply: Reply<UID>) -> (r: Result<
    UID,
    SingleConnectionError,
>)
    ensures
        r is Ok <==> reply_accepted(their_uid, name_hash, reply),
        r is Ok ==> (reply matches Ok(Some(HandshakeMessage::Connect(req))) && req.uid == their_uid
            && req.name_hash == name_hash),
        (reply matches Ok(Some(HandshakeMessage::Connect(req))) && req.uid == their_uid
            && req.name_hash != name_hash) ==> r == Err::<UID, SingleConnectionError>(
            SingleConnectionError::InvalidNameHash(reply->Ok_0->Some_0->Connect_0.name_hash),
        ),
        r matches Ok(uid) ==> uid == their_uid,
        r matches Err(e) ==> is_reply_error(e, their_uid, reply),
{
    match reply {
        Err(e) => Err(SingleConnectionError::Socket(e)),
        Ok(None) => Err(SingleConnectionError::ConnectionDropped),
        Ok(Some(HandshakeMessage::Connect(req))) => validate_connect_request(their_uid, name_hash, req),
        Ok(Some(_)) => Err(SingleConnectionError::UnexpectedMessage),
    }
}

/// Whether we are the side that chooses which connection both keep: the side
/// with the greater identifier.
pub fn we_choose_connection<UID: Uid>(our_uid: UID, their_uid: UID) -> (r: bool)
    ensures
        r == their_uid.precedes(our_uid),
{
    our_uid.is_greater(&their_uid)
}

/// The message with which the choosing side picks a connection.
pub fn choose_connection<UID>() -> (msg: HandshakeMessage<UID>)
    ensures
        msg is ChooseConnection,
{
    HandshakeMessage::ChooseConnection
}

/// The error an answer that does not choose the connection gets.
pub open spec fn is_choice_error<UID>(e: SingleConnectionError, reply: Reply<UID>) -> bool {
    match reply {
        Err(se) => e == SingleConnectionError::Socket(se),
        Ok(None) => e is ConnectionDropped,
        Ok(Some(HandshakeMessage::ChooseConnection)) => false,
        Ok(Some(_)) => e is UnexpectedMessage,
    }
}

/// On the side that does not choose: whether this connection was chosen.
pub fn chosen_reply<UID>(reply: Reply<UID>) -> (r: Result<(), SingleConnectionError>)
    ensures
        r is Ok <==> reply matches Ok(Some(HandshakeMessage::ChooseConnection)),
        r matches Err(e) ==> is_choice_error(e, reply),
{
    match reply {
        Err(e) => Err(SingleConnectionError::Socket(e)),
        Ok(None) => Err(SingleConnectionError::ConnectionDropped),
        Ok(Some(HandshakeMessage::ChooseConnection)) => Ok(()),
        Ok(Some(_)) => Err(SingleConnectionError::UnexpectedMessage),
    }
}

/// The end of a connection attempt that runs under a time limit: the peer, or
/// `TimedOut` when the limit came first.
pub fn connect_within_time<P>(peer: Option<P>) -> (r: Result<P, ConnectError>)
    ensures
        match peer {
            Some(p) => r == Ok::<P, ConnectError>(p),
            None => r matches Err(ConnectError::TimedOut),
        },
{
    match peer {
        Some(p) => Ok(p),
        None => Err(ConnectError::TimedOut),
    }
}

/// Where an incoming connection's first message goes: a bootstrap request is
/// handed to the bootstrap acceptor; anything else, or nothing, is dropped.
pub fn route_incoming<UID>(msg: Option<HandshakeMessage<UID>>) -> (r: Option<BootstrapRequest<UID>>)
    ensures
        match msg {
            Some(HandshakeMessage::BootstrapRequest(req)) => r == Some(req),
            _ => r is None,
        },
{
    match msg {
        Some(HandshakeMessage::BootstrapRequest(req)) => Some(req),
        _ => None,
    }
}

// Laws of the handshakes.

/// A connect request is accepted exactly when it carries the identifier we
/// expect and our network's name hash.
pub proof fn law_request_accepted_exactly<UID>(
    expected_uid: UID,
    name_hash: NameHash,
    req: ConnectRequest<UID>,
)
    ensures
        request_matches(expected_uid, name_hash, req) <==> (req.uid == expected_uid
            && req.name_hash == name_hash),
{
}

/// The answer on a connection we dialled is accepted exactly when it is a
/// connect request that carries the peer's published identifier and our
/// network's name hash: a peer of another network is never accepted.
pub proof fn law_reply_accepted_exactly<UID>(their_uid: UID, name_hash: NameHash, reply: Reply<UID>)
    ensures
        reply_accepted(their_uid, name_hash, reply) <==> (reply matches Ok(
            Some(HandshakeMessage::Connect(req)),
        ) && req.uid == their_uid && req.name_hash == name_hash),
{
}


/// Of two peers with different identifiers, exactly one chooses the connection.
pub proof fn law_exactly_one_side_chooses<UID: Uid>(a: UID, b: UID)
    requires
        a != b,
    ensures
        b.precedes(a) != a.precedes(b),
{
    UID::lemma_precedes_strict_total(a, b);
}

/// A peer never chooses a connection to itself.
pub proof fn law_no_choice_with_self<UID: Uid>(a: UID)
    ensures
        !a.precedes(a),
{
    UID::lemma_precedes_strict_total(a, a);
}

} // verus!
