//! The messages that peers exchange while they connect, and the values they carry.
use vstd::prelude::*;
use crate::addr::SocketAddress;
use crate::error::CrustError;

verus! {

/// Size of a network name hash.
pub const HASH_SIZE: usize = 32;

/// The hash of the name of the network a peer belongs to.
pub type NameHash = [u8; 32];

/// The largest message payload a socket accepts.
pub const MAX_PAYLOAD_SIZE: usize = 2 * 1024 * 1024;

/// Specify crust user. Behaviour (for example in bootstrap phase) will be different for different
/// variants. Node will request the Bootstrapee to connect back to this crust failing which it
/// would mean it's not reachable from outside and hence should be rejected bootstrap attempts.
#[derive(Debug, Clone, Copy, PartialEq, Eq, Structural)]
pub enum CrustUser {
    /// Crust user is a Node and should not be allowed to bootstrap if it's not reachable from
    /// outside.
    Node,
    /// Crust user is a Client and should be allowed to bootstrap even if it's not reachable from
    /// outside.
    Client,
}

/// Whether a bootstrapping peer asks to be checked for reachability from outside.
#[derive(Debug)]
pub enum ExternalReachability {
    /// No check: the peer is a client.
    NotRequired,
    /// The peer is a node and listens on these addresses.
    Required { direct_listeners: Vec<SocketAddress> },
}

/// Why a bootstrap request was denied.
#[derive(Debug, Clone, Copy, PartialEq, Eq, Structural)]
pub enum BootstrapDenyReason {
    /// The peer belongs to a different network.
    InvalidNameHash,
    /// None of the peer's listeners could be reached from here.
    FailedExternalReachability,
    /// The peer is a node that is not whitelisted.
    NodeNotWhitelisted,
    /// The peer is a client that is not whitelisted.
    ClientNotWhitelisted,
}

/// A request to bootstrap off the receiving peer.
#[derive(Debug)]
pub struct BootstrapRequest<UID> {
    pub uid: UID,
    pub name_hash: NameHash,
    pub ext_reachability: ExternalReachability,
}

/// A request to connect, sent by each side of a connection attempt.
#[derive(Debug)]
pub struct ConnectRequest<UID> {
    pub uid: UID,
    pub name_hash: NameHash,
}

/// The messages of the handshakes.
#[derive(Debug)]
pub enum HandshakeMessage<UID> {
    BootstrapRequest(BootstrapRequest<UID>),
    BootstrapGranted(UID),
    BootstrapDenied(BootstrapDenyReason),
    Connect(ConnectRequest<UID>),
    ChooseConnection,
    EchoAddrReq,
    EchoAddrResp(SocketAddress),
}

/// The connection info a service prepared, with the token the request for
/// it carried.
#[derive(Debug)]
pub struct ConnectionInfoResult<UID, S> {
    /// The token of the request.
    pub result_token: u32,
    /// The prepared info, or why there is none.
    pub result: Result<PrivConnectionInfo<UID, S>, CrustError>,
}

/// The events a service reports to its user; `S` is the type of the socket
/// prepared for hole punching.
#[derive(Debug)]
pub enum Event<UID, S> {
    /// A peer bootstrapped off us.
    BootstrapAccept(UID, CrustUser),
    /// We bootstrapped to the peer at the address.
    BootstrapConnect(UID, SocketAddress),
    /// Bootstrapping failed.
    BootstrapFailed,
    /// A listener started on the port.
    ListenerStarted(u16),
    /// A connection to the peer succeeded.
    ConnectSuccess(UID),
    /// A connection to the peer failed.
    ConnectFailure(UID),
    /// The connection to the peer was lost.
    LostPeer(UID),
    /// A message arrived from the peer.
    NewMessage(UID, CrustUser, Vec<u8>),
    /// Connection info was prepared.
    ConnectionInfoPrepared(ConnectionInfoResult<UID, S>),
}

/// What a peer publishes so that others can connect to it.
#[derive(Debug)]
pub struct PubConnectionInfo<UID> {
    pub id: UID,
    pub for_direct: Vec<SocketAddress>,
    pub for_hole_punch: Vec<SocketAddress>,
}

/// What a peer keeps to connect to another: its published part and the
/// socket prepared for hole punching.
#[derive(Debug)]
pub struct PrivConnectionInfo<UID, S> {
    pub id: UID,
    pub for_direct: Vec<SocketAddress>,
    pub for_hole_punch: Vec<SocketAddress>,
    pub hole_punch_socket: Option<S>,
}

impl<UID: Copy, S> PrivConnectionInfo<UID, S> {
    /// The part of the connection info to hand to the other peer.
    pub fn pub_connection_info(&self) -> (info: PubConnectionInfo<UID>)
        ensures
            info.id == self.id,
            info.for_direct@ == self.for_direct@,
            info.for_hole_punch@ == self.for_hole_punch@,
    {
        PubConnectionInfo {
            id: self.id,
            for_direct: crate::addr::copy_addrs(&self.for_direct),
            for_hole_punch: crate::addr::copy_addrs(&self.for_hole_punch),
        }
    }
}

} // verus!
