//! The error types of the library.
use vstd::prelude::*;
use crate::addr::IpAddress;
use crate::message::{BootstrapDenyReason, NameHash};

verus! {

/// The error of an I/O operation, carried as it is.
#[verifier::external_type_specification]
#[verifier::external_body]
pub struct ExIoError(std::io::Error);

/// The error of decoding a message that arrived on a socket, carried as it is.
#[verifier::external_type_specification]
#[verifier::external_body]
pub struct ExSerialisationError(maidsafe_utilities::serialisation::SerialisationError);

/// Errors that can occur on sockets.
#[derive(Debug)]
pub enum SocketError {
    /// Socket has been destroyed.
    Destroyed,
    /// Io error on socket.
    Io(std::io::Error),
    /// Error deserialising message from socket.
    Deserialisation(maidsafe_utilities::serialisation::SerialisationError),
}

/// The library's general error.
#[derive(Debug)]
pub enum CrustError {
    /// Wrapper for a `std::io::Error`.
    Io(std::io::Error),
    /// Bootstrap failed.
    BootstrapFailed,
    /// The requested peer was not found.
    PeerNotFound,
    /// Error preparing connection info.
    PrepareConnectionInfo(std::io::Error),
    /// Error starting listener.
    StartListener(std::io::Error),
}

/// Errors of an address echo request.
#[derive(Debug)]
pub enum StunError {
    /// Error connecting to peer.
    Connect(std::io::Error),
    /// The peer replied with an unexpected message.
    UnexpectedResponse,
    /// Disconnected from the remote peer.
    Disconnected,
    /// Error on the socket.
    Socket(SocketError),
}

/// Errors of the connecting side of a bootstrap handshake.
#[derive(Debug)]
pub enum ConnectHandshakeError {
    /// Error on the underlying socket.
    Socket(SocketError),
    /// Bootstrap denied.
    BootstrapDenied(BootstrapDenyReason),
    /// Invalid response from peer.
    InvalidResponse,
    /// Disconnected from peer.
    Disconnected,
}

/// Errors of the accepting side of a bootstrap handshake.
#[derive(Debug)]
pub enum AcceptHandshakeError {
    /// Error on the underlying socket.
    Socket(SocketError),
    /// Disconnected from peer.
    Disconnected,
    /// Accepted connection from ourselves.
    ConnectionFromOurself,
    /// Peer is from a different network.
    InvalidNameHash(NameHash),
    /// Node is not whitelisted.
    NodeNotWhiteListed(IpAddress),
    /// All external reachability checks failed.
    FailedExternalReachability(Vec<std::io::Error>),
    /// Client is not whitelisted.
    ClientNotWhiteListed(IpAddress),
}

/// Errors of one attempt among those made to connect to a peer.
#[derive(Debug)]
pub enum SingleConnectionError {
    /// Io error initiating/accepting connection.
    Io(std::io::Error),
    /// Io error on socket.
    Socket(SocketError),
    /// The connection was dropped by the remote peer.
    ConnectionDropped,
    /// Peer gave us an unexpected uid.
    InvalidUid(String),
    /// Peer is from a different network.
    InvalidNameHash(NameHash),
    /// Peer sent us an unexpected message variant.
    UnexpectedMessage,
}

/// Errors of connecting to a peer.
#[derive(Debug)]
pub enum ConnectError {
    /// Requested a connection to ourselves.
    RequestedConnectToSelf,
    /// Io error initiating connection.
    Io(std::io::Error),
    /// Socket error when finalising handshake.
    ChooseConnection(SocketError),
    /// All attempts to connect to the remote peer failed.
    AllConnectionsFailed(Vec<SingleConnectionError>),
    /// Connection attempt timed out.
    TimedOut,
}

/// Error returned when we fail to connect to some specific peer.
#[derive(Debug)]
pub enum TryPeerError {
    /// IO error connecting to remote peer.
    Connect(std::io::Error),
    /// Error during peer handshake.
    Handshake(ConnectHandshakeError),
}

} // verus!
