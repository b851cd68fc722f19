//! A connection to a remote peer which is ready to start sending/receiving data on.
use vstd::prelude::*;
use crate::error::ConnectHandshakeError;
use crate::handshake::{Reply, bootstrap_connect_handshake};
use crate::message::HandshakeMessage;
use crate::socket::Socket;
use crate::uid::Uid;

verus! {

/// A peer: its identifier and the socket to it.
pub struct Peer<UID, I> {
    their_uid: UID,
    socket: Socket<I>,
}

impl<UID: Uid, I> Peer<UID, I> {
    /// The peer's identifier.
    pub closed spec fn spec_uid(&self) -> UID {
        self.their_uid
    }

    /// The socket to the peer.
    pub closed spec fn spec_socket(&self) -> Socket<I> {
        self.socket
    }

    /// Construct a `Peer` from a `Socket` once we have completed the initial handshake.
    pub fn from_handshaken_socket(socket: Socket<I>, their_uid: UID) -> (p: Peer<UID, I>)
        ensures
            p.spec_uid() == their_uid,
            p.spec_socket() == socket,
    {
        Peer { their_uid, socket }
    }

    /// The peer's identifier.
    pub fn uid(&self) -> (uid: UID)
        ensures
            uid == self.spec_uid(),
    {
        self.their_uid
    }

    /// The socket to the peer.
    pub fn socket(&self) -> (s: &Socket<I>)
        ensures
            *s == self.spec_socket(),
    {
        &self.socket
    }

    /// Gives back the socket to the peer.
    pub fn into_socket(self) -> (s: Socket<I>)
        ensures
            s == self.spec_socket(),
    {
        self.socket
    }

    /// Finishes the connecting side of a bootstrap handshake on a socket whose
    /// request has been sent: a peer with the identifier that granted it, or
    /// why it failed.
    pub fn bootstrap_connect_handshake(socket: Socket<I>, reply: Reply<UID>) -> (r: Result<
        Peer<UID, I>,
        ConnectHandshakeError,
    >)
        ensures
            match reply {
                Err(e) => r == Err::<Peer<UID, I>, ConnectHandshakeError>(
                    ConnectHandshakeError::Socket(e),
                ),
                Ok(None) => r matches Err(ConnectHandshakeError::Disconnected),
                Ok(Some(HandshakeMessage::BootstrapGranted(uid))) => (r matches Ok(p)
                    && p.spec_uid() == uid && p.spec_socket() == socket),
                Ok(Some(HandshakeMessage::BootstrapDenied(reason))) => r == Err::<
                    Peer<UID, I>,
                    ConnectHandshakeError,
                >(ConnectHandshakeError::BootstrapDenied(reason)),
                Ok(Some(_)) => r matches Err(ConnectHandshakeError::InvalidResponse),
            },
    {
        match bootstrap_connect_handshake(reply) {
            Ok(uid) => Ok(Peer { their_uid: uid, socket }),
            Err(e) => Err(e),
        }
    }
}

} // verus!
