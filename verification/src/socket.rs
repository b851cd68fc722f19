//! The state of a socket: alive with its I/O half and peer address, or destroyed.
//!
//! Reading takes the I/O half out while the caller polls it; the socket comes
//! back to life only when the read went well. A stream that ended or failed,
//! or a message that could not be decoded, leaves the socket destroyed, and
//! every later operation on it fails with `SocketError::Destroyed`.
use vstd::prelude::*;
use crate::addr::SocketAddress;
use crate::error::SocketError;

verus! {

/// The live part of a socket: the caller's I/O half and the peer's address.
pub struct SocketInner<I> {
    pub io: I,
    pub peer_addr: SocketAddress,
}

/// A socket, generic over the caller's I/O half.
pub struct Socket<I> {
    inner: Option<SocketInner<I>>,
}

/// What polling the socket's stream of messages gave.
#[derive(Debug)]
pub enum ReadOutcome<M> {
    /// A message arrived and was decoded.
    Message(M),
    /// Nothing yet.
    NotReady,
    /// The stream ended.
    Ended,
    /// Reading or decoding failed.
    Failed(SocketError),
}

/// What reading from a socket gives its user.
#[derive(Debug)]
pub enum SocketPoll<M> {
    /// The next message.
    Message(M),
    /// Nothing yet.
    NotReady,
}

/// Whether a socket is still alive after a poll with this outcome.
pub open spec fn alive_after_poll<M>(outcome: ReadOutcome<M>) -> bool {
    outcome is Message || outcome is NotReady
}

/// Whether a socket is alive after a run of polls, each with the outcome its
/// stream gave: a socket that is not alive fails the poll at once and stays
/// so (`begin_poll`); an alive one lives on as `alive_after_poll` says.
pub open spec fn alive_after_polls<M>(alive: bool, outcomes: Seq<ReadOutcome<M>>) -> bool
    decreases outcomes.len(),
{
    if outcomes.len() == 0 {
        alive
    } else {
        let before = alive_after_polls(alive, outcomes.drop_last());
        before && alive_after_poll(outcomes.last())
    }
}

/// A socket whose stream ended, failed or gave an undecodable message is
/// destroyed for good: however the later polls go, it is never alive again.
pub proof fn law_failed_poll_is_final<M>(alive: bool, outcomes: Seq<ReadOutcome<M>>, i: int)
    requires
        0 <= i < outcomes.len(),
        !alive_after_poll(outcomes[i]),
    ensures
        !alive_after_polls(alive, outcomes),
    decreases outcomes.len(),
{
    if i < outcomes.len() - 1 {
        assert(outcomes.drop_last()[i] == outcomes[i]);
        law_failed_poll_is_final(alive, outcomes.drop_last(), i);
    }
}

impl<I> Socket<I> {
    /// Whether the socket is alive.
    pub closed spec fn is_alive(&self) -> bool {
        self.inner is Some
    }

    /// The peer's address while the socket is alive.
    pub closed spec fn spec_peer_addr(&self) -> SocketAddress {
        self.spec_inner().peer_addr
    }

    /// The live part while the socket is alive.
    pub closed spec fn spec_inner(&self) -> SocketInner<I> {
        self.inner->Some_0
    }

    /// A live socket around an I/O half connected to `peer_addr`.
    pub fn wrap(io: I, peer_addr: SocketAddress) -> (s: Socket<I>)
        ensures
            s.is_alive(),
            s.spec_peer_addr() == peer_addr,
    {
        Socket { inner: Some(SocketInner { io, peer_addr }) }
    }

    /// Whether the socket is alive.
    pub fn alive(&self) -> (b: bool)
        ensures
            b == self.is_alive(),
    {
        self.inner.is_some()
    }

    /// The peer's address, or `Destroyed`.
    pub fn peer_addr(&self) -> (r: Result<SocketAddress, SocketError>)
        ensures
            self.is_alive() ==> r == Ok::<SocketAddress, SocketError>(self.spec_peer_addr()),
            !self.is_alive() ==> r matches Err(SocketError::Destroyed),
    {
        match &self.inner {
            Some(inner) => Ok(inner.peer_addr),
            None => Err(SocketError::Destroyed),
        }
    }

    /// The I/O half, to send on, or `Destroyed`.
    pub fn io(&self) -> (r: Result<&I, SocketError>)
        ensures
            self.is_alive() ==> (r matches Ok(io) && *io == self.spec_inner().io),
            !self.is_alive() ==> r matches Err(SocketError::Destroyed),
    {
        match &self.inner {
            Some(inner) => Ok(&inner.io),
            None => Err(SocketError::Destroyed),
        }
    }

    /// Takes the live part out to poll it; the socket counts as destroyed until
    /// `poll` puts it back.
    pub fn begin_poll(&mut self) -> (r: Result<SocketInner<I>, SocketError>)
        ensures
            !final(self).is_alive(),
            old(self).is_alive() ==> (r matches Ok(inner) && inner == old(self).spec_inner()),
            !old(self).is_alive() ==> r matches Err(SocketError::Destroyed),
    {
        match self.inner.take() {
            Some(inner) => Ok(inner),
            None => Err(SocketError::Destroyed),
        }
    }

    /// Ends a read begun by `begin_poll` (the socket is not alive meanwhile):
    /// the live part goes back in after a message or nothing; an ended stream
    /// or a failure leaves the socket destroyed.
    pub fn poll<M>(&mut self, inner: SocketInner<I>, outcome: ReadOutcome<M>) -> (r: Result<
        SocketPoll<M>,
        SocketError,
    >)
        requires
            !old(self).is_alive(),
        ensures
            final(self).is_alive() == alive_after_poll(outcome),
            match outcome {
                ReadOutcome::Message(m) => r == Ok::<SocketPoll<M>, SocketError>(
                    SocketPoll::Message(m),
                ) && final(self).is_alive() && final(self).spec_inner() == inner,
                ReadOutcome::NotReady => (r matches Ok(SocketPoll::NotReady)) && final(self).is_alive() && final(self).spec_inner() == inner,
                ReadOutcome::Ended => (r matches Err(SocketError::Destroyed)) && !final(self).is_alive(),
                ReadOutcome::Failed(e) => r == Err::<SocketPoll<M>, SocketError>(e) && !final(self).is_alive(),
            },
    {
        match outcome {
            ReadOutcome::Message(m) => {
                self.inner = Some(inner);
                Ok(SocketPoll::Message(m))
            },
            ReadOutcome::NotReady => {
                self.inner = Some(inner);
                Ok(SocketPoll::NotReady)
            },
            ReadOutcome::Ended => {
                self.inner = None;
                Err(SocketError::Destroyed)
            },
            ReadOutcome::Failed(e) => {
                self.inner = None;
                Err(e)
            },
        }
    }
}

} // verus!
