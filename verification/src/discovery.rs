//! Service discovery: a server that answers requests on the local network
//! with the data it was given.
use vstd::prelude::*;
use crate::addr::SocketAddress;

verus! {

/// The messages of service discovery.
#[derive(Debug)]
pub enum DiscoveryMsg<T> {
    /// Asks every server on the network for its data.
    Request,
    /// A server's data.
    Response(T),
}

/// To whom the server answers after receiving a datagram: the sender of a
/// request. Any other message, and a datagram that could not be decoded, gets
/// no answer.
pub fn respond_to<T, E>(sender: SocketAddress, received: &Result<DiscoveryMsg<T>, E>) -> (r: Option<
    SocketAddress,
>)
    ensures
        r == (if received matches Ok(DiscoveryMsg::Request) {
            Some(sender)
        } else {
            None::<SocketAddress>
        }),
{
    match received {
        Ok(DiscoveryMsg::Request) => Some(sender),
        _ => None,
    }
}

/// Whether the server is waiting for a datagram or for its answer to go out.
#[derive(Debug, Clone, Copy, PartialEq, Eq, Structural)]
pub enum ServerState {
    Reading,
    Writing,
}

/// What polling the server's socket for a datagram gave.
pub enum ReadPoll<T, E> {
    /// A datagram arrived from the address; decoding it gave this.
    Received(SocketAddress, Result<DiscoveryMsg<T>, E>),
    /// Nothing yet.
    NotReady,
}

/// What the server does next.
#[derive(Debug, Clone, Copy, PartialEq, Eq, Structural)]
pub enum ServerStep {
    /// Send the server's data, as a response, to the address.
    Respond(SocketAddress),
    /// Poll the socket for the next datagram.
    ReadNext,
    /// Nothing to do until the socket is ready again.
    Wait,
}

/// The service discovery server's task: it reads requests and answers each
/// with its data, one datagram at a time.
pub struct ServerTask {
    state: ServerState,
}

impl ServerTask {
    /// The state the task is in.
    pub closed spec fn spec_state(&self) -> ServerState {
        self.state
    }

    /// A task that waits for the first datagram.
    pub fn new() -> (t: ServerTask)
        ensures
            t.spec_state() == ServerState::Reading,
    {
        ServerTask { state: ServerState::Reading }
    }

    /// The state the task is in.
    pub fn state(&self) -> (s: ServerState)
        ensures
            s == self.spec_state(),
    {
        self.state
    }

    /// While reading: a request is answered (the task then writes), anything
    /// else is skipped and the next datagram read, and without a datagram the
    /// task waits.
    pub fn on_read<T, E>(&mut self, polled: ReadPoll<T, E>) -> (step: ServerStep)
        requires
            old(self).spec_state() == ServerState::Reading,
        ensures
            match polled {
                ReadPoll::Received(sender, received) => if received matches Ok(DiscoveryMsg::Request) {
                    step == ServerStep::Respond(sender) && final(self).spec_state() == ServerState::Writing
                } else {
                    step == ServerStep::ReadNext && final(self).spec_state() == ServerState::Reading
                },
                ReadPoll::NotReady => step == ServerStep::Wait && final(self).spec_state()
                    == ServerState::Reading,
            },
    {
        match polled {
            ReadPoll::Received(sender, received) => match respond_to(sender, &received) {
                Some(to) => {
                    self.state = ServerState::Writing;
                    ServerStep::Respond(to)
                },
                None => ServerStep::ReadNext,
            },
            ReadPoll::NotReady => ServerStep::Wait,
        }
    }

    /// While writing: once the answer is out the task reads again, until then it waits.
    pub fn on_write(&mut self, sent: bool) -> (step: ServerStep)
        requires
            old(self).spec_state() == ServerState::Writing,
        ensures
            sent ==> step == ServerStep::ReadNext && final(self).spec_state() == ServerState::Reading,
            !sent ==> step == ServerStep::Wait && final(self).spec_state() == ServerState::Writing,
    {
        if sent {
            self.state = ServerState::Reading;
            ServerStep::ReadNext
        } else {
            ServerStep::Wait
        }
    }
}

} // verus!
