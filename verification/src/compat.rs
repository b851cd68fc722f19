//! The state of a service as its users see it: the connected peers, whether
//! it accepts bootstrap connections, bootstraps, or listens, and the events
//! that the ends of its background work produce.
use vstd::prelude::*;
use crate::addr::SocketAddress;
use crate::connection_map::ConnectionMap;
use crate::error::{CrustError, SocketError};
use crate::message::{ConnectionInfoResult, CrustUser, Event, PrivConnectionInfo};
use core::marker::PhantomData;
use crate::service::{TaskAction, accept_bootstrap_action, start_listening_action};
use crate::uid::Uid;

verus! {

/// A service's state; `P` is the caller's handle on a connected peer, `S` the
/// type of the socket prepared for hole punching, which its events carry.
pub struct ServiceState<UID, P, S> {
    cm: ConnectionMap<UID, P>,
    accepting: bool,
    bootstrapping: bool,
    listening: bool,
    hole_punch_socket: PhantomData<S>,
}

impl<UID: Uid, P, S> ServiceState<UID, P, S> {
    /// The connection map is well formed.
    pub closed spec fn wf(&self) -> bool {
        self.cm.wf()
    }

    /// The connected peers: address and handle by identifier.
    pub closed spec fn peers(&self) -> Map<UID, (SocketAddress, P)> {
        self.cm.view()
    }

    /// Whether bootstrap connections are accepted.
    pub closed spec fn spec_accepting(&self) -> bool {
        self.accepting
    }

    /// Whether a bootstrap attempt runs.
    pub closed spec fn spec_bootstrapping(&self) -> bool {
        self.bootstrapping
    }

    /// Whether the TCP listener runs.
    pub closed spec fn spec_listening(&self) -> bool {
        self.listening
    }

    /// A service with no peer and nothing running.
    pub fn new() -> (s: Self)
        ensures
            s.wf(),
            s.peers() == Map::<UID, (SocketAddress, P)>::empty(),
            !s.spec_accepting(),
            !s.spec_bootstrapping(),
            !s.spec_listening(),
    {
        ServiceState {
            cm: ConnectionMap::new(),
            accepting: false,
            bootstrapping: false,
            listening: false,
            hole_punch_socket: PhantomData,
        }
    }

    /// Starts or stops accepting bootstrap connections; says what to do with
    /// the acceptor task.
    pub fn set_accept_bootstrap(&mut self, accept: bool) -> (a: TaskAction)
        requires
            old(self).wf(),
        ensures
            final(self).wf(),
            final(self).peers() == old(self).peers(),
            final(self).spec_accepting() == accept,
            final(self).spec_bootstrapping() == old(self).spec_bootstrapping(),
            final(self).spec_listening() == old(self).spec_listening(),
            a == if !accept {
                TaskAction::Stop
            } else if old(self).spec_accepting() {
                TaskAction::Keep
            } else {
                TaskAction::Start
            },
    {
        let a = accept_bootstrap_action(accept, self.accepting);
        self.accepting = accept;
        a
    }

    /// Starts a bootstrap attempt, replacing any that runs.
    pub fn start_bootstrap(&mut self)
        requires
            old(self).wf(),
        ensures
            final(self).wf(),
            final(self).peers() == old(self).peers(),
            final(self).spec_bootstrapping(),
            final(self).spec_accepting() == old(self).spec_accepting(),
            final(self).spec_listening() == old(self).spec_listening(),
    {
        self.bootstrapping = true;
    }

    /// Stops the bootstrap attempt, if one runs.
    pub fn stop_bootstrap(&mut self)
        requires
            old(self).wf(),
        ensures
            final(self).wf(),
            final(self).peers() == old(self).peers(),
            !final(self).spec_bootstrapping(),
            final(self).spec_accepting() == old(self).spec_accepting(),
            final(self).spec_listening() == old(self).spec_listening(),
    {
        self.bootstrapping = false;
    }

    /// Starts the TCP listener unless it runs already.
    pub fn start_listening_tcp(&mut self) -> (a: TaskAction)
        requires
            old(self).wf(),
        ensures
            final(self).wf(),
            final(self).peers() == old(self).peers(),
            final(self).spec_listening(),
            final(self).spec_accepting() == old(self).spec_accepting(),
            final(self).spec_bootstrapping() == old(self).spec_bootstrapping(),
            a == if old(self).spec_listening() {
                TaskAction::Keep
            } else {
                TaskAction::Start
            },
    {
        let a = start_listening_action(self.listening);
        self.listening = true;
        a
    }

    /// Stops the TCP listener.
    pub fn stop_tcp_listener(&mut self)
        requires
            old(self).wf(),
        ensures
            final(self).wf(),
            final(self).peers() == old(self).peers(),
            !final(self).spec_listening(),
            final(self).spec_accepting() == old(self).spec_accepting(),
            final(self).spec_bootstrapping() == old(self).spec_bootstrapping(),
    {
        self.listening = false;
    }

    /// A peer bootstrapped off us: while we accept bootstrap connections and
    /// with its address known it is recorded and reported; otherwise it is
    /// dropped and nothing is reported.
    pub fn on_bootstrap_accepted(
        &mut self,
        uid: UID,
        kind: CrustUser,
        addr: Result<SocketAddress, SocketError>,
        peer: P,
    ) -> (e: Option<Event<UID, S>>)
        requires
            old(self).wf(),
        ensures
            final(self).wf(),
            final(self).spec_accepting() == old(self).spec_accepting(),
            final(self).spec_bootstrapping() == old(self).spec_bootstrapping(),
            final(self).spec_listening() == old(self).spec_listening(),
            !old(self).spec_accepting() ==> final(self).peers() == old(self).peers() && e is None,
            old(self).spec_accepting() ==> match addr {
                Ok(a) => final(self).peers() == old(self).peers().insert(uid, (a, peer)) && e
                    == Some(Event::<UID, S>::BootstrapAccept(uid, kind)),
                Err(_) => final(self).peers() == old(self).peers() && e is None,
            },
    {
        if !self.accepting {
            return None;
        }
        match addr {
            Ok(a) => {
                self.cm.insert_peer(uid, a, peer);
                Some(Event::BootstrapAccept(uid, kind))
            },
            Err(_) => None,
        }
    }

    /// A bootstrap attempt ended: while bootstrapping is wanted, with a peer
    /// whose address is known, the peer is recorded and `BootstrapConnect`
    /// reported, and otherwise `BootstrapFailed`; once bootstrapping was
    /// stopped, nothing is recorded or reported.
    pub fn on_bootstrap_done(
        &mut self,
        result: Option<(UID, Result<SocketAddress, SocketError>, P)>,
    ) -> (e: Option<Event<UID, S>>)
        requires
            old(self).wf(),
        ensures
            final(self).wf(),
            final(self).spec_accepting() == old(self).spec_accepting(),
            final(self).spec_bootstrapping() == old(self).spec_bootstrapping(),
            final(self).spec_listening() == old(self).spec_listening(),
            !old(self).spec_bootstrapping() ==> final(self).peers() == old(self).peers() && e is None,
            old(self).spec_bootstrapping() ==> match result {
                Some((uid, Ok(a), peer)) => final(self).peers() == old(self).peers().insert(
                    uid,
                    (a, peer),
                ) && e == Some(Event::<UID, S>::BootstrapConnect(uid, a)),
                _ => final(self).peers() == old(self).peers() && e == Some(
                    Event::<UID, S>::BootstrapFailed,
                ),
            },
    {
        if !self.bootstrapping {
            return None;
        }
        match result {
            Some((uid, Ok(a), peer)) => {
                self.cm.insert_peer(uid, a, peer);
                Some(Event::BootstrapConnect(uid, a))
            },
            _ => Some(Event::BootstrapFailed),
        }
    }

    /// A connection attempt to `uid` ended: with a peer whose address is
    /// known, the peer is recorded and `ConnectSuccess` reported; otherwise
    /// `ConnectFailure`.
    pub fn on_connect_done(
        &mut self,
        uid: UID,
        result: Option<(Result<SocketAddress, SocketError>, P)>,
    ) -> (e: Event<UID, S>)
        requires
            old(self).wf(),
        ensures
            final(self).wf(),
            final(self).spec_accepting() == old(self).spec_accepting(),
            final(self).spec_bootstrapping() == old(self).spec_bootstrapping(),
            final(self).spec_listening() == old(self).spec_listening(),
            match result {
                Some((Ok(a), peer)) => final(self).peers() == old(self).peers().insert(
                    uid,
                    (a, peer),
                ) && e == Event::<UID, S>::ConnectSuccess(uid),
                _ => final(self).peers() == old(self).peers() && e == Event::<UID, S>::ConnectFailure(uid),
            },
    {
        match result {
            Some((Ok(a), peer)) => {
                self.cm.insert_peer(uid, a, peer);
                Event::ConnectSuccess(uid)
            },
            _ => Event::ConnectFailure(uid),
        }
    }

    /// The TCP listener came up on `port`: reported while the listener is
    /// wanted, and not once it was stopped.
    pub fn on_listener_started(&self, port: u16) -> (e: Option<Event<UID, S>>)
        requires
            self.wf(),
        ensures
            self.spec_listening() ==> e == Some(Event::<UID, S>::ListenerStarted(port)),
            !self.spec_listening() ==> e is None,
    {
        if self.listening {
            Some(Event::ListenerStarted(port))
        } else {
            None
        }
    }

    /// A message of `kind`'s peer `uid` arrived; it is reported as it came.
    pub fn on_peer_message(&self, uid: UID, kind: CrustUser, data: Vec<u8>) -> (e: Event<UID, S>)
        ensures
            e == Event::<UID, S>::NewMessage(uid, kind, data),
    {
        Event::NewMessage(uid, kind, data)
    }

    /// The connection to the peer ended: it is forgotten and `LostPeer`
    /// reported.
    pub fn on_peer_lost(&mut self, uid: UID) -> (e: Event<UID, S>)
        requires
            old(self).wf(),
        ensures
            final(self).wf(),
            final(self).peers() == old(self).peers().remove(uid),
            final(self).spec_accepting() == old(self).spec_accepting(),
            final(self).spec_bootstrapping() == old(self).spec_bootstrapping(),
            final(self).spec_listening() == old(self).spec_listening(),
            e == Event::<UID, S>::LostPeer(uid),
    {
        let _ = self.cm.remove(&uid);
        Event::LostPeer(uid)
    }

    /// Connection info asked for under `result_token` was prepared (or could
    /// not be): the event that hands it over with the token.
    pub fn on_connection_info_prepared(
        &self,
        result_token: u32,
        result: Result<PrivConnectionInfo<UID, S>, CrustError>,
    ) -> (e: Event<UID, S>)
        ensures
            e == Event::<UID, S>::ConnectionInfoPrepared(ConnectionInfoResult { result_token, result }),
    {
        Event::ConnectionInfoPrepared(ConnectionInfoResult { result_token, result })
    }

    /// The handle on which a message for the peer is sent, or `PeerNotFound`.
    pub fn send(&mut self, uid: &UID) -> (r: Result<&mut P, CrustError>)
        requires
            old(self).wf(),
        ensures
            final(self).wf(),
            final(self).spec_accepting() == old(self).spec_accepting(),
            final(self).spec_bootstrapping() == old(self).spec_bootstrapping(),
            final(self).spec_listening() == old(self).spec_listening(),
            old(self).peers().contains_key(*uid) ==> (r matches Ok(p) && *p == old(self).peers()[*uid].1
                && final(self).peers() == old(self).peers().insert(
                *uid,
                (old(self).peers()[*uid].0, *final(p)),
            )),
            !old(self).peers().contains_key(*uid) ==> (r matches Err(CrustError::PeerNotFound)
                && final(self).peers() == old(self).peers()),
    {
        self.cm.get_mut(uid)
    }

    /// Forgets a peer; returns whether there was a connection at all.
    pub fn disconnect(&mut self, uid: &UID) -> (was_connected: bool)
        requires
            old(self).wf(),
        ensures
            final(self).wf(),
            final(self).spec_accepting() == old(self).spec_accepting(),
            final(self).spec_bootstrapping() == old(self).spec_bootstrapping(),
            final(self).spec_listening() == old(self).spec_listening(),
            was_connected == old(self).peers().contains_key(*uid),
            final(self).peers() == old(self).peers().remove(*uid),
    {
        self.cm.remove(uid)
    }

    /// Whether we are connected to the peer.
    pub fn is_connected(&self, uid: &UID) -> (b: bool)
        requires
            self.wf(),
        ensures
            b == self.peers().contains_key(*uid),
    {
        self.cm.contains_key(uid)
    }

    /// The peer's address, or `PeerNotFound`.
    pub fn get_peer_socket_addr(&self, uid: &UID) -> (r: Result<SocketAddress, CrustError>)
        requires
            self.wf(),
        ensures
            self.peers().contains_key(*uid) ==> r == Ok::<SocketAddress, CrustError>(
                self.peers()[*uid].0,
            ),
            !self.peers().contains_key(*uid) ==> r matches Err(CrustError::PeerNotFound),
    {
        self.cm.peer_addr(uid)
    }

    /// The connected peers.
    pub fn connections(&self) -> (cm: &ConnectionMap<UID, P>)
        requires
            self.wf(),
        ensures
            cm.wf(),
            cm.view() == self.peers(),
    {
        &self.cm
    }
}

} // verus!
