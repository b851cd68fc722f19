//! Connecting to a peer whose connection info we hold.
//!
//! Both peers dial each other's published addresses (and may punch holes)
//! while accepting the other's incoming connections. Every connection is a
//! candidate: it becomes usable once the peer's connect request on it carries
//! the identifier the peer published and our network's name hash. Of the two
//! peers, the one with the greater identifier chooses: it sends
//! `ChooseConnection` on the first usable connection, and the other keeps the
//! connection on which that message arrives. When every candidate has failed
//! the attempt fails with all their errors; it also fails at the deadline.
//!
//! `connect_start` plans the attempt; the caller then reports each event to
//! `connect_step` and carries out the action it gets back.
use vstd::prelude::*;
use crate::addr::{IpAddress, SocketAddress, retain_whitelisted, whitelist_view, whitelisted};
use crate::error::{ConnectError, SingleConnectionError, SocketError};
use crate::handshake::{
    Reply,
    chosen_reply,
    connect_reply,
    is_choice_error,
    is_reply_error,
    is_request_error,
    reply_accepted,
    request_matches,
    validate_connect_request,
};
use crate::message::{ConnectRequest, HandshakeMessage, NameHash, PrivConnectionInfo, PubConnectionInfo};
use crate::uid::Uid;

verus! {

/// How long a connection attempt may take, in seconds.
pub const CONNECT_TIMEOUT_SECS: u64 = 60;

/// Where a connection attempt stands.
pub struct ConnectState<UID> {
    our_uid: UID,
    their_uid: UID,
    name_hash: NameHash,
    we_choose: bool,
    errors: Vec<SingleConnectionError>,
    chosen: Option<u64>,
    finished: bool,
}

/// What to dial when the attempt starts.
#[derive(Debug)]
pub struct ConnectPlan {
    /// The peer's direct addresses that pass the whitelist.
    pub dial: Vec<SocketAddress>,
    /// When we prepared a hole-punching socket: the peer's hole-punching
    /// addresses that pass the whitelist.
    pub hole_punch: Option<Vec<SocketAddress>>,
}

/// What happened to the attempt. Candidates are numbered by the caller.
pub enum ConnectEvent<UID> {
    /// The peer connected to us on candidate `cid` with this request.
    Incoming(u64, ConnectRequest<UID>),
    /// Our connect request went out (or failed to) on incoming candidate `cid`.
    RequestSent(u64, Result<(), SocketError>),
    /// On candidate `cid`, which we dialled and sent our request on, the peer answered this.
    Replied(u64, Reply<UID>),
    /// A candidate failed before any of the above (dialling or sending failed).
    Failed(SingleConnectionError),
    /// We choose: `ChooseConnection` went out (or failed to) on candidate `cid`.
    ChoiceSent(u64, Result<(), SocketError>),
    /// The other side chooses: the next message on usable candidate `cid`.
    ChoiceReply(u64, Reply<UID>),
    /// Every candidate has been reported; none will come.
    Exhausted,
    /// The deadline passed.
    Deadline,
}

/// What the caller does next.
#[derive(Debug)]
pub enum ConnectAction {
    /// Send our connect request on candidate `cid`.
    SendRequest(u64),
    /// Send `ChooseConnection` on candidate `cid`.
    SendChoice(u64),
    /// Read the next message on candidate `cid`.
    AwaitChoice(u64),
    /// Done: the peer is on candidate `cid`.
    Connected(u64),
    /// Done: the attempt failed.
    Fail(ConnectError),
    /// Nothing to do for this event.
    Nothing,
}

impl<UID: Uid> ConnectState<UID> {
    pub closed spec fn spec_our_uid(&self) -> UID {
        self.our_uid
    }

    pub closed spec fn spec_their_uid(&self) -> UID {
        self.their_uid
    }

    pub closed spec fn spec_name_hash(&self) -> NameHash {
        self.name_hash
    }

    /// Whether we are the side that chooses.
    pub closed spec fn spec_we_choose(&self) -> bool {
        self.we_choose
    }

    /// The errors of the candidates that failed, in order.
    pub closed spec fn spec_errors(&self) -> Seq<SingleConnectionError> {
        self.errors@
    }

    /// The candidate on which we sent `ChooseConnection`, if any.
    pub closed spec fn spec_chosen(&self) -> Option<u64> {
        self.chosen
    }

    /// Whether the attempt is over.
    pub closed spec fn spec_finished(&self) -> bool {
        self.finished
    }

    /// Our connect request, to send on each candidate.
    pub fn our_request(&self) -> (req: ConnectRequest<UID>)
        ensures
            req == request_of(*self),
    {
        ConnectRequest { uid: self.our_uid, name_hash: self.name_hash }
    }
}

/// The state stays as it was.
pub open spec fn unchanged<UID: Uid>(a: ConnectState<UID>, b: ConnectState<UID>) -> bool {
    &&& b.spec_our_uid() == a.spec_our_uid()
    &&& b.spec_their_uid() == a.spec_their_uid()
    &&& b.spec_name_hash() == a.spec_name_hash()
    &&& b.spec_we_choose() == a.spec_we_choose()
    &&& b.spec_errors() == a.spec_errors()
    &&& b.spec_chosen() == a.spec_chosen()
    &&& b.spec_finished() == a.spec_finished()
}

/// The state changes only by recording a failed candidate's error `e`.
pub open spec fn records_error<UID: Uid>(
    a: ConnectState<UID>,
    b: ConnectState<UID>,
    e: SingleConnectionError,
) -> bool {
    &&& b.spec_our_uid() == a.spec_our_uid()
    &&& b.spec_their_uid() == a.spec_their_uid()
    &&& b.spec_name_hash() == a.spec_name_hash()
    &&& b.spec_we_choose() == a.spec_we_choose()
    &&& b.spec_errors() == a.spec_errors().push(e)
    &&& b.spec_chosen() == a.spec_chosen()
    &&& !b.spec_finished()
}

/// The state changes only by recording the failed candidate's error, which
/// `is_err` describes.
pub open spec fn records_error_such_that<UID: Uid>(
    a: ConnectState<UID>,
    b: ConnectState<UID>,
    is_err: spec_fn(SingleConnectionError) -> bool,
) -> bool {
    &&& b.spec_errors().len() == a.spec_errors().len() + 1
    &&& records_error(a, b, b.spec_errors().last())
    &&& is_err(b.spec_errors().last())
}

/// What happens when candidate `cid` becomes usable: the chooser sends
/// `ChooseConnection` on the first usable candidate and ignores later ones;
/// the other side waits for the choice on every usable candidate.
pub open spec fn on_usable<UID: Uid>(
    a: ConnectState<UID>,
    b: ConnectState<UID>,
    cid: u64,
    act: ConnectAction,
) -> bool {
    if a.spec_we_choose() {
        if a.spec_chosen() is None {
            &&& (act matches ConnectAction::SendChoice(c) && c == cid)
            &&& b.spec_chosen() == Some(cid)
            &&& b.spec_our_uid() == a.spec_our_uid()
            &&& b.spec_their_uid() == a.spec_their_uid()
            &&& b.spec_name_hash() == a.spec_name_hash()
            &&& b.spec_we_choose() == a.spec_we_choose()
            &&& b.spec_errors() == a.spec_errors()
            &&& !b.spec_finished()
        } else {
            act is Nothing && unchanged(a, b)
        }
    } else {
        (act matches ConnectAction::AwaitChoice(c) && c == cid) && unchanged(a, b)
    }
}

/// The attempt ends with `act`; nothing else changes.
pub open spec fn finishes<UID: Uid>(a: ConnectState<UID>, b: ConnectState<UID>) -> bool {
    &&& b.spec_our_uid() == a.spec_our_uid()
    &&& b.spec_their_uid() == a.spec_their_uid()
    &&& b.spec_name_hash() == a.spec_name_hash()
    &&& b.spec_we_choose() == a.spec_we_choose()
    &&& b.spec_errors() == a.spec_errors()
    &&& b.spec_chosen() == a.spec_chosen()
    &&& b.spec_finished()
}

/// The attempt ends having handed over the errors it collected.
pub open spec fn gives_up<UID: Uid>(a: ConnectState<UID>, b: ConnectState<UID>) -> bool {
    &&& b.spec_our_uid() == a.spec_our_uid()
    &&& b.spec_their_uid() == a.spec_their_uid()
    &&& b.spec_name_hash() == a.spec_name_hash()
    &&& b.spec_we_choose() == a.spec_we_choose()
    &&& b.spec_errors() == Seq::<SingleConnectionError>::empty()
    &&& b.spec_chosen() == a.spec_chosen()
    &&& b.spec_finished()
}

/// Plans a connection attempt from our connection info and the peer's: a
/// connection to ourselves is refused; otherwise the peer's whitelisted
/// direct addresses are dialled, and its whitelisted hole-punching addresses
/// when we prepared a hole-punching socket.
pub fn connect_start<UID: Uid, S>(
    name_hash: NameHash,
    ours: &PrivConnectionInfo<UID, S>,
    theirs: &PubConnectionInfo<UID>,
    whitelist: &Option<Vec<IpAddress>>,
) -> (r: Result<(ConnectState<UID>, ConnectPlan), ConnectError>)
    ensures
        (ours.id == theirs.id) <==> r matches Err(ConnectError::RequestedConnectToSelf),
        r is Err ==> r matches Err(ConnectError::RequestedConnectToSelf),
        r matches Ok((st, plan)) ==> {
            &&& st.spec_our_uid() == ours.id
            &&& st.spec_their_uid() == theirs.id
            &&& st.spec_name_hash() == name_hash
            &&& st.spec_we_choose() == theirs.id.precedes(ours.id)
            &&& st.spec_errors() == Seq::<SingleConnectionError>::empty()
            &&& st.spec_chosen() is None
            &&& !st.spec_finished()
            &&& plan.dial@ == theirs.for_direct@.filter(
                |a: SocketAddress| whitelisted(whitelist_view(whitelist), a.ip),
            )
            &&& (plan.hole_punch is Some <==> ours.hole_punch_socket is Some)
            &&& plan.hole_punch matches Some(h) ==> h@ == theirs.for_hole_punch@.filter(
                |a: SocketAddress| whitelisted(whitelist_view(whitelist), a.ip),
            )
        },
{
    if ours.id.is_same(&theirs.id) {
        return Err(ConnectError::RequestedConnectToSelf);
    }
    let dial = retain_whitelisted(crate::addr::copy_addrs(&theirs.for_direct), whitelist);
    let hole_punch = match &ours.hole_punch_socket {
        Some(_) => Some(retain_whitelisted(crate::addr::copy_addrs(&theirs.for_hole_punch), whitelist)),
        None => None,
    };
    let st = ConnectState {
        our_uid: ours.id,
        their_uid: theirs.id,
        name_hash,
        we_choose: ours.id.is_greater(&theirs.id),
        errors: Vec::new(),
        chosen: None,
        finished: false,
    };
    Ok((st, ConnectPlan { dial, hole_punch }))
}

/// Marks candidate `cid` usable.
fn usable<UID: Uid>(st: &mut ConnectState<UID>, cid: u64) -> (act: ConnectAction)
    requires
        !old(st).spec_finished(),
    ensures
        on_usable(*old(st), *final(st), cid, act),
{
    if st.we_choose {
        if st.chosen.is_none() {
            st.chosen = Some(cid);
            ConnectAction::SendChoice(cid)
        } else {
            ConnectAction::Nothing
        }
    } else {
        ConnectAction::AwaitChoice(cid)
    }
}

/// Takes one event of a connection attempt into account and says what to do.
pub fn connect_step<UID: Uid>(st: &mut ConnectState<UID>, ev: ConnectEvent<UID>) -> (act:
    ConnectAction)
    ensures
        old(st).spec_finished() ==> act is Nothing && unchanged(*old(st), *final(st)),
        !old(st).spec_finished() ==> match ev {
            ConnectEvent::Incoming(cid, req) => if request_matches(
                old(st).spec_their_uid(),
                old(st).spec_name_hash(),
                req,
            ) {
                (act matches ConnectAction::SendRequest(c) && c == cid) && unchanged(
                    *old(st),
                    *final(st),
                )
            } else {
                act is Nothing && records_error_such_that(
                    *old(st),
                    *final(st),
                    |e: SingleConnectionError| is_request_error(e, old(st).spec_their_uid(), req),
                )
            },
            ConnectEvent::RequestSent(cid, sent) => match sent {
                Ok(()) => on_usable(*old(st), *final(st), cid, act),
                Err(e) => act is Nothing && records_error(
                    *old(st),
                    *final(st),
                    SingleConnectionError::Socket(e),
                ),
            },
            ConnectEvent::Replied(cid, reply) => if reply_accepted(
                old(st).spec_their_uid(),
                old(st).spec_name_hash(),
                reply,
            ) {
                on_usable(*old(st), *final(st), cid, act)
            } else {
                act is Nothing && records_error_such_that(
                    *old(st),
                    *final(st),
                    |e: SingleConnectionError| is_reply_error(e, old(st).spec_their_uid(), reply),
                )
            },
            ConnectEvent::Failed(e) => act is Nothing && records_error(*old(st), *final(st), e),
            ConnectEvent::ChoiceSent(cid, sent) => if old(st).spec_chosen() == Some(cid) {
                finishes(*old(st), *final(st)) && match sent {
                    Ok(()) => (act matches ConnectAction::Connected(c) && c == cid),
                    Err(e) => act == ConnectAction::Fail(ConnectError::ChooseConnection(e)),
                }
            } else {
                act is Nothing && unchanged(*old(st), *final(st))
            },
            ConnectEvent::ChoiceReply(cid, reply) => if !old(st).spec_we_choose() {
                if reply matches Ok(Some(crate::message::HandshakeMessage::ChooseConnection)) {
                    finishes(*old(st), *final(st)) && (act matches ConnectAction::Connected(c) && c
                        == cid)
                } else {
                    act is Nothing && records_error_such_that(
                        *old(st),
                        *final(st),
                        |e: SingleConnectionError| is_choice_error(e, reply),
                    )
                }
            } else {
                act is Nothing && unchanged(*old(st), *final(st))
            },
            ConnectEvent::Exhausted => if old(st).spec_chosen() is None {
                gives_up(*old(st), *final(st)) && (act matches ConnectAction::Fail(
                    ConnectError::AllConnectionsFailed(errs),
                ) && errs@ == old(st).spec_errors())
            } else {
                act is Nothing && unchanged(*old(st), *final(st))
            },
            ConnectEvent::Deadline => finishes(*old(st), *final(st)) && act matches ConnectAction::Fail(
                ConnectError::TimedOut,
            ),
        },
{
    if st.finished {
        return ConnectAction::Nothing;
    }
    match ev {
        ConnectEvent::Incoming(cid, req) => {
            match validate_connect_request(st.their_uid, st.name_hash, req) {
                Ok(_) => ConnectAction::SendRequest(cid),
                Err(e) => {
                    st.errors.push(e);
                    ConnectAction::Nothing
                },
            }
        },
        ConnectEvent::RequestSent(cid, sent) => match sent {
            Ok(()) => usable(st, cid),
            Err(e) => {
                st.errors.push(SingleConnectionError::Socket(e));
                ConnectAction::Nothing
            },
        },
        ConnectEvent::Replied(cid, reply) => match connect_reply(st.their_uid, st.name_hash, reply) {
            Ok(_) => usable(st, cid),
            Err(e) => {
                st.errors.push(e);
                ConnectAction::Nothing
            },
        },
        ConnectEvent::Failed(e) => {
            st.errors.push(e);
            ConnectAction::Nothing
        },
        ConnectEvent::ChoiceSent(cid, sent) => {
            let is_chosen = match st.chosen {
                Some(c) => c == cid,
                None => false,
            };
            if is_chosen {
                st.finished = true;
                match sent {
                    Ok(()) => ConnectAction::Connected(cid),
                    Err(e) => ConnectAction::Fail(ConnectError::ChooseConnection(e)),
                }
            } else {
                ConnectAction::Nothing
            }
        },
        ConnectEvent::ChoiceReply(cid, reply) => {
            if st.we_choose {
                ConnectAction::Nothing
            } else {
                match chosen_reply(reply) {
                    Ok(()) => {
                        st.finished = true;
                        ConnectAction::Connected(cid)
                    },
                    Err(e) => {
                        st.errors.push(e);
                        ConnectAction::Nothing
                    },
                }
            }
        },
        ConnectEvent::Exhausted => {
            if st.chosen.is_none() {
                st.finished = true;
                let mut errors = Vec::new();
                std::mem::swap(&mut errors, &mut st.errors);
                ConnectAction::Fail(ConnectError::AllConnectionsFailed(errors))
            } else {
                ConnectAction::Nothing
            }
        },
        ConnectEvent::Deadline => {
            st.finished = true;
            ConnectAction::Fail(ConnectError::TimedOut)
        },
    }
}

/// The connect request that the attempt `st` sends, as a value.
pub open spec fn request_of<UID: Uid>(st: ConnectState<UID>) -> ConnectRequest<UID> {
    ConnectRequest { uid: st.spec_our_uid(), name_hash: st.spec_name_hash() }
}

/// Two peers on one network that connect to each other, each with its own
/// info and the other's published info (as `connect_start` sets up their
/// attempts), agree on the roles: exactly one of them chooses the connection.
/// And each accepts the connect request the other sends, whether it arrives
/// on a connection the other dialled (`Incoming`) or as the answer on one it
/// dialled itself (`Replied`), so every connection between them that carries
/// both requests becomes usable on both sides.
pub proof fn law_peers_agree_on_roles<UID: Uid>(a: ConnectState<UID>, b: ConnectState<UID>)
    requires
        a.spec_their_uid() == b.spec_our_uid(),
        b.spec_their_uid() == a.spec_our_uid(),
        a.spec_our_uid() != a.spec_their_uid(),
        a.spec_name_hash() == b.spec_name_hash(),
        a.spec_we_choose() == a.spec_their_uid().precedes(a.spec_our_uid()),
        b.spec_we_choose() == b.spec_their_uid().precedes(b.spec_our_uid()),
    ensures
        a.spec_we_choose() != b.spec_we_choose(),
        request_matches(a.spec_their_uid(), a.spec_name_hash(), request_of(b)),
        request_matches(b.spec_their_uid(), b.spec_name_hash(), request_of(a)),
        reply_accepted(
            a.spec_their_uid(),
            a.spec_name_hash(),
            Ok(Some(HandshakeMessage::Connect(request_of(b)))),
        ),
        reply_accepted(
            b.spec_their_uid(),
            b.spec_name_hash(),
            Ok(Some(HandshakeMessage::Connect(request_of(a)))),
        ),
{
    UID::lemma_precedes_strict_total(a.spec_our_uid(), b.spec_our_uid());
}

} // verus!
