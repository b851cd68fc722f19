//! The peers we are connected to, by identifier.
use vstd::prelude::*;
use crate::addr::{IpAddress, SocketAddress};
use crate::error::CrustError;
use crate::uid::Uid;

verus! {

/// One connected peer: its identifier, its address and the handle through
/// which the caller talks to it.
pub struct ConnectionEntry<UID, S> {
    pub uid: UID,
    pub addr: SocketAddress,
    pub peer: S,
}

/// No identifier occurs twice.
pub open spec fn unique_uids<UID, S>(s: Seq<ConnectionEntry<UID, S>>) -> bool {
    forall|i: int, j: int| 0 <= i < s.len() && 0 <= j < s.len() && s[i].uid == s[j].uid ==> i == j
}

/// Whether some entry has the identifier.
pub open spec fn has_uid<UID, S>(s: Seq<ConnectionEntry<UID, S>>, uid: UID) -> bool {
    exists|i: int| 0 <= i < s.len() && s[i].uid == uid
}

/// The entries as a map from identifier to address and handle.
pub open spec fn entries_view<UID, S>(s: Seq<ConnectionEntry<UID, S>>) -> Map<
    UID,
    (SocketAddress, S),
> {
    Map::new(
        |k: UID| has_uid(s, k),
        |k: UID|
            {
                let i = choose|i: int| 0 <= i < s.len() && s[i].uid == k;
                (s[i].addr, s[i].peer)
            },
    )
}

/// With unique identifiers, the map sends each entry's identifier to that entry.
pub proof fn lemma_entries_view_at<UID, S>(s: Seq<ConnectionEntry<UID, S>>, i: int)
    requires
        unique_uids(s),
        0 <= i < s.len(),
    ensures
        entries_view(s).contains_key(s[i].uid),
        entries_view(s)[s[i].uid] == (s[i].addr, s[i].peer),
{
    assert(has_uid(s, s[i].uid));
}

/// Replacing the handle of one entry changes only that peer's handle.
pub proof fn lemma_update_peer<UID, S>(s: Seq<ConnectionEntry<UID, S>>, i: int, v: S)
    requires
        unique_uids(s),
        0 <= i < s.len(),
    ensures
        ({
            let t = s.update(i, ConnectionEntry { uid: s[i].uid, addr: s[i].addr, peer: v });
            &&& unique_uids(t)
            &&& entries_view(t) == entries_view(s).insert(s[i].uid, (s[i].addr, v))
        }),
{
    let t = s.update(i, ConnectionEntry { uid: s[i].uid, addr: s[i].addr, peer: v });
    assert forall|a: int, b: int|
        0 <= a < t.len() && 0 <= b < t.len() && t[a].uid == t[b].uid implies a == b by {
        assert(t[a].uid == s[a].uid);
        assert(t[b].uid == s[b].uid);
    }
    assert forall|k: UID| #[trigger]
        entries_view(t).contains_key(k) == entries_view(s).insert(s[i].uid, (s[i].addr, v)).contains_key(k) by {
        if has_uid(s, k) {
            let j = choose|j: int| 0 <= j < s.len() && s[j].uid == k;
            assert(t[j].uid == k);
        }
        if has_uid(t, k) {
            let j = choose|j: int| 0 <= j < t.len() && t[j].uid == k;
            assert(s[j].uid == k);
        }
    }
    assert forall|k: UID| entries_view(t).contains_key(k) implies #[trigger] entries_view(t)[k]
        == entries_view(s).insert(s[i].uid, (s[i].addr, v))[k] by {
        let j = choose|j: int| 0 <= j < t.len() && t[j].uid == k;
        lemma_entries_view_at(t, j);
        if j != i {
            assert(s[j] == t[j]);
            lemma_entries_view_at(s, j);
        }
    }
    assert(entries_view(t) =~= entries_view(s).insert(s[i].uid, (s[i].addr, v)));
}

/// A map from peer identifiers to their address and a handle of the caller's choice.
pub struct ConnectionMap<UID, S> {
    entries: Vec<ConnectionEntry<UID, S>>,
}

impl<UID: Uid, S> View for ConnectionMap<UID, S> {
    type V = Map<UID, (SocketAddress, S)>;

    /// The connected peers.
    closed spec fn view(&self) -> Map<UID, (SocketAddress, S)> {
        entries_view(self.entries@)
    }
}

impl<UID: Uid, S> ConnectionMap<UID, S> {
    /// The identifiers are unique.
    pub closed spec fn wf(&self) -> bool {
        unique_uids(self.entries@)
    }

    /// No peer.
    pub fn new() -> (m: Self)
        ensures
            m.wf(),
            m.view() == Map::<UID, (SocketAddress, S)>::empty(),
    {
        let m = ConnectionMap { entries: Vec::new() };
        assert(m.view() =~= Map::<UID, (SocketAddress, S)>::empty());
        m
    }

    /// The index of the entry with the identifier, if there is one.
    fn find(&self, uid: &UID) -> (r: Option<usize>)
        requires
            self.wf(),
        ensures
            match r {
                Some(i) => i < self.entries@.len() && self.entries@[i as int].uid == *uid,
                None => !has_uid(self.entries@, *uid),
            },
    {
        let mut i: usize = 0;
        while i < self.entries.len()
            invariant
                0 <= i <= self.entries@.len(),
                forall|j: int| 0 <= j < i ==> self.entries@[j].uid != *uid,
            decreases self.entries@.len() - i,
        {
            if self.entries[i].uid.is_same(uid) {
                return Some(i);
            }
            i = i + 1;
        }
        None
    }

    /// Whether the peer is connected.
    pub fn contains_key(&self, uid: &UID) -> (b: bool)
        requires
            self.wf(),
        ensures
            b == self.view().contains_key(*uid),
    {
        self.find(uid).is_some()
    }

    /// Records a connected peer, replacing any earlier entry for its identifier.
    pub fn insert_peer(&mut self, uid: UID, addr: SocketAddress, peer: S)
        requires
            old(self).wf(),
        ensures
            final(self).wf(),
            final(self).view() == old(self).view().insert(uid, (addr, peer)),
    {
        let ghost s = self.entries@;
        let found = self.find(&uid);
        let entry = ConnectionEntry { uid, addr, peer };
        match found {
            Some(i) => {
                self.entries.set(i, entry);
                let ghost t = self.entries@;
                assert(t == s.update(i as int, entry));
                assert(unique_uids(t)) by {
                    assert forall|a: int, b: int|
                        0 <= a < t.len() && 0 <= b < t.len() && t[a].uid == t[b].uid implies a
                        == b by {
                        if a != i && b != i {
                        } else if a == i && b != i {
                            assert(s[b].uid == uid);
                        } else if a != i && b == i {
                            assert(s[a].uid == uid);
                        }
                    }
                }
                assert forall|k: UID| #[trigger]
                    entries_view(t).contains_key(k) == old(self).view().insert(
                        uid,
                        (addr, peer),
                    ).contains_key(k) by {
                    if has_uid(s, k) {
                        let j = choose|j: int| 0 <= j < s.len() && s[j].uid == k;
                        if j != i {
                            assert(t[j].uid == k);
                        }
                    }
                    if has_uid(t, k) {
                        let j = choose|j: int| 0 <= j < t.len() && t[j].uid == k;
                        if j != i {
                            assert(s[j].uid == k);
                        }
                    }
                }
                assert forall|k: UID| entries_view(t).contains_key(k) implies #[trigger] entries_view(
                    t,
                )[k] == old(self).view().insert(uid, (addr, peer))[k] by {
                    let j = choose|j: int| 0 <= j < t.len() && t[j].uid == k;
                    lemma_entries_view_at(t, j);
                    if j != i {
                        assert(s[j] == t[j]);
                        lemma_entries_view_at(s, j);
                    }
                }
                assert(entries_view(t) =~= old(self).view().insert(uid, (addr, peer)));
            },
            None => {
                self.entries.push(entry);
                let ghost t = self.entries@;
                assert(t == s.push(entry));
                assert(unique_uids(t)) by {
                    assert forall|a: int, b: int|
                        0 <= a < t.len() && 0 <= b < t.len() && t[a].uid == t[b].uid implies a
                        == b by {
                        if a < s.len() && b == s.len() {
                            assert(s[a].uid == uid);
                        } else if b < s.len() && a == s.len() {
                            assert(s[b].uid == uid);
                        }
                    }
                }
                assert forall|k: UID| #[trigger]
                    entries_view(t).contains_key(k) == old(self).view().insert(
                        uid,
                        (addr, peer),
                    ).contains_key(k) by {
                    if has_uid(s, k) {
                        let j = choose|j: int| 0 <= j < s.len() && s[j].uid == k;
                        assert(t[j].uid == k);
                    }
                    if k == uid {
                        assert(t[s.len() as int].uid == k);
                    }
                    if has_uid(t, k) && k != uid {
                        let j = choose|j: int| 0 <= j < t.len() && t[j].uid == k;
                        assert(s[j].uid == k);
                    }
                }
                assert forall|k: UID| entries_view(t).contains_key(k) implies #[trigger] entries_view(
                    t,
                )[k] == old(self).view().insert(uid, (addr, peer))[k] by {
                    let j = choose|j: int| 0 <= j < t.len() && t[j].uid == k;
                    lemma_entries_view_at(t, j);
                    if j < s.len() {
                        assert(s[j] == t[j]);
                        lemma_entries_view_at(s, j);
                    }
                }
                assert(entries_view(t) =~= old(self).view().insert(uid, (addr, peer)));
            },
        }
    }

    /// The handle of a connected peer.
    pub fn get(&self, uid: &UID) -> (r: Result<&S, CrustError>)
        requires
            self.wf(),
        ensures
            self.view().contains_key(*uid) ==> (r matches Ok(p) && *p == self.view()[*uid].1),
            !self.view().contains_key(*uid) ==> r matches Err(CrustError::PeerNotFound),
    {
        match self.find(uid) {
            Some(i) => {
                proof {
                    lemma_entries_view_at(self.entries@, i as int);
                }
                Ok(&self.entries[i].peer)
            },
            None => Err(CrustError::PeerNotFound),
        }
    }

    /// The handle of a connected peer, to act on it in place.
    pub fn get_mut(&mut self, uid: &UID) -> (r: Result<&mut S, CrustError>)
        requires
            old(self).wf(),
        ensures
            final(self).wf(),
            old(self).view().contains_key(*uid) ==> (r matches Ok(p) && *p == old(self).view()[*uid].1
                && final(self).view() == old(self).view().insert(
                *uid,
                (old(self).view()[*uid].0, *final(p)),
            )),
            !old(self).view().contains_key(*uid) ==> (r matches Err(CrustError::PeerNotFound)
                && final(self).view() == old(self).view()),
    {
        let ghost s = self.entries@;
        match self.find(uid) {
            Some(i) => {
                proof {
                    lemma_entries_view_at(s, i as int);
                    assert forall|v: S| #![trigger s.update(i as int, ConnectionEntry { uid: s[i as int].uid, addr: s[i as int].addr, peer: v })] ({
                        let t = s.update(i as int, ConnectionEntry { uid: s[i as int].uid, addr: s[i as int].addr, peer: v });
                        &&& unique_uids(t)
                        &&& entries_view(t) == entries_view(s).insert(s[i as int].uid, (s[i as int].addr, v))
                    }) by {
                        lemma_update_peer(s, i as int, v);
                    }
                }
                let entry = &mut self.entries[i];
                Ok(&mut entry.peer)
            },
            None => Err(CrustError::PeerNotFound),
        }
    }

    /// The address of a connected peer.
    pub fn peer_addr(&self, uid: &UID) -> (r: Result<SocketAddress, CrustError>)
        requires
            self.wf(),
        ensures
            self.view().contains_key(*uid) ==> r == Ok::<SocketAddress, CrustError>(
                self.view()[*uid].0,
            ),
            !self.view().contains_key(*uid) ==> r matches Err(CrustError::PeerNotFound),
    {
        match self.find(uid) {
            Some(i) => {
                proof {
                    lemma_entries_view_at(self.entries@, i as int);
                }
                Ok(self.entries[i].addr)
            },
            None => Err(CrustError::PeerNotFound),
        }
    }

    /// The IP address of a connected peer.
    pub fn peer_ip_addr(&self, uid: &UID) -> (r: Result<IpAddress, CrustError>)
        requires
            self.wf(),
        ensures
            self.view().contains_key(*uid) ==> r == Ok::<IpAddress, CrustError>(
                self.view()[*uid].0.ip,
            ),
            !self.view().contains_key(*uid) ==> r matches Err(CrustError::PeerNotFound),
    {
        match self.peer_addr(uid) {
            Ok(a) => Ok(a.ip),
            Err(e) => Err(e),
        }
    }

    /// Forgets a peer; returns whether it was connected.
    pub fn remove(&mut self, uid: &UID) -> (was_connected: bool)
        requires
            old(self).wf(),
        ensures
            final(self).wf(),
            was_connected == old(self).view().contains_key(*uid),
            final(self).view() == old(self).view().remove(*uid),
    {
        let ghost s = self.entries@;
        match self.find(uid) {
            Some(i) => {
                let _removed = self.entries.remove(i);
                let ghost t = self.entries@;
                assert(t == s.remove(i as int));
                assert(unique_uids(t)) by {
                    assert forall|a: int, b: int|
                        0 <= a < t.len() && 0 <= b < t.len() && t[a].uid == t[b].uid implies a
                        == b by {
                        let a1 = if a < i { a } else { a + 1 };
                        let b1 = if b < i { b } else { b + 1 };
                        assert(t[a] == s[a1]);
                        assert(t[b] == s[b1]);
                    }
                }
                assert forall|k: UID| #[trigger]
                    entries_view(t).contains_key(k) == old(self).view().remove(*uid).contains_key(
                        k,
                    ) by {
                    if has_uid(s, k) && k != *uid {
                        let j = choose|j: int| 0 <= j < s.len() && s[j].uid == k;
                        if j < i {
                            assert(t[j].uid == k);
                        } else {
                            assert(j != i);
                            assert(t[j - 1].uid == k);
                        }
                    }
                    if has_uid(t, k) {
                        let j = choose|j: int| 0 <= j < t.len() && t[j].uid == k;
                        let j1 = if j < i { j } else { j + 1 };
                        assert(s[j1].uid == k);
                        assert(j1 != i);
                    }
                }
                assert forall|k: UID| entries_view(t).contains_key(k) implies #[trigger] entries_view(
                    t,
                )[k] == old(self).view().remove(*uid)[k] by {
                    let j = choose|j: int| 0 <= j < t.len() && t[j].uid == k;
                    lemma_entries_view_at(t, j);
                    let j1 = if j < i { j } else { j + 1 };
                    assert(s[j1] == t[j]);
                    lemma_entries_view_at(s, j1);
                }
                assert(entries_view(t) =~= old(self).view().remove(*uid));
                true
            },
            None => {
                assert(entries_view(s) =~= old(self).view().remove(*uid));
                false
            },
        }
    }
}

// Laws of the connection map, stated over the operations' contracts.

/// The address read back for a peer is the one it was last recorded with.
pub proof fn law_read_after_insert<UID, S>(
    m: Map<UID, (SocketAddress, S)>,
    uid: UID,
    addr: SocketAddress,
    peer: S,
    other: UID,
)
    ensures
        m.insert(uid, (addr, peer)).contains_key(uid),
        m.insert(uid, (addr, peer))[uid] == (addr, peer),
        other != uid ==> m.insert(uid, (addr, peer)).contains_key(other) == m.contains_key(other),
        other != uid && m.contains_key(other) ==> m.insert(uid, (addr, peer))[other] == m[other],
{
}

/// After a peer is removed it is no longer connected, and removing it again
/// reports that there was no connection.
pub proof fn law_remove_forgets<UID, S>(m: Map<UID, (SocketAddress, S)>, uid: UID)
    ensures
        !m.remove(uid).contains_key(uid),
        m.remove(uid).remove(uid) == m.remove(uid),
{
    assert(m.remove(uid).remove(uid) =~= m.remove(uid));
}

} // verus!
