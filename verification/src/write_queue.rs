//! The queue of messages waiting to be written to a socket.
//!
//! Messages wait in order of priority (a smaller number is more urgent) and,
//! within one priority, in the order in which they were queued. When the
//! link cannot keep up, queues of droppable priority whose oldest message has
//! waited too long are dropped, together with every queue of a larger
//! priority value.
use vstd::prelude::*;

verus! {

/// The priority of a message: smaller values are sent first.
pub type Priority = u8;

/// Minimum priority for droppable messages. Messages with lower values will never be dropped.
pub const MSG_DROP_PRIORITY: u8 = 2;

/// Maximum age of a message waiting to be sent. If a message is older, the queue is dropped.
pub const MAX_MSG_AGE_SECS: u64 = 60;

/// What a queued message is, as far as the queue's rules are concerned.
pub struct PendingMessage {
    pub priority: u8,
    /// When the message was queued, in milliseconds on the caller's monotonic clock.
    pub queued_at: u64,
    pub data: Seq<u8>,
}

/// A message waiting to be written.
pub struct QueuedMessage {
    pub priority: u8,
    /// When the message was queued, in milliseconds on the caller's monotonic clock.
    pub queued_at: u64,
    pub data: Vec<u8>,
}

impl View for QueuedMessage {
    type V = PendingMessage;

    open spec fn view(&self) -> PendingMessage {
        PendingMessage { priority: self.priority, queued_at: self.queued_at, data: self.data@ }
    }
}

/// Messages ordered by priority, smaller values first.
pub open spec fn sorted_by_priority(s: Seq<PendingMessage>) -> bool {
    forall|i: int, j: int| 0 <= i <= j < s.len() ==> s[i].priority <= s[j].priority
}

/// How many messages at the front of `s` have a priority value of at most `p`.
pub open spec fn leading_at_most(s: Seq<PendingMessage>, p: u8) -> nat
    decreases s.len(),
{
    if s.len() > 0 && s[0].priority <= p {
        1 + leading_at_most(s.drop_first(), p)
    } else {
        0
    }
}

/// How many messages at the front of `s` have a priority value below `p`.
pub open spec fn leading_below(s: Seq<PendingMessage>, p: u8) -> nat
    decreases s.len(),
{
    if s.len() > 0 && s[0].priority < p {
        1 + leading_below(s.drop_first(), p)
    } else {
        0
    }
}

/// Whether a message queued at `queued_at` has waited more than `MAX_MSG_AGE_SECS`
/// whole seconds at time `now` (both in milliseconds).
pub open spec fn is_expired(queued_at: u64, now: u64) -> bool {
    now >= queued_at && (now - queued_at) / 1000 > MAX_MSG_AGE_SECS
}

/// Whether the message at index `i` is the oldest message of a droppable
/// priority and has expired: the queue of that priority, and all queues after
/// it, are then dropped.
pub open spec fn triggers_drop(s: Seq<PendingMessage>, i: int, now: u64) -> bool {
    &&& 0 <= i < s.len()
    &&& s[i].priority >= MSG_DROP_PRIORITY
    &&& (i == 0 || s[i - 1].priority != s[i].priority)
    &&& is_expired(s[i].queued_at, now)
}

/// The first index at or after `i` that triggers a drop, or the length of `s`.
pub open spec fn first_drop_from(s: Seq<PendingMessage>, i: int, now: u64) -> int
    decreases s.len() - i,
{
    if i >= s.len() {
        s.len() as int
    } else if triggers_drop(s, i, now) {
        i
    } else {
        first_drop_from(s, i + 1, now)
    }
}

/// How many messages survive expiry at time `now`: the messages before the first trigger.
pub open spec fn expiry_cut(s: Seq<PendingMessage>, now: u64) -> int {
    first_drop_from(s, 0, now)
}

/// The prefix count `leading_at_most` is the split point of a sorted sequence.
pub proof fn lemma_leading_at_most_split(s: Seq<PendingMessage>, p: u8)
    requires
        sorted_by_priority(s),
    ensures
        leading_at_most(s, p) <= s.len(),
        forall|j: int| 0 <= j < leading_at_most(s, p) ==> s[j].priority <= p,
        forall|j: int| leading_at_most(s, p) <= j < s.len() ==> s[j].priority > p,
    decreases s.len(),
{
    if s.len() > 0 && s[0].priority <= p {
        lemma_leading_at_most_split(s.drop_first(), p);
        assert forall|j: int| 0 <= j < leading_at_most(s, p) implies s[j].priority <= p by {
            if j > 0 {
                assert(s[j] == s.drop_first()[j - 1]);
            }
        }
        assert forall|j: int| leading_at_most(s, p) <= j < s.len() implies s[j].priority > p by {
            assert(s[j] == s.drop_first()[j - 1]);
        }
    }
}

/// The prefix count `leading_below` is the split point of a sorted sequence.
pub proof fn lemma_leading_below_split(s: Seq<PendingMessage>, p: u8)
    requires
        sorted_by_priority(s),
    ensures
        leading_below(s, p) <= s.len(),
        forall|j: int| 0 <= j < leading_below(s, p) ==> s[j].priority < p,
        forall|j: int| leading_below(s, p) <= j < s.len() ==> s[j].priority >= p,
    decreases s.len(),
{
    if s.len() > 0 && s[0].priority < p {
        lemma_leading_below_split(s.drop_first(), p);
        assert forall|j: int| 0 <= j < leading_below(s, p) implies s[j].priority < p by {
            if j > 0 {
                assert(s[j] == s.drop_first()[j - 1]);
            }
        }
        assert forall|j: int| leading_below(s, p) <= j < s.len() implies s[j].priority >= p by {
            assert(s[j] == s.drop_first()[j - 1]);
        }
    }
}

/// A split point found by scanning equals `leading_at_most`.
proof fn lemma_leading_at_most_is(s: Seq<PendingMessage>, p: u8, k: int)
    requires
        0 <= k <= s.len(),
        forall|j: int| 0 <= j < k ==> s[j].priority <= p,
        k < s.len() ==> s[k].priority > p,
    ensures
        leading_at_most(s, p) == k,
    decreases k,
{
    if k > 0 {
        assert forall|j: int| 0 <= j < k - 1 implies s.drop_first()[j].priority <= p by {
            assert(s.drop_first()[j] == s[j + 1]);
        }
        if k < s.len() {
            assert(s.drop_first()[k - 1] == s[k]);
        }
        lemma_leading_at_most_is(s.drop_first(), p, k - 1);
    }
}

/// A split point found by scanning equals `leading_below`.
proof fn lemma_leading_below_is(s: Seq<PendingMessage>, p: u8, k: int)
    requires
        0 <= k <= s.len(),
        forall|j: int| 0 <= j < k ==> s[j].priority < p,
        k < s.len() ==> s[k].priority >= p,
    ensures
        leading_below(s, p) == k,
    decreases k,
{
    if k > 0 {
        assert forall|j: int| 0 <= j < k - 1 implies s.drop_first()[j].priority < p by {
            assert(s.drop_first()[j] == s[j + 1]);
        }
        if k < s.len() {
            assert(s.drop_first()[k - 1] == s[k]);
        }
        lemma_leading_below_is(s.drop_first(), p, k - 1);
    }
}

/// `first_drop_from` finds the first trigger at or after `i`.
pub proof fn lemma_first_drop_from(s: Seq<PendingMessage>, i: int, now: u64)
    requires
        0 <= i <= s.len(),
    ensures
        i <= first_drop_from(s, i, now) <= s.len(),
        forall|j: int| i <= j < first_drop_from(s, i, now) ==> !triggers_drop(s, j, now),
        first_drop_from(s, i, now) < s.len() ==> triggers_drop(s, first_drop_from(s, i, now), now),
    decreases s.len() - i,
{
    if i < s.len() && !triggers_drop(s, i, now) {
        lemma_first_drop_from(s, i + 1, now);
    }
}

/// Inserting a message into a sorted sequence where it belongs keeps it sorted.
proof fn lemma_insert_sorted(s: Seq<PendingMessage>, k: int, m: PendingMessage)
    requires
        sorted_by_priority(s),
        0 <= k <= s.len(),
        forall|j: int| 0 <= j < k ==> s[j].priority <= m.priority,
        forall|j: int| k <= j < s.len() ==> s[j].priority >= m.priority,
    ensures
        sorted_by_priority(s.insert(k, m)),
{
    let t = s.insert(k, m);
    assert forall|i: int, j: int| 0 <= i <= j < t.len() implies t[i].priority <= t[j].priority by {
        if i < k {
            if j < k {
            } else if j > k {
                assert(t[j] == s[j - 1]);
            }
        } else if i == k {
            if j > k {
                assert(t[j] == s[j - 1]);
            }
        } else {
            assert(t[i] == s[i - 1]);
            assert(t[j] == s[j - 1]);
        }
    }
}

/// The queue after the arrivals, queued at `now`, were pushed one by one.
pub open spec fn push_all(s: Seq<PendingMessage>, arrivals: Seq<(u8, Seq<u8>)>, now: u64) -> Seq<
    PendingMessage,
>
    decreases arrivals.len(),
{
    if arrivals.len() == 0 {
        s
    } else {
        let t = push_all(s, arrivals.drop_last(), now);
        let m = PendingMessage {
            priority: arrivals.last().0,
            queued_at: now,
            data: arrivals.last().1,
        };
        t.insert(leading_at_most(t, m.priority) as int, m)
    }
}

/// Pushing keeps a queue sorted.
pub proof fn lemma_push_all_sorted(s: Seq<PendingMessage>, arrivals: Seq<(u8, Seq<u8>)>, now: u64)
    requires
        sorted_by_priority(s),
    ensures
        sorted_by_priority(push_all(s, arrivals, now)),
    decreases arrivals.len(),
{
    if arrivals.len() > 0 {
        lemma_push_all_sorted(s, arrivals.drop_last(), now);
        let t = push_all(s, arrivals.drop_last(), now);
        let m = PendingMessage {
            priority: arrivals.last().0,
            queued_at: now,
            data: arrivals.last().1,
        };
        law_push_back_fifo(t, m);
    }
}

/// The view of the messages that arrived for a socket.
pub open spec fn arrivals_view(v: Seq<(Priority, Vec<u8>)>) -> Seq<(u8, Seq<u8>)> {
    v.map_values(|a: (Priority, Vec<u8>)| (a.0, a.1@))
}

/// The messages waiting to be written on one socket.
pub struct WriteQueue {
    messages: Vec<QueuedMessage>,
}

impl View for WriteQueue {
    type V = Seq<PendingMessage>;

    closed spec fn view(&self) -> Seq<PendingMessage> {
        self.messages@.map_values(|m: QueuedMessage| m@)
    }
}

impl WriteQueue {
    /// Every queue holds its messages sorted by priority; each operation
    /// says so of the queue it leaves, for the laws below.
    #[verifier::type_invariant]
    pub open spec fn inv(&self) -> bool {
        sorted_by_priority(self@)
    }

    /// An empty queue.
    pub fn new() -> (q: WriteQueue)
        ensures
            sorted_by_priority(q@),
            q@ == Seq::<PendingMessage>::empty(),
    {
        let q = WriteQueue { messages: Vec::new() };
        assert(q@ =~= Seq::<PendingMessage>::empty());
        q
    }

    /// The number of messages waiting.
    pub fn len(&self) -> (n: usize)
        ensures
            n == self@.len(),
    {
        self.messages.len()
    }

    /// Whether no message is waiting.
    pub fn is_empty(&self) -> (b: bool)
        ensures
            b == (self@.len() == 0),
    {
        self.messages.len() == 0
    }

    /// Queues a message behind every message of the same or a more urgent priority.
    pub fn push_back(&mut self, priority: Priority, queued_at: u64, data: Vec<u8>)
        ensures
            sorted_by_priority(final(self)@),
            final(self)@ == old(self)@.insert(
                leading_at_most(old(self)@, priority) as int,
                PendingMessage { priority, queued_at, data: data@ },
            ),
    {
        proof {
            use_type_invariant(&*self);
        }
        let ghost s = self@;
        let mut k: usize = 0;
        let n = self.messages.len();
        while k < n && self.messages[k].priority <= priority
            invariant
                n == self.messages@.len(),
                s == self@,
                s.len() == n,
                0 <= k <= n,
                forall|j: int| 0 <= j < k ==> s[j].priority <= priority,
            decreases n - k,
        {
            assert(s[k as int] == self.messages@[k as int]@);
            k = k + 1;
        }
        proof {
            if k < n {
                assert(s[k as int] == self.messages@[k as int]@);
            }
            lemma_leading_at_most_is(s, priority, k as int);
            lemma_leading_at_most_split(s, priority);
        }
        let msg = QueuedMessage { priority, queued_at, data };
        let ghost m = msg@;
        proof {
            lemma_insert_sorted(s, k as int, m);
        }
        let mut msgs = Vec::new();
        std::mem::swap(&mut msgs, &mut self.messages);
        msgs.insert(k, msg);
        assert(msgs@.map_values(|q: QueuedMessage| q@) =~= s.insert(k as int, m));
        self.messages = msgs;
        assert(self@ =~= s.insert(k as int, m));
    }

    /// Takes out the next message to send: the oldest of the most urgent priority.
    pub fn pop_front(&mut self) -> (m: Option<QueuedMessage>)
        ensures
            sorted_by_priority(final(self)@),
            old(self)@.len() == 0 ==> m is None && final(self)@ == old(self)@,
            old(self)@.len() > 0 ==> m is Some && m->0@ == old(self)@[0] && final(self)@
                == old(self)@.drop_first(),
            m matches Some(msg) ==> forall|i: int|
                0 <= i < old(self)@.len() ==> msg.priority <= old(self)@[i].priority,
    {
        proof {
            use_type_invariant(&*self);
        }
        if self.messages.len() == 0 {
            None
        } else {
            let ghost s = self@;
            let mut msgs = Vec::new();
            std::mem::swap(&mut msgs, &mut self.messages);
            let msg = msgs.remove(0);
            assert(msgs@.map_values(|q: QueuedMessage| q@) =~= s.drop_first());
            self.messages = msgs;
            assert(self@ =~= s.drop_first());
            assert(msg@ == s[0]);
            Some(msg)
        }
    }

    /// Puts a message that could not be sent back in front of every message of
    /// its priority.
    pub fn push_front(&mut self, msg: QueuedMessage)
        ensures
            sorted_by_priority(final(self)@),
            final(self)@ == old(self)@.insert(leading_below(old(self)@, msg.priority) as int, msg@),
    {
        proof {
            use_type_invariant(&*self);
        }
        let ghost s = self@;
        let p = msg.priority;
        let mut k: usize = 0;
        let n = self.messages.len();
        while k < n && self.messages[k].priority < p
            invariant
                n == self.messages@.len(),
                s == self@,
                s.len() == n,
                0 <= k <= n,
                forall|j: int| 0 <= j < k ==> s[j].priority < p,
            decreases n - k,
        {
            assert(s[k as int] == self.messages@[k as int]@);
            k = k + 1;
        }
        proof {
            if k < n {
                assert(s[k as int] == self.messages@[k as int]@);
            }
            lemma_leading_below_is(s, p, k as int);
            lemma_leading_below_split(s, p);
        }
        let ghost m = msg@;
        proof {
            lemma_insert_sorted(s, k as int, m);
        }
        let mut msgs = Vec::new();
        std::mem::swap(&mut msgs, &mut self.messages);
        msgs.insert(k, msg);
        assert(msgs@.map_values(|q: QueuedMessage| q@) =~= s.insert(k as int, m));
        self.messages = msgs;
        assert(self@ =~= s.insert(k as int, m));
    }

    /// Drops, at time `now`, the first queue of droppable priority whose oldest
    /// message has expired and every queue after it; returns how many messages
    /// were dropped.
    pub fn drop_expired(&mut self, now: u64) -> (dropped: usize)
        ensures
            sorted_by_priority(final(self)@),
            final(self)@ == old(self)@.take(expiry_cut(old(self)@, now)),
            dropped == old(self)@.len() - expiry_cut(old(self)@, now),
    {
        proof {
            use_type_invariant(&*self);
        }
        let ghost s = self@;
        let n = self.messages.len();
        let mut i: usize = 0;
        proof {
            lemma_first_drop_from(s, 0, now);
        }
        while i < n
            invariant
                n == self.messages@.len(),
                s == self@,
                s.len() == n,
                0 <= i <= n,
                first_drop_from(s, 0, now) == first_drop_from(s, i as int, now),
            ensures
                0 <= i <= n,
                first_drop_from(s, 0, now) == i,
            decreases n - i,
        {
            let m = &self.messages[i];
            assert(s[i as int] == self.messages@[i as int]@);
            if i > 0 {
                assert(s[i - 1] == self.messages@[i - 1]@);
            }
            let front = i == 0 || self.messages[i - 1].priority != m.priority;
            let expired = now >= m.queued_at && (now - m.queued_at) / 1000 > MAX_MSG_AGE_SECS;
            if m.priority >= MSG_DROP_PRIORITY && front && expired {
                assert(triggers_drop(s, i as int, now));
                break;
            }
            i = i + 1;
        }
        let dropped = n - i;
        let mut msgs = Vec::new();
        std::mem::swap(&mut msgs, &mut self.messages);
        msgs.truncate(i);
        assert(msgs@.map_values(|q: QueuedMessage| q@) =~= s.take(i as int));
        self.messages = msgs;
        assert(self@ =~= s.take(i as int));
        dropped
    }
}

impl WriteQueue {
    /// One poll of the writing task before it writes: the messages that
    /// arrived are queued at `now`, in order, then expired queues are dropped;
    /// returns how many messages were dropped.
    pub fn poll(&mut self, now: u64, arrivals: Vec<(Priority, Vec<u8>)>) -> (dropped: usize)
        ensures
            sorted_by_priority(final(self)@),
            final(self)@ == push_all(old(self)@, arrivals_view(arrivals@), now).take(
                expiry_cut(push_all(old(self)@, arrivals_view(arrivals@), now), now),
            ),
            dropped == push_all(old(self)@, arrivals_view(arrivals@), now).len() - expiry_cut(
                push_all(old(self)@, arrivals_view(arrivals@), now),
                now,
            ),
    {
        let ghost s0 = self@;
        let ghost all = arrivals_view(arrivals@);
        let mut rest = arrivals;
        let ghost n: int = all.len() as int;
        while rest.len() > 0
            invariant
                all.len() == n,
                arrivals_view(rest@) == all.skip(n - rest@.len()),
                rest@.len() <= n,
                self@ == push_all(s0, all.take(n - rest@.len()), now),
            decreases rest@.len(),
        {
            let ghost k = n - rest@.len();
            let ghost r0 = rest@;
            let (p, d) = rest.remove(0);
            proof {
                assert(rest@ =~= r0.drop_first());
                assert forall|j: int| 0 <= j < rest@.len() implies #[trigger] arrivals_view(rest@)[j]
                    == all.skip(k + 1)[j] by {
                    assert(arrivals_view(rest@)[j] == arrivals_view(r0)[j + 1]);
                }
                assert(all.skip(k)[0] == (p, d@));
                assert(all.take(k + 1).drop_last() =~= all.take(k));
                assert(all.take(k + 1).last() == (p, d@));
                assert(arrivals_view(rest@) =~= all.skip(k + 1));
            }
            self.push_back(p, now, d);
        }
        assert(all.take(n) =~= all);
        self.drop_expired(now)
    }
}

/// Whether the writing task has finished: the socket has been dropped, every
/// queued message has been handed to the link and the link has flushed.
pub fn write_task_finished(socket_dropped: bool, all_messages_sent: bool, flushed: bool) -> (done:
    bool)
    ensures
        done == (socket_dropped && all_messages_sent && flushed),
{
    flushed && socket_dropped && all_messages_sent
}

// Laws of the queue.

/// Messages with a priority value below `MSG_DROP_PRIORITY` are never dropped.
pub proof fn law_urgent_messages_never_dropped(s: Seq<PendingMessage>, now: u64)
    requires
        sorted_by_priority(s),
    ensures
        forall|i: int|
            0 <= i < s.len() && s[i].priority < MSG_DROP_PRIORITY ==> i < expiry_cut(s, now),
{
    lemma_first_drop_from(s, 0, now);
    assert forall|i: int| 0 <= i < s.len() && s[i].priority < MSG_DROP_PRIORITY implies i
        < expiry_cut(s, now) by {
        let c = expiry_cut(s, now);
        if c <= i {
            assert(triggers_drop(s, c, now));
        }
    }
}

/// A poll of the writing task never drops a message with a priority value
/// below `MSG_DROP_PRIORITY`, whether it waited already or just arrived: every
/// such message of the queue after the arrivals survives the drop.
pub proof fn law_poll_keeps_urgent_messages(
    s: Seq<PendingMessage>,
    arrivals: Seq<(u8, Seq<u8>)>,
    now: u64,
)
    requires
        sorted_by_priority(s),
    ensures
        forall|i: int|
            0 <= i < push_all(s, arrivals, now).len() && push_all(s, arrivals, now)[i].priority
                < MSG_DROP_PRIORITY ==> i < expiry_cut(push_all(s, arrivals, now), now),
{
    lemma_push_all_sorted(s, arrivals, now);
    law_urgent_messages_never_dropped(push_all(s, arrivals, now), now);
}

/// Nothing is dropped unless the oldest message of some droppable priority
/// has expired; when something is dropped, the cut is at such a message and
/// every queue after it goes too.
pub proof fn law_drop_only_expired(s: Seq<PendingMessage>, now: u64)
    ensures
        0 <= expiry_cut(s, now) <= s.len(),
        expiry_cut(s, now) < s.len() ==> triggers_drop(s, expiry_cut(s, now), now),
        forall|j: int| 0 <= j < expiry_cut(s, now) ==> !triggers_drop(s, j, now),
        (forall|j: int| 0 <= j < s.len() ==> !#[trigger] triggers_drop(s, j, now)) ==> expiry_cut(
            s,
            now,
        ) == s.len(),
{
    lemma_first_drop_from(s, 0, now);
}

/// A message queued with priority `p` goes after every waiting message of
/// priority `p` or more urgent, and before every less urgent one.
pub proof fn law_push_back_fifo(s: Seq<PendingMessage>, m: PendingMessage)
    requires
        sorted_by_priority(s),
    ensures
        ({
            let t = s.insert(leading_at_most(s, m.priority) as int, m);
            let k = leading_at_most(s, m.priority) as int;
            &&& sorted_by_priority(t)
            &&& t[k] == m
            &&& forall|j: int| 0 <= j < k ==> t[j] == s[j] && s[j].priority <= m.priority
            &&& forall|j: int| k < j < t.len() ==> t[j] == s[j - 1] && s[j - 1].priority
                > m.priority
        }),
{
    lemma_leading_at_most_split(s, m.priority);
    lemma_insert_sorted(s, leading_at_most(s, m.priority) as int, m);
}

/// Putting back the message just taken from the front restores the queue.
pub proof fn law_pop_then_push_front_restores(s: Seq<PendingMessage>)
    requires
        sorted_by_priority(s),
        s.len() > 0,
    ensures
        s.drop_first().insert(leading_below(s.drop_first(), s[0].priority) as int, s[0]) == s,
{
    let t = s.drop_first();
    assert(t.len() > 0 ==> t[0] == s[1]);
    lemma_leading_below_is(t, s[0].priority, 0);
    assert(t.insert(0, s[0]) =~= s);
}

/// The messages of priority `p`, in queue order.
pub open spec fn of_priority(s: Seq<PendingMessage>, p: u8) -> Seq<PendingMessage> {
    s.filter(|m: PendingMessage| m.priority == p)
}

/// The arrivals as the messages they become when queued at `now`.
pub open spec fn arrival_messages(arrivals: Seq<(u8, Seq<u8>)>, now: u64) -> Seq<PendingMessage> {
    arrivals.map_values(|a: (u8, Seq<u8>)| PendingMessage { priority: a.0, queued_at: now, data: a.1 })
}

/// No message of `s` has priority `p`: none is of that priority.
proof fn lemma_none_of_priority(s: Seq<PendingMessage>, p: u8)
    requires
        forall|i: int| 0 <= i < s.len() ==> s[i].priority != p,
    ensures
        of_priority(s, p) == Seq::<PendingMessage>::empty(),
{
    let pred = |m: PendingMessage| m.priority == p;
    assert(s.all(|m: PendingMessage| !pred(m)));
    s.lemma_all_neg_filter_empty(pred);
    assert(of_priority(s, p) =~= Seq::<PendingMessage>::empty());
}

/// Queuing `m` behind the messages of its priority appends it to the
/// messages of its priority and leaves those of other priorities as they were.
proof fn lemma_of_priority_after_push(t: Seq<PendingMessage>, m: PendingMessage, p: u8)
    requires
        sorted_by_priority(t),
    ensures
        of_priority(t.insert(leading_at_most(t, m.priority) as int, m), p) == of_priority(t, p)
            + of_priority(seq![m], p),
{
    let k = leading_at_most(t, m.priority) as int;
    let pred = |x: PendingMessage| x.priority == p;
    lemma_leading_at_most_split(t, m.priority);
    let a = t.take(k);
    let b = t.skip(k);
    assert(t.insert(k, m) =~= a + seq![m] + b);
    assert(t =~= a + b);
    Seq::filter_distributes_over_add(a + seq![m], b, pred);
    Seq::filter_distributes_over_add(a, seq![m], pred);
    Seq::filter_distributes_over_add(a, b, pred);
    if m.priority == p {
        assert forall|i: int| 0 <= i < b.len() implies b[i].priority != p by {
            assert(b[i] == t[k + i]);
        }
        lemma_none_of_priority(b, p);
        assert(of_priority(t.insert(k, m), p) =~= of_priority(a, p) + of_priority(seq![m], p));
        assert(of_priority(t, p) =~= of_priority(a, p));
    } else {
        lemma_none_of_priority(seq![m], p);
        assert(of_priority(t.insert(k, m), p) =~= of_priority(a, p) + of_priority(b, p));
        assert(of_priority(t, p) + of_priority(seq![m], p) =~= of_priority(t, p));
    }
}

/// Within one priority, messages leave in the order in which they were
/// queued: after a poll's arrivals are pushed, the messages of any priority
/// `p` are those that waited, then the arrivals of priority `p`, in the order
/// they arrived.
pub proof fn law_fifo_within_priority(
    s: Seq<PendingMessage>,
    arrivals: Seq<(u8, Seq<u8>)>,
    now: u64,
    p: u8,
)
    requires
        sorted_by_priority(s),
    ensures
        of_priority(push_all(s, arrivals, now), p) == of_priority(s, p) + of_priority(
            arrival_messages(arrivals, now),
            p,
        ),
    decreases arrivals.len(),
{
    let pred = |x: PendingMessage| x.priority == p;
    if arrivals.len() == 0 {
        assert(arrival_messages(arrivals, now) =~= Seq::<PendingMessage>::empty());
        lemma_none_of_priority(Seq::<PendingMessage>::empty(), p);
        assert(of_priority(s, p) + Seq::<PendingMessage>::empty() =~= of_priority(s, p));
    } else {
        let init = arrivals.drop_last();
        law_fifo_within_priority(s, init, now, p);
        lemma_push_all_sorted(s, init, now);
        let t = push_all(s, init, now);
        let m = PendingMessage { priority: arrivals.last().0, queued_at: now, data: arrivals.last().1 };
        lemma_of_priority_after_push(t, m, p);
        assert(arrival_messages(arrivals, now) =~= arrival_messages(init, now) + seq![m]);
        Seq::filter_distributes_over_add(arrival_messages(init, now), seq![m], pred);
        assert(of_priority(push_all(s, arrivals, now), p) =~= of_priority(s, p) + of_priority(
            arrival_messages(arrivals, now),
            p,
        ));
    }
}

} // verus!
