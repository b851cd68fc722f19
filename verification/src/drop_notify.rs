//! The state shared by a drop notifier and its notice: the notice resolves
//! once the notifier has been dropped, waking the task that waited on it.
use vstd::prelude::*;

verus! {

/// Whether the notifier is gone, and which task (if any) waits for that.
pub struct DropState<T> {
    dropped: bool,
    waiting: Option<T>,
}

impl<T> DropState<T> {
    /// Whether the notifier has been dropped.
    pub closed spec fn is_dropped(&self) -> bool {
        self.dropped
    }

    /// The task waiting for the drop.
    pub closed spec fn waiter(&self) -> Option<T> {
        self.waiting
    }

    /// A notifier that is alive, with no task waiting.
    pub fn new() -> (s: Self)
        ensures
            !s.is_dropped(),
            s.waiter() is None,
    {
        DropState { dropped: false, waiting: None }
    }

    /// Polls the notice on behalf of `task`: ready once the notifier has been
    /// dropped; otherwise `task` becomes the one to wake.
    pub fn poll_notice(&mut self, task: T) -> (ready: bool)
        ensures
            ready == old(self).is_dropped(),
            final(self).model() == drop_step(old(self).model(), DropEvent::Poll(task)),
            final(self).is_dropped() == old(self).is_dropped(),
            ready ==> final(self).waiter() == old(self).waiter(),
            !ready ==> final(self).waiter() == Some(task),
    {
        if self.dropped {
            true
        } else {
            self.waiting = Some(task);
            false
        }
    }

    /// Records that the notifier is dropped and hands back the task to wake.
    pub fn notify_drop(&mut self) -> (to_wake: Option<T>)
        ensures
            final(self).is_dropped(),
            final(self).waiter() is None,
            final(self).model() == drop_step(old(self).model(), DropEvent::<T>::Drop),
            to_wake == old(self).waiter(),
    {
        self.dropped = true;
        self.waiting.take()
    }
}

/// A step of the shared state: a poll of the notice on behalf of a task, or
/// the notifier's drop.
pub enum DropEvent<T> {
    Poll(T),
    Drop,
}

/// The state, as (dropped, waiting task), after one step.
pub open spec fn drop_step<T>(s: (bool, Option<T>), ev: DropEvent<T>) -> (bool, Option<T>) {
    match ev {
        DropEvent::Poll(task) => if s.0 {
            s
        } else {
            (false, Some(task))
        },
        DropEvent::Drop => (true, None),
    }
}

/// The state after a run of steps.
pub open spec fn drop_run<T>(s: (bool, Option<T>), evs: Seq<DropEvent<T>>) -> (bool, Option<T>)
    decreases evs.len(),
{
    if evs.len() == 0 {
        s
    } else {
        drop_step(drop_run(s, evs.drop_last()), evs.last())
    }
}

/// Once the notifier has been dropped, the notice stays ready: every later
/// poll (`poll_notice` is ready exactly when the state says dropped) finds it
/// ready.
pub proof fn law_notice_ready_after_drop<T>(s: (bool, Option<T>), evs: Seq<DropEvent<T>>, i: int)
    requires
        0 <= i < evs.len(),
        evs[i] is Drop,
    ensures
        drop_run(s, evs).0,
    decreases evs.len(),
{
    if i < evs.len() - 1 {
        assert(evs.drop_last()[i] == evs[i]);
        law_notice_ready_after_drop(s, evs.drop_last(), i);
    }
}

/// The task of the last poll in a run of steps, if any poll came.
pub open spec fn last_poller<T>(evs: Seq<DropEvent<T>>) -> Option<T>
    decreases evs.len(),
{
    if evs.len() == 0 {
        None
    } else {
        match evs.last() {
            DropEvent::Poll(task) => Some(task),
            DropEvent::Drop => last_poller(evs.drop_last()),
        }
    }
}

/// The notice is ready exactly when the notifier was dropped, before the run
/// or during it: while the notifier lives every poll finds it not ready.
pub proof fn law_ready_iff_dropped<T>(s: (bool, Option<T>), evs: Seq<DropEvent<T>>)
    ensures
        drop_run(s, evs).0 <==> (s.0 || exists|i: int| 0 <= i < evs.len() && evs[i] is Drop),
    decreases evs.len(),
{
    if evs.len() > 0 {
        let init = evs.drop_last();
        law_ready_iff_dropped(s, init);
        if exists|i: int| 0 <= i < init.len() && init[i] is Drop {
            let i = choose|i: int| 0 <= i < init.len() && init[i] is Drop;
            assert(evs[i] == init[i]);
        }
        if exists|i: int| 0 <= i < evs.len() && evs[i] is Drop {
            let i = choose|i: int| 0 <= i < evs.len() && evs[i] is Drop;
            if i < evs.len() - 1 {
                assert(init[i] == evs[i]);
            }
        }
    }
}

/// While the notifier lives, the task to wake is the one that polled last;
/// the drop then hands that task over (see `notify_drop`) and leaves the
/// notice ready.
pub proof fn law_drop_wakes_last_poller<T>(s: (bool, Option<T>), evs: Seq<DropEvent<T>>)
    requires
        !drop_run(s, evs).0,
        last_poller(evs) is Some,
    ensures
        drop_run(s, evs).1 == last_poller(evs),
        drop_run(s, evs.push(DropEvent::Drop)) == (true, Option::<T>::None),
{
    assert(evs.push(DropEvent::Drop).drop_last() =~= evs);
    if evs.len() > 0 {
        match evs.last() {
            DropEvent::Poll(task) => {
                law_notice_ready_after_drop_stays(s, evs.drop_last(), task);
            },
            DropEvent::Drop => {},
        }
    }
}

/// A poll after the notifier was dropped leaves the state as it was.
proof fn law_notice_ready_after_drop_stays<T>(s: (bool, Option<T>), init: Seq<DropEvent<T>>, task: T)
    ensures
        drop_run(s, init).0 ==> drop_step(drop_run(s, init), DropEvent::Poll(task)) == drop_run(
            s,
            init,
        ),
{
}

impl<T> DropState<T> {
    /// The state as (dropped, waiting task).
    pub closed spec fn model(&self) -> (bool, Option<T>) {
        (self.dropped, self.waiting)
    }
}

} // verus!
