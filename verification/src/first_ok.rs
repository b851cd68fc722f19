//! Waiting for the first success among the items of a stream of results.
use vstd::prelude::*;

verus! {

/// What polling a stream of results gave once.
pub enum StreamPoll<T, E> {
    /// The stream produced a success.
    Item(T),
    /// The stream produced an error.
    Error(E),
    /// The stream ended.
    End,
    /// Nothing yet.
    NotReady,
}

/// Where the wait for a first success stands.
pub enum FirstOkPoll<T, E> {
    /// The first success.
    Ready(T),
    /// The stream ended without a success: every error it produced, in order.
    Failed(Vec<E>),
    /// Still waiting.
    NotReady,
}

/// Waits for the first success of a stream, collecting the errors that come before it.
pub struct FirstOk<E> {
    errors: Vec<E>,
}

impl<E> FirstOk<E> {
    /// The errors collected so far, in order.
    pub closed spec fn errors(&self) -> Seq<E> {
        self.errors@
    }

    /// A wait that has seen nothing yet.
    pub fn new() -> (f: Self)
        ensures
            f.errors() == Seq::<E>::empty(),
    {
        FirstOk { errors: Vec::new() }
    }

    /// Takes one poll of the stream into account.
    pub fn poll<T>(&mut self, event: StreamPoll<T, E>) -> (r: FirstOkPoll<T, E>)
        ensures
            match event {
                StreamPoll::Item(v) => r == FirstOkPoll::<T, E>::Ready(v) && final(self).errors()
                    == Seq::<E>::empty(),
                StreamPoll::Error(e) => r is NotReady && final(self).errors() == old(
                    self,
                ).errors().push(e),
                StreamPoll::End => (r matches FirstOkPoll::Failed(errs) && errs@ == old(
                    self,
                ).errors()) && final(self).errors() == Seq::<E>::empty(),
                StreamPoll::NotReady => r is NotReady && final(self).errors() == old(
                    self,
                ).errors(),
            },
    {
        match event {
            StreamPoll::Item(v) => {
                self.errors.clear();
                FirstOkPoll::Ready(v)
            },
            StreamPoll::End => {
                let mut errors = Vec::new();
                std::mem::swap(&mut errors, &mut self.errors);
                FirstOkPoll::Failed(errors)
            },
            StreamPoll::NotReady => FirstOkPoll::NotReady,
            StreamPoll::Error(e) => {
                self.errors.push(e);
                FirstOkPoll::NotReady
            },
        }
    }
}

} // verus!
