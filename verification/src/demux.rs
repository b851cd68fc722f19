//! Where incoming bootstrap requests go: to the one bootstrap acceptor that
//! is installed, if any.
//!
//! There can only be at most one acceptor; each newly installed one replaces
//! any pre-existing one, and dropping an acceptor stops bootstrap accepting
//! only if it is still the installed one.
use vstd::prelude::*;

verus! {

/// The slot that holds the current bootstrap acceptor's sending end, tagged
/// with the token of its installation.
pub struct BootstrapHandlerSlot<T> {
    current: Option<(u64, T)>,
    next_token: u64,
}

impl<T> BootstrapHandlerSlot<T> {
    /// The token of the installed acceptor and its sending end.
    pub closed spec fn spec_current(&self) -> Option<(u64, T)> {
        self.current
    }

    /// The token the next installation gets.
    pub closed spec fn spec_next_token(&self) -> u64 {
        self.next_token
    }

    /// The installed acceptor, if any, is the one installed last.
    pub closed spec fn wf(&self) -> bool {
        self.current matches Some((t, _)) ==> t + 1 == self.next_token
    }

    /// An empty slot: bootstrap connections are not accepted.
    pub fn new() -> (s: Self)
        ensures
            s.wf(),
            s.spec_current() is None,
            s.spec_next_token() == 0,
    {
        BootstrapHandlerSlot { current: None, next_token: 0 }
    }

    /// Installs a new acceptor's sending end, replacing any previous one, and
    /// returns the token that identifies this installation.
    pub fn install(&mut self, sender: T) -> (token: u64)
        requires
            old(self).wf(),
            old(self).spec_next_token() < u64::MAX,
        ensures
            final(self).wf(),
            token == old(self).spec_next_token(),
            final(self).spec_current() == Some((token, sender)),
            final(self).spec_next_token() == token + 1,
    {
        let token = self.next_token;
        self.current = Some((token, sender));
        self.next_token = token + 1;
        token
    }

    /// Whether another acceptor can be installed: tokens are not exhausted.
    pub fn can_install(&self) -> (b: bool)
        ensures
            b == (self.spec_next_token() < u64::MAX),
    {
        self.next_token < u64::MAX
    }

    /// The sending end of the installed acceptor, if any.
    pub fn current(&self) -> (r: Option<&T>)
        ensures
            match self.spec_current() {
                Some((_, s)) => r matches Some(x) && *x == s,
                None => r is None,
            },
    {
        match &self.current {
            Some((_, s)) => Some(s),
            None => None,
        }
    }

    /// An acceptor with the token goes away: the slot empties if that
    /// acceptor is the installed one, and is left alone otherwise.
    pub fn uninstall(&mut self, token: u64)
        requires
            old(self).wf(),
        ensures
            final(self).wf(),
            final(self).spec_next_token() == old(self).spec_next_token(),
            (old(self).spec_current() matches Some((t, _)) && t == token) ==> final(self).spec_current() is None,
            !(old(self).spec_current() matches Some((t, _)) && t == token) ==> final(self).spec_current() == old(self).spec_current(),
    {
        let is_current = match &self.current {
            Some((t, _)) => *t == token,
            None => false,
        };
        if is_current {
            self.current = None;
        }
    }
}

/// Only the acceptor installed last can be the installed one: any acceptor
/// installed before it was replaced, so its going away (see `uninstall`)
/// leaves the slot as it is.
pub proof fn law_only_latest_acceptor_installed<T>(slot: BootstrapHandlerSlot<T>, token: u64)
    requires
        slot.wf(),
        token + 1 < slot.spec_next_token(),
    ensures
        !(slot.spec_current() matches Some((t, _)) && t == token),
{
}

} // verus!
