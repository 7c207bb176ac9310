use vstd::prelude::*;

verus! {

/// Holds the terminal settings captured before an interactive session made
/// the terminal raw, until they are handed back for restoration.
pub struct TerminalGuard<T> {
    pub snapshot: Option<T>,
}

/// The guard after a capture of `t`.
pub open spec fn captured<T>(g: TerminalGuard<T>, t: T) -> TerminalGuard<T> {
    TerminalGuard { snapshot: Some(t) }
}

/// What a release hands back, and the guard after it.
pub open spec fn released<T>(g: TerminalGuard<T>) -> (Option<T>, TerminalGuard<T>) {
    (g.snapshot, TerminalGuard { snapshot: None })
}

impl<T> TerminalGuard<T> {
    pub fn new() -> (r: TerminalGuard<T>)
        ensures
            r.snapshot is None,
    {
        TerminalGuard { snapshot: None }
    }

    pub fn is_captured(&self) -> (r: bool)
        ensures
            r == self.snapshot is Some,
    {
        self.snapshot.is_some()
    }

    /// Keeps the settings of the terminal as they were before a session;
    /// a session captures them once.
    pub fn capture(&mut self, t: T)
        requires
            old(self).snapshot is None,
        ensures
            *final(self) == captured(*old(self), t),
    {
        self.snapshot = Some(t);
    }

    /// Hands back the kept settings, if any, to be restored; afterwards
    /// nothing is kept, so a second release hands back nothing.
    pub fn release(&mut self) -> (r: Option<T>)
        ensures
            (r, *final(self)) == released(*old(self)),
    {
        self.snapshot.take()
    }
}

/// After a capture of `t`, the first release hands back `t` and every later
/// release hands back nothing: restoration happens once, whether it comes
/// from an explicit stop, from teardown, or from both.
pub proof fn lemma_restore_once<T>(g: TerminalGuard<T>, t: T)
    ensures
        released(captured(g, t)).0 == Some(t),
        released(released(captured(g, t)).1).0 is None,
        released(released(released(captured(g, t)).1).1).0 is None,
{
}

/// Without a capture nothing is ever handed back for restoration.
pub proof fn lemma_no_capture_no_restore<T>(g: TerminalGuard<T>)
    requires
        g.snapshot is None,
    ensures
        released(g).0 is None,
        released(g).1.snapshot is None,
{
}

} // verus!
