use vstd::prelude::*;

verus! {

/// Bytes read per chunk from a piped child stream.
pub const PIPE_CHUNK_SIZE: usize = 8192;

/// Bytes read per chunk from a pseudo-terminal master.
pub const TTY_CHUNK_SIZE: usize = 1024;

/// What one read on a child stream gave.
pub enum ReadOutcome {
    /// The read succeeded with this many bytes; zero means end of stream.
    Data(usize),
    /// A non-blocking read found nothing ready.
    WouldBlock,
    /// Any other read error.
    Failed,
}

/// What a relay task does after a read.
#[derive(PartialEq, Eq, Structural, Clone, Copy, Debug)]
pub enum RelayAction {
    /// Append the first `len` bytes of the buffer to the log and flush it, then,
    /// when `forward` holds, echo them to the parent stream and flush that.
    Record { len: usize, forward: bool },
    /// Wait for the stream to become ready again and read once more.
    Wait,
    /// End the task.
    Finish,
}

/// The action that follows a read outcome.
pub open spec fn action_for(outcome: ReadOutcome, forward_output: bool) -> RelayAction {
    match outcome {
        ReadOutcome::Data(n) => if n == 0 {
            RelayAction::Finish
        } else {
            RelayAction::Record { len: n, forward: forward_output }
        },
        ReadOutcome::WouldBlock => RelayAction::Wait,
        ReadOutcome::Failed => RelayAction::Finish,
    }
}

/// The state of one relay task copying a child stream to the log and,
/// optionally, to the parent's matching stream.
pub struct StreamRelay {
    pub forward_output: bool,
    pub finished: bool,
    /// Every byte appended to the log so far, in read order.
    pub logged: Ghost<Seq<u8>>,
    /// Every byte echoed to the parent stream so far, in read order.
    pub forwarded: Ghost<Seq<u8>>,
}

impl StreamRelay {
    /// Forwarded bytes are exactly the logged ones when forwarding is on,
    /// and none at all when it is off.
    pub open spec fn wf(&self) -> bool {
        if self.forward_output {
            self.forwarded@ == self.logged@
        } else {
            self.forwarded@.len() == 0
        }
    }

    pub fn new(forward_output: bool) -> (r: StreamRelay)
        ensures
            r.wf(),
            r.forward_output == forward_output,
            !r.finished,
            r.logged@.len() == 0,
            r.forwarded@.len() == 0,
    {
        StreamRelay {
            forward_output,
            finished: false,
            logged: Ghost(Seq::empty()),
            forwarded: Ghost(Seq::empty()),
        }
    }

    /// Decides what follows a read into `buf`, and accounts for the bytes
    /// that the action sends to the log and the parent stream.
    pub fn on_read(&mut self, outcome: ReadOutcome, buf: &[u8]) -> (a: RelayAction)
        requires
            old(self).wf(),
            !old(self).finished,
            outcome matches ReadOutcome::Data(n) ==> n <= buf@.len(),
        ensures
            final(self).wf(),
            a == action_for(outcome, old(self).forward_output),
            final(self).forward_output == old(self).forward_output,
            final(self).finished == (a == RelayAction::Finish),
            match a {
                RelayAction::Record { len, forward } => {
                    &&& final(self).logged@ == old(self).logged@ + buf@.subrange(0, len as int)
                    &&& final(self).forwarded@ == if forward {
                        old(self).forwarded@ + buf@.subrange(0, len as int)
                    } else {
                        old(self).forwarded@
                    }
                },
                _ => {
                    &&& final(self).logged@ == old(self).logged@
                    &&& final(self).forwarded@ == old(self).forwarded@
                },
            },
    {
        match outcome {
            ReadOutcome::Data(n) => {
                if n == 0 {
                    self.finished = true;
                    RelayAction::Finish
                } else {
                    let ghost chunk = buf@.subrange(0, n as int);
                    self.logged = Ghost(self.logged@ + chunk);
                    if self.forward_output {
                        self.forwarded = Ghost(self.forwarded@ + chunk);
                    }
                    RelayAction::Record { len: n, forward: self.forward_output }
                }
            },
            ReadOutcome::WouldBlock => RelayAction::Wait,
            ReadOutcome::Failed => {
                self.finished = true;
                RelayAction::Finish
            },
        }
    }
}

/// With forwarding off, no byte ever reaches the parent stream, however much
/// the child writes.
pub proof fn lemma_silent_without_forwarding(r: StreamRelay)
    requires
        r.wf(),
        !r.forward_output,
    ensures
        r.forwarded@ == Seq::<u8>::empty(),
{
    assert(r.forwarded@ =~= Seq::<u8>::empty());
}

/// With forwarding on, the parent stream receives exactly the bytes that the
/// log receives, in the same order.
pub proof fn lemma_forwarded_equals_logged(r: StreamRelay)
    requires
        r.wf(),
        r.forward_output,
    ensures
        r.forwarded@ == r.logged@,
{
}

} // verus!
