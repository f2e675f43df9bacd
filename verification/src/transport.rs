//! The order of work when the commands of a move are sent to the console.
//!
//! The sending itself is done by the caller. This module decides what has to happen next:
//! open the connection, send the next command, pause, or stop. After each step the caller
//! reports whether it succeeded.
use vstd::prelude::*;

verus! {

/// Milliseconds to wait after each command, so that the console keeps up.
pub const PAUSE_MILLIS: u64 = 10;

/// Where the sending of a list of commands stands.
#[derive(Clone, Copy, Debug, PartialEq, Eq, Structural)]
pub enum Phase {
    /// The connection has yet to be opened.
    Opening,
    /// The next command has yet to be sent.
    Sending,
    /// A command has just been sent, and the pause after it is due.
    Pausing,
    /// Every command has been sent.
    Finished,
    /// The connection could not be opened.
    Refused,
    /// A command could not be sent.
    Aborted,
}

/// What the caller has to do next.
#[derive(Clone, Copy, Debug, PartialEq, Eq, Structural)]
pub enum Action {
    /// Open the connection to the console.
    Open,
    /// Send the command at this position of the list.
    Send(usize),
    /// Wait for this many milliseconds.
    Pause(u64),
    /// Stop: all commands were sent.
    Succeed,
    /// Stop: the connection could not be opened, and no command was sent.
    FailToOpen,
    /// Stop: the command at this position could not be sent. Those before it were sent and
    /// stay in effect; those after it were not tried.
    FailAt(usize),
}

/// The progress of sending `total` commands in order, of which the first `sent` have been
/// sent.
#[derive(Clone, Copy, Debug, PartialEq, Eq, Structural)]
pub struct Dispatch {
    pub phase: Phase,
    pub sent: usize,
    pub total: usize,
}

impl Dispatch {
    /// Whether the count of sent commands fits the phase: no more are sent than there are,
    /// one is left while sending, one is sent while pausing, and all are at the end.
    pub open spec fn wf(self) -> bool {
        &&& self.sent <= self.total
        &&& self.phase == Phase::Opening ==> self.sent == 0
        &&& self.phase == Phase::Refused ==> self.sent == 0
        &&& self.phase == Phase::Sending ==> self.sent < self.total
        &&& self.phase == Phase::Aborted ==> self.sent < self.total
        &&& self.phase == Phase::Pausing ==> self.sent > 0
        &&& self.phase == Phase::Finished ==> self.sent == self.total
    }

    /// Whether nothing is left to do.
    pub open spec fn is_final(self) -> bool {
        self.phase == Phase::Finished || self.phase == Phase::Refused || self.phase
            == Phase::Aborted
    }

    /// The state before anything has happened.
    pub open spec fn start_spec(total: usize) -> Dispatch {
        Dispatch { phase: Phase::Opening, sent: 0, total }
    }

    /// What has to be done in this state.
    pub open spec fn action_spec(self) -> Action {
        match self.phase {
            Phase::Opening => Action::Open,
            Phase::Sending => Action::Send(self.sent),
            Phase::Pausing => Action::Pause(PAUSE_MILLIS),
            Phase::Finished => Action::Succeed,
            Phase::Refused => Action::FailToOpen,
            Phase::Aborted => Action::FailAt(self.sent),
        }
    }

    /// The state after the action of this state has succeeded or failed.
    ///
    /// A failure to open or to send ends everything at once. A pause cannot fail. At the
    /// end nothing changes any more.
    pub open spec fn advance_spec(self, succeeded: bool) -> Dispatch {
        match self.phase {
            Phase::Opening => if !succeeded {
                Dispatch { phase: Phase::Refused, ..self }
            } else if self.total == 0 {
                Dispatch { phase: Phase::Finished, ..self }
            } else {
                Dispatch { phase: Phase::Sending, ..self }
            },
            Phase::Sending => if succeeded {
                Dispatch { phase: Phase::Pausing, sent: (self.sent + 1) as usize, ..self }
            } else {
                Dispatch { phase: Phase::Aborted, ..self }
            },
            Phase::Pausing => if self.sent >= self.total {
                Dispatch { phase: Phase::Finished, ..self }
            } else {
                Dispatch { phase: Phase::Sending, ..self }
            },
            _ => self,
        }
    }

    /// The state after a series of actions with the given results.
    pub open spec fn run(self, results: Seq<bool>) -> Dispatch
        decreases results.len(),
    {
        if results.len() == 0 {
            self
        } else {
            self.run(results.drop_last()).advance_spec(results.last())
        }
    }

    /// The results of a run in which the connection opens, `count` commands are sent and
    /// followed by their pauses, and the next command cannot be sent.
    pub open spec fn failing_run(count: nat) -> Seq<bool> {
        Seq::new(2 * count + 2, |i: int| i != 2 * count + 1)
    }

    /// Starts the sending of `total` commands.
    pub fn start(total: usize) -> (state: Dispatch)
        ensures
            state == Dispatch::start_spec(total),
            state.wf(),
    {
        Dispatch { phase: Phase::Opening, sent: 0, total }
    }

    /// What the caller has to do now.
    pub fn action(&self) -> (action: Action)
        ensures
            action == self.action_spec(),
    {
        match self.phase {
            Phase::Opening => Action::Open,
            Phase::Sending => Action::Send(self.sent),
            Phase::Pausing => Action::Pause(PAUSE_MILLIS),
            Phase::Finished => Action::Succeed,
            Phase::Refused => Action::FailToOpen,
            Phase::Aborted => Action::FailAt(self.sent),
        }
    }

    /// The state after the caller has done what `action` asked, with the given result.
    pub fn advance(self, succeeded: bool) -> (next: Dispatch)
        requires
            self.wf(),
        ensures
            next == self.advance_spec(succeeded),
            next.wf(),
            next.total == self.total,
            self.sent <= next.sent <= self.sent + 1,
    {
        match self.phase {
            Phase::Opening => {
                if !succeeded {
                    Dispatch { phase: Phase::Refused, sent: self.sent, total: self.total }
                } else if self.total == 0 {
                    Dispatch { phase: Phase::Finished, sent: self.sent, total: self.total }
                } else {
                    Dispatch { phase: Phase::Sending, sent: self.sent, total: self.total }
                }
            },
            Phase::Sending => {
                if succeeded {
                    Dispatch { phase: Phase::Pausing, sent: self.sent + 1, total: self.total }
                } else {
                    Dispatch { phase: Phase::Aborted, sent: self.sent, total: self.total }
                }
            },
            Phase::Pausing => {
                if self.sent >= self.total {
                    Dispatch { phase: Phase::Finished, sent: self.sent, total: self.total }
                } else {
                    Dispatch { phase: Phase::Sending, sent: self.sent, total: self.total }
                }
            },
            _ => self,
        }
    }

    /// Whether nothing is left to do.
    pub fn is_done(&self) -> (done: bool)
        ensures
            done == self.is_final(),
    {
        match self.phase {
            Phase::Finished => true,
            Phase::Refused => true,
            Phase::Aborted => true,
            _ => false,
        }
    }
}

/// Once the sending has ended, no further result changes anything.
pub proof fn lemma_end_is_final(state: Dispatch, results: Seq<bool>)
    requires
        state.is_final(),
    ensures
        state.run(results) == state,
    decreases results.len(),
{
    if results.len() > 0 {
        lemma_end_is_final(state, results.drop_last());
    }
}

/// While every step succeeds, the commands are sent one by one in their order: after the
/// connection is open and `count` commands have been sent and paused for, the next thing to
/// do is to send the command at position `count`, or to stop with success if none is left.
pub proof fn lemma_sends_in_order(total: usize, count: nat)
    requires
        count <= total,
    ensures
        Dispatch::start_spec(total).run(Seq::new(2 * count + 1, |i: int| true)) == (Dispatch {
            phase: if count == total {
                Phase::Finished
            } else {
                Phase::Sending
            },
            sent: count as usize,
            total,
        }),
    decreases count,
{
    let results = Seq::new(2 * count + 1, |i: int| true);
    let start = Dispatch::start_spec(total);
    if count == 0 {
        assert(start.run(results.drop_last()) == start);
    } else {
        let earlier = Seq::new((2 * (count - 1) + 1) as nat, |i: int| true);
        lemma_sends_in_order(total, (count - 1) as nat);
        assert(results.drop_last().drop_last() =~= earlier);
    }
}

/// If the command at position `failed` cannot be sent, everything stops there: the
/// commands before it have been sent, none after it is tried, and the caller is told the
/// position of the command that failed.
pub proof fn lemma_abort_at_first_failure(total: usize, failed: nat)
    requires
        failed < total,
    ensures
        Dispatch::start_spec(total).run(Dispatch::failing_run(failed)) == (Dispatch {
            phase: Phase::Aborted,
            sent: failed as usize,
            total,
        }),
        Dispatch::start_spec(total).run(Dispatch::failing_run(failed)).action_spec()
            == Action::FailAt(failed as usize),
{
    let results = Dispatch::failing_run(failed);
    lemma_sends_in_order(total, failed);
    assert(results.drop_last() =~= Seq::new(2 * failed + 1, |i: int| true));
}

/// If every command can be sent, the sending ends with success after the last one.
pub proof fn lemma_success_after_all(total: usize)
    ensures
        Dispatch::start_spec(total).run(Seq::new(2 * (total as nat) + 1, |i: int| true)) == (
        Dispatch { phase: Phase::Finished, sent: total, total }),
{
    lemma_sends_in_order(total, total as nat);
}

} // verus!
