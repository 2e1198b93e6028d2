//! A philosopher: a name, a seat, and the two fork indices its seat
//! reaches in the ring. It alternates thinking — announcing a new idea
//! on the channel — with eating, for which it must hold both of its
//! forks at once, obtained by the non-blocking two-probe protocol.

use vstd::prelude::*;
use crate::channel::Channel;
use crate::channel::Message;
use crate::channel::is_thought_by;
use crate::protocol::Attempt;
use crate::table::ForkTable;

verus! {

/// One philosopher. The seat doubles as its identity at the fork table;
/// the embedding program uses it only for display indentation, never for
/// the protocol itself.
pub struct Philosopher {
    pub name: String,
    pub seat: usize,
    pub left: usize,
    pub right: usize,
}

impl Philosopher {
    /// The philosopher fits a table of `n` forks: both of its fork
    /// indices are on the table and distinct. The ring layout
    /// guarantees both for every seat.
    pub open spec fn fits(self, n: nat) -> bool {
        &&& self.left < n
        &&& self.right < n
        &&& self.left != self.right
    }

    pub fn new(name: String, seat: usize, left: usize, right: usize) -> (p: Philosopher)
        ensures
            p.name == name,
            p.seat == seat,
            p.left == left,
            p.right == right,
    {
        Philosopher { name, seat, left, right }
    }

    /// The idea this philosopher announces, tagged with its name.
    pub fn thought_message(&self) -> (m: Message)
        ensures
            m == (Message::Thought { name: self.name }),
            is_thought_by(m, self.name@),
    {
        Message::Thought { name: self.name.clone() }
    }

    /// One think step: announce a new idea on the channel. Exactly one
    /// message, tagged with this philosopher's name, is appended; the
    /// forks are never touched while thinking. (The embedding program
    /// adds the think-delay pause and the status line around this.)
    pub fn think(&self, channel: &mut Channel)
        requires
            old(channel).wf(),
            !old(channel).done_sent,
        ensures
            final(channel).wf(),
            !final(channel).done_sent,
            final(channel).log() == old(channel).log().push(
                Message::Thought { name: self.name },
            ),
    {
        let m = self.thought_message();
        channel.send(m);
    }

    /// One eating attempt, exactly as the protocol prescribes: probe the
    /// left fork, probe the right fork, and either eat — verifiably
    /// holding both — and put both back, or put back whatever was taken
    /// and report failure, so the caller backs off and attempts again.
    /// The attempt succeeds exactly when both forks were free, and on
    /// every path the table ends as it began: a philosopher never keeps
    /// a fork between attempts.
    pub fn eat(&self, table: &mut ForkTable) -> (ate: bool)
        requires
            self.fits(old(table).spec_len()),
        ensures
            ate == (old(table).is_free(self.left as int) && old(table).is_free(
                self.right as int,
            )),
            final(table).spec_len() == old(table).spec_len(),
            forall|f: int|
                0 <= f < old(table).spec_len() ==> final(table).holder(f) == old(table).holder(f),
    {
        let attempt = Attempt::start();
        let got_left = table.try_acquire(self.left, self.seat);
        let attempt = attempt.probe_left(got_left);
        // the embedding program pauses here for the probe gap
        let got_right = table.try_acquire(self.right, self.seat);
        let attempt = attempt.probe_right(got_right);
        if attempt.is_acquired() {
            // the use phase: both forks verifiably in hand for its
            // duration, then both go back together
            table.release(self.left, self.seat);
            table.release(self.right, self.seat);
            true
        } else {
            if attempt.holds_left {
                table.release(self.left, self.seat);
            }
            if attempt.holds_right {
                table.release(self.right, self.seat);
            }
            false
        }
    }
}

} // verus!
