//! The lifecycle of one change-notification feed.  Every watcher's
//! stream is wrapped so that a failed connection step degrades the
//! feed to an explicit, permanently silent state instead of ending or
//! erroring it: the consumer cannot tell a dead feed from one that is
//! merely idle, and never observes a completion.

use vstd::prelude::*;

verus! {

/// The phase a feed is in.  There is no terminal "completed" phase:
/// a feed either delivers events or stays silent, forever.
#[derive(Debug, Clone, Copy, PartialEq, Eq, Structural)]
pub enum FeedPhase {
    /// The connection to the backing service is still being
    /// established.
    Connecting,
    /// The subscription is live; notifications become events.
    Subscribed,
    /// The connection step failed; the feed never yields again, and
    /// never ends.  Only a process restart recovers.
    PermanentlySilent,
}

/// What the outside world hands the feed: the outcome of its one
/// connection step, or the arrival of a change notification.
#[derive(Debug, Clone, Copy, PartialEq, Eq, Structural)]
pub enum FeedInput {
    ConnectOk,
    ConnectFailed,
    Notification,
}

/// The feed's transition function: the only way out of `Connecting` is
/// the connection outcome, and both `Subscribed` and
/// `PermanentlySilent` are absorbing.
pub open spec fn next_phase(p: FeedPhase, input: FeedInput) -> FeedPhase {
    match p {
        FeedPhase::Connecting => match input {
            FeedInput::ConnectOk => FeedPhase::Subscribed,
            FeedInput::ConnectFailed => FeedPhase::PermanentlySilent,
            FeedInput::Notification => FeedPhase::Connecting,
        },
        FeedPhase::Subscribed => FeedPhase::Subscribed,
        FeedPhase::PermanentlySilent => FeedPhase::PermanentlySilent,
    }
}

/// Whether a step emits a domain event: only a notification arriving
/// on a live subscription does.
pub open spec fn emits(p: FeedPhase, input: FeedInput) -> bool {
    p == FeedPhase::Subscribed && input == FeedInput::Notification
}

/// The phase reached after feeding a whole input sequence.
pub open spec fn run_phases(p: FeedPhase, inputs: Seq<FeedInput>) -> FeedPhase
    decreases inputs.len(),
{
    if inputs.len() == 0 {
        p
    } else {
        run_phases(next_phase(p, inputs[0]), inputs.drop_first())
    }
}

/// How many events a whole input sequence emits.
pub open spec fn emission_count(p: FeedPhase, inputs: Seq<FeedInput>) -> nat
    decreases inputs.len(),
{
    if inputs.len() == 0 {
        0
    } else {
        (if emits(p, inputs[0]) {
            1nat
        } else {
            0nat
        }) + emission_count(next_phase(p, inputs[0]), inputs.drop_first())
    }
}

/// One feed's state.
pub struct Feed {
    pub phase: FeedPhase,
}

impl Feed {
    /// A feed starts out connecting.
    pub fn new() -> (r: Feed)
        ensures
            r.phase == FeedPhase::Connecting,
    {
        Feed { phase: FeedPhase::Connecting }
    }

    /// Advances the feed by one input and reports whether this step
    /// emits a domain event to the consumer.
    pub fn step(&mut self, input: FeedInput) -> (emit: bool)
        ensures
            final(self).phase == next_phase(old(self).phase, input),
            emit == emits(old(self).phase, input),
    {
        let emit = match self.phase {
            FeedPhase::Subscribed => match input {
                FeedInput::Notification => true,
                _ => false,
            },
            _ => false,
        };
        self.phase = match self.phase {
            FeedPhase::Connecting => match input {
                FeedInput::ConnectOk => FeedPhase::Subscribed,
                FeedInput::ConnectFailed => FeedPhase::PermanentlySilent,
                FeedInput::Notification => FeedPhase::Connecting,
            },
            FeedPhase::Subscribed => FeedPhase::Subscribed,
            FeedPhase::PermanentlySilent => FeedPhase::PermanentlySilent,
        };
        emit
    }
}

/// A permanently silent feed is observably indistinguishable from an
/// idle one: whatever arrives, it emits nothing, and it never leaves
/// the silent phase (in particular, it never completes — the phase
/// after any input sequence still accepts further input).
pub proof fn lemma_silent_feed_stays_silent(inputs: Seq<FeedInput>)
    ensures
        run_phases(FeedPhase::PermanentlySilent, inputs) == FeedPhase::PermanentlySilent,
        emission_count(FeedPhase::PermanentlySilent, inputs) == 0,
    decreases inputs.len(),
{
    if inputs.len() > 0 {
        lemma_silent_feed_stays_silent(inputs.drop_first());
    }
}

/// A feed whose connection step fails never emits any event and never
/// signals completion: after the failure it is permanently silent, no
/// matter what else arrives.
pub proof fn lemma_failed_connection_feed_is_silent(inputs: Seq<FeedInput>)
    requires
        inputs.len() > 0,
        inputs[0] == FeedInput::ConnectFailed,
    ensures
        run_phases(FeedPhase::Connecting, inputs) == FeedPhase::PermanentlySilent,
        emission_count(FeedPhase::Connecting, inputs) == 0,
{
    lemma_silent_feed_stays_silent(inputs.drop_first());
}

} // verus!
