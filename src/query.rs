use vstd::prelude::*;

verus! {

/// Where a one-shot reply channel stands.
pub enum ReplyState<T> {
    /// The asker waits and no answer has come.
    Pending,
    /// The one answer arrived while the asker waited.
    Answered(T),
    /// The asker stopped waiting before any answer came.
    TimedOut,
    /// The query never left the asker; the channel was put away without a cancellation signal.
    Disposed,
}

/// What the asker does right after trying to enqueue its query.
#[derive(Clone, Copy, Debug, PartialEq, Eq, Structural)]
pub enum QueryStep {
    /// Wait, for at most the query timeout, on the reply.
    Wait,
    /// Go on at once with no data.
    GiveUp,
}

/// The number of milliseconds an asker waits for a reply.
pub const QUERY_TIMEOUT_MS: u64 = 750;

/// The state after an answer `value` is offered: only a pending channel takes it.
pub open spec fn replied<T>(s: ReplyState<T>, value: T) -> ReplyState<T> {
    match s {
        ReplyState::Pending => ReplyState::Answered(value),
        _ => s,
    }
}

/// The state after the asker's wait runs out: an unanswered channel is abandoned.
pub open spec fn timed_out<T>(s: ReplyState<T>) -> ReplyState<T> {
    match s {
        ReplyState::Pending => ReplyState::TimedOut,
        _ => s,
    }
}

/// What the asker takes away from a channel in state `s`.
pub open spec fn answer_of<T>(s: ReplyState<T>) -> Option<T> {
    match s {
        ReplyState::Answered(v) => Some(v),
        _ => None,
    }
}

/// The state machine of a single-use reply channel: the asker installs it, tries to enqueue
/// its query, and then waits or gives up; an answer is offered through `reply`.
pub struct Continuation<T> {
    pub state: ReplyState<T>,
}

impl<T> Continuation<T> {
    /// A fresh channel, waiting for its answer.
    pub fn new() -> (r: Continuation<T>)
        ensures
            r.state == ReplyState::<T>::Pending,
    {
        Continuation { state: ReplyState::Pending }
    }

    /// Offers the answer. It is taken only while the asker waits and nothing was answered
    /// yet; otherwise it is absorbed and nothing changes. Never an error.
    pub fn reply(&mut self, value: T) -> (delivered: bool)
        ensures
            final(self).state == replied(old(self).state, value),
            delivered == (old(self).state is Pending),
    {
        match self.state {
            ReplyState::Pending => {
                self.state = ReplyState::Answered(value);
                true
            },
            _ => false,
        }
    }

    /// The asker's wait ran out.
    pub fn time_out(&mut self)
        ensures
            final(self).state == timed_out(old(self).state),
    {
        if let ReplyState::Pending = self.state {
            self.state = ReplyState::TimedOut;
        }
    }

    /// Puts away a channel whose query could not be enqueued, without signalling
    /// cancellation to a waiter that was never installed.
    pub fn dispose_unsent(&mut self)
        ensures
            final(self).state == ReplyState::<T>::Disposed,
    {
        self.state = ReplyState::Disposed;
    }

    /// The answer, if one arrived in time.
    pub fn into_answer(self) -> (r: Option<T>)
        ensures
            r == answer_of(self.state),
    {
        match self.state {
            ReplyState::Answered(v) => Some(v),
            _ => None,
        }
    }

    /// The asker's step after trying to enqueue the query: wait if it was enqueued;
    /// otherwise dispose of the channel quietly and go on at once with no data.
    pub fn after_enqueue(&mut self, enqueued: bool) -> (step: QueryStep)
        requires
            old(self).state is Pending,
        ensures
            enqueued ==> step == QueryStep::Wait && final(self).state == old(self).state,
            !enqueued ==> step == QueryStep::GiveUp && final(self).state
                == ReplyState::<T>::Disposed && answer_of(final(self).state) == None::<T>,
    {
        if enqueued {
            QueryStep::Wait
        } else {
            self.dispose_unsent();
            QueryStep::GiveUp
        }
    }
}

/// An answer offered after the asker's wait ran out changes nothing the asker sees, and
/// the asker then has no data.
pub proof fn lemma_late_reply_is_harmless<T>(s: ReplyState<T>, value: T)
    requires
        s is Pending,
    ensures
        replied(timed_out(s), value) == timed_out(s),
        answer_of(replied(timed_out(s), value)) == None::<T>,
{
}

/// A channel takes exactly one answer: a second offer leaves the first in place.
pub proof fn lemma_single_answer<T>(s: ReplyState<T>, first: T, second: T)
    requires
        s is Pending,
    ensures
        replied(replied(s, first), second) == ReplyState::Answered(first),
        answer_of(replied(replied(s, first), second)) == Some(first),
{
}

} // verus!
