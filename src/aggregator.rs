use vstd::prelude::*;

verus! {

/// Number of buffered stream names at which a commit is issued at once.
pub const COMMIT_THRESHOLD: usize = 10;

/// Time units without a new name after which a non-empty buffer is committed.
pub const IDLE_TIMEOUT_SECS: u64 = 30;

/// What the aggregator is doing.
#[derive(Clone, Copy, Debug, PartialEq, Eq, Structural)]
pub enum AggregatorPhase {
    /// Waiting for a name, an idle timeout or the closing of the channel.
    Receiving,
    /// A commit of the buffer is in flight; the loop goes on afterwards.
    Committing,
    /// The last commit after the channel closed is in flight.
    FinalCommitting,
    /// The aggregator has stopped.
    Terminated,
}

/// One wakeup of the aggregator loop.
#[derive(Clone, Debug)]
pub enum AggregatorEvent {
    /// A finalized stream name arrived on the handoff channel.
    Received(String),
    /// The idle timeout elapsed with no name arriving.
    IdleTimeout,
    /// Every sender of the handoff channel is gone.
    ChannelClosed,
    /// The commit call issued last returned; `true` when it succeeded.
    CommitFinished(bool),
}

/// What the runtime has to do after a step.
#[derive(Clone, Debug)]
pub enum AggregatorAction {
    /// Wait for the next wakeup.
    Wait,
    /// Issue one batch-commit call for these names, then report its outcome.
    Commit(Vec<String>),
    /// Stop the aggregator.
    Terminate,
}

/// Mathematical form of an [`AggregatorAction`].
pub enum ActionView {
    Wait,
    Commit(Seq<String>),
    Terminate,
}

/// Mathematical form of a [`CommitAggregator`].
pub struct AggregatorState {
    pub buffer: Seq<String>,
    pub phase: AggregatorPhase,
}

impl View for AggregatorAction {
    type V = ActionView;

    open spec fn view(&self) -> ActionView {
        match self {
            AggregatorAction::Wait => ActionView::Wait,
            AggregatorAction::Commit(names) => ActionView::Commit(names@),
            AggregatorAction::Terminate => ActionView::Terminate,
        }
    }
}

/// Folds finalized stream names into batch-commit calls: a commit is issued
/// when the buffer reaches [`COMMIT_THRESHOLD`] names, when the idle timeout
/// elapses with a non-empty buffer, and once more when the channel closes.
/// A failed commit keeps the buffer for the next trigger.
pub struct CommitAggregator {
    pub buffer: Vec<String>,
    pub phase: AggregatorPhase,
}

impl View for CommitAggregator {
    type V = AggregatorState;

    open spec fn view(&self) -> AggregatorState {
        AggregatorState { buffer: self.buffer@, phase: self.phase }
    }
}

/// The aggregator's transition: the next state and the action for the runtime.
/// An event that the current phase does not expect changes nothing.
pub open spec fn next(s: AggregatorState, ev: AggregatorEvent) -> (AggregatorState, ActionView) {
    match (s.phase, ev) {
        (AggregatorPhase::Receiving, AggregatorEvent::Received(name)) => {
            let buffer = s.buffer.push(name);
            if buffer.len() >= COMMIT_THRESHOLD {
                (
                    AggregatorState { buffer, phase: AggregatorPhase::Committing },
                    ActionView::Commit(buffer),
                )
            } else {
                (AggregatorState { buffer, phase: AggregatorPhase::Receiving }, ActionView::Wait)
            }
        },
        (AggregatorPhase::Receiving, AggregatorEvent::IdleTimeout) => {
            if s.buffer.len() > 0 {
                (
                    AggregatorState { buffer: s.buffer, phase: AggregatorPhase::Committing },
                    ActionView::Commit(s.buffer),
                )
            } else {
                (s, ActionView::Wait)
            }
        },
        (AggregatorPhase::Receiving, AggregatorEvent::ChannelClosed) => {
            if s.buffer.len() > 0 {
                (
                    AggregatorState { buffer: s.buffer, phase: AggregatorPhase::FinalCommitting },
                    ActionView::Commit(s.buffer),
                )
            } else {
                (
                    AggregatorState { buffer: s.buffer, phase: AggregatorPhase::Terminated },
                    ActionView::Terminate,
                )
            }
        },
        (AggregatorPhase::Committing, AggregatorEvent::CommitFinished(ok)) => {
            let buffer = if ok {
                Seq::empty()
            } else {
                s.buffer
            };
            (AggregatorState { buffer, phase: AggregatorPhase::Receiving }, ActionView::Wait)
        },
        (AggregatorPhase::FinalCommitting, AggregatorEvent::CommitFinished(_)) => {
            (
                AggregatorState { buffer: s.buffer, phase: AggregatorPhase::Terminated },
                ActionView::Terminate,
            )
        },
        _ => (s, ActionView::Wait),
    }
}

/// Runs the transition over a sequence of events: the final state and the
/// actions in order.
pub open spec fn run(s: AggregatorState, evs: Seq<AggregatorEvent>) -> (AggregatorState, Seq<ActionView>)
    decreases evs.len(),
{
    if evs.len() == 0 {
        (s, Seq::empty())
    } else {
        let (s1, a) = next(s, evs[0]);
        let (s2, rest) = run(s1, evs.skip(1));
        (s2, seq![a] + rest)
    }
}

/// While receiving, a step issues a commit exactly when the new name brings
/// the buffer to the threshold, or when the idle timeout or the closing of the
/// channel finds the buffer non-empty; the commit always covers the whole
/// buffer.
pub proof fn lemma_commit_trigger(s: AggregatorState, ev: AggregatorEvent)
    requires
        s.phase == AggregatorPhase::Receiving,
    ensures
        next(s, ev).1 is Commit <==> (match ev {
            AggregatorEvent::Received(_) => s.buffer.len() + 1 >= COMMIT_THRESHOLD,
            AggregatorEvent::IdleTimeout => s.buffer.len() > 0,
            AggregatorEvent::ChannelClosed => s.buffer.len() > 0,
            AggregatorEvent::CommitFinished(_) => false,
        }),
        next(s, ev).1 is Commit ==> next(s, ev).1 == ActionView::Commit(next(s, ev).0.buffer),
        next(s, ev).1 is Commit ==> next(s, ev).0.buffer == match ev {
            AggregatorEvent::Received(name) => s.buffer.push(name),
            _ => s.buffer,
        },
{
}

/// Once terminated, the aggregator ignores every event and issues nothing.
pub proof fn lemma_terminated_is_silent(s: AggregatorState, evs: Seq<AggregatorEvent>)
    requires
        s.phase == AggregatorPhase::Terminated,
    ensures
        run(s, evs).0 == s,
        run(s, evs).1.len() == evs.len(),
        forall|i: int| 0 <= i < evs.len() ==> run(s, evs).1[i] == ActionView::Wait,
    decreases evs.len(),
{
    if evs.len() > 0 {
        lemma_terminated_is_silent(s, evs.skip(1));
    }
}

/// When the channel closes, the names still buffered are committed in exactly
/// one call, whatever their number, and the aggregator then terminates,
/// whatever that call returned and whatever comes after.
pub proof fn lemma_close_flushes_once(s: AggregatorState, ok: bool, later: Seq<AggregatorEvent>)
    requires
        s.phase == AggregatorPhase::Receiving,
    ensures
        s.buffer.len() > 0 ==> ({
            let evs = seq![AggregatorEvent::ChannelClosed, AggregatorEvent::CommitFinished(ok)] + later;
            let (end, actions) = run(s, evs);
            &&& end.phase == AggregatorPhase::Terminated
            &&& actions[0] == ActionView::Commit(s.buffer)
            &&& actions[1] == ActionView::Terminate
            &&& forall|i: int| 2 <= i < actions.len() ==> actions[i] == ActionView::Wait
        }),
        s.buffer.len() == 0 ==> ({
            let evs = seq![AggregatorEvent::ChannelClosed] + later;
            let (end, actions) = run(s, evs);
            &&& end.phase == AggregatorPhase::Terminated
            &&& actions[0] == ActionView::Terminate
            &&& forall|i: int| 1 <= i < actions.len() ==> actions[i] == ActionView::Wait
        }),
{
    if s.buffer.len() > 0 {
        let evs = seq![AggregatorEvent::ChannelClosed, AggregatorEvent::CommitFinished(ok)] + later;
        let s1 = next(s, AggregatorEvent::ChannelClosed).0;
        let s2 = next(s1, AggregatorEvent::CommitFinished(ok)).0;
        let e1 = evs.skip(1);
        assert(e1 =~= seq![AggregatorEvent::CommitFinished(ok)] + later);
        assert(e1.skip(1) =~= later);
        assert(evs[0] == AggregatorEvent::ChannelClosed);
        assert(e1[0] == AggregatorEvent::CommitFinished(ok));
        lemma_terminated_is_silent(s2, later);
        let rest = run(s2, later).1;
        assert(run(s1, e1).1 == seq![ActionView::Terminate] + rest);
        assert(run(s, evs).1 == seq![ActionView::Commit(s.buffer)] + (seq![ActionView::Terminate] + rest));
        let actions = run(s, evs).1;
        assert forall|i: int| 2 <= i < actions.len() implies actions[i] == ActionView::Wait by {
            assert(actions[i] == rest[i - 2]);
        }
    } else {
        let evs = seq![AggregatorEvent::ChannelClosed] + later;
        let s1 = next(s, AggregatorEvent::ChannelClosed).0;
        assert(evs.skip(1) =~= later);
        assert(evs[0] == AggregatorEvent::ChannelClosed);
        lemma_terminated_is_silent(s1, later);
        let rest = run(s1, later).1;
        let actions = run(s, evs).1;
        assert(actions == seq![ActionView::Terminate] + rest);
        assert forall|i: int| 1 <= i < actions.len() implies actions[i] == ActionView::Wait by {
            assert(actions[i] == rest[i - 1]);
        }
    }
}

/// A failed commit neither drops nor repeats a name: the buffer is exactly as
/// before and the loop receives again, so the next trigger commits the same
/// names (followed by any newly received one). A successful commit empties it.
pub proof fn lemma_failed_commit_keeps_names(s: AggregatorState, name: String)
    requires
        s.phase == AggregatorPhase::Committing,
    ensures
        next(s, AggregatorEvent::CommitFinished(false)).0 == (AggregatorState {
            buffer: s.buffer,
            phase: AggregatorPhase::Receiving,
        }),
        next(s, AggregatorEvent::CommitFinished(true)).0 == (AggregatorState {
            buffer: Seq::empty(),
            phase: AggregatorPhase::Receiving,
        }),
        s.buffer.len() > 0 ==> next(
            next(s, AggregatorEvent::CommitFinished(false)).0,
            AggregatorEvent::IdleTimeout,
        ).1 == ActionView::Commit(s.buffer),
        s.buffer.len() + 1 >= COMMIT_THRESHOLD ==> next(
            next(s, AggregatorEvent::CommitFinished(false)).0,
            AggregatorEvent::Received(name),
        ).1 == ActionView::Commit(s.buffer.push(name)),
{
}

impl CommitAggregator {
    /// A fresh aggregator: empty buffer, waiting for names.
    pub fn new() -> (r: CommitAggregator)
        ensures
            r@.buffer.len() == 0,
            r@.phase == AggregatorPhase::Receiving,
    {
        CommitAggregator { buffer: Vec::new(), phase: AggregatorPhase::Receiving }
    }

    /// The names waiting to be committed.
    pub fn buffered(&self) -> (r: &Vec<String>)
        ensures
            r@ == self@.buffer,
    {
        &self.buffer
    }

    fn commit_buffer(&self) -> (r: AggregatorAction)
        ensures
            r@ == ActionView::Commit(self@.buffer),
    {
        let names = self.buffer.clone();
        assert(names@ =~= self.buffer@);
        AggregatorAction::Commit(names)
    }

    /// Feeds one wakeup to the aggregator and returns what the runtime does next.
    pub fn step(&mut self, ev: AggregatorEvent) -> (r: AggregatorAction)
        ensures
            (final(self)@, r@) == next(old(self)@, ev),
    {
        match (self.phase, ev) {
            (AggregatorPhase::Receiving, AggregatorEvent::Received(name)) => {
                self.buffer.push(name);
                if self.buffer.len() >= COMMIT_THRESHOLD {
                    self.phase = AggregatorPhase::Committing;
                    self.commit_buffer()
                } else {
                    AggregatorAction::Wait
                }
            },
            (AggregatorPhase::Receiving, AggregatorEvent::IdleTimeout) => {
                if self.buffer.len() > 0 {
                    self.phase = AggregatorPhase::Committing;
                    self.commit_buffer()
                } else {
                    AggregatorAction::Wait
                }
            },
            (AggregatorPhase::Receiving, AggregatorEvent::ChannelClosed) => {
                if self.buffer.len() > 0 {
                    self.phase = AggregatorPhase::FinalCommitting;
                    self.commit_buffer()
                } else {
                    self.phase = AggregatorPhase::Terminated;
                    AggregatorAction::Terminate
                }
            },
            (AggregatorPhase::Committing, AggregatorEvent::CommitFinished(ok)) => {
                if ok {
                    self.buffer.clear();
                }
                self.phase = AggregatorPhase::Receiving;
                AggregatorAction::Wait
            },
            (AggregatorPhase::FinalCommitting, AggregatorEvent::CommitFinished(_)) => {
                self.phase = AggregatorPhase::Terminated;
                AggregatorAction::Terminate
            },
            _ => AggregatorAction::Wait,
        }
    }
}

} // verus!
