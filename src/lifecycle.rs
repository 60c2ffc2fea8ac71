use vstd::prelude::*;
use crate::request::CallError;

verus! {

/// Where one batch stands in the staged write protocol.
#[derive(Clone, Copy, Debug, PartialEq, Eq, Structural)]
pub enum LifecyclePhase {
    /// The create call is in flight.
    Creating,
    /// The stream exists; the batch's append requests are being built.
    Building,
    /// Append calls are issued one after the other.
    Appending,
    /// The finalize call is in flight.
    Finalizing,
    /// The stream name is being handed to the commit aggregator.
    Enqueuing,
    /// The stream was handed over (or the handoff failed); nothing is left to do.
    Finished,
    /// The create call failed; the batch is dropped.
    Abandoned,
}

/// The outcome of the work that the previous action asked for.
#[derive(Debug)]
pub enum LifecycleEvent {
    Created(Result<String, CallError>),
    /// Number of append requests that were built without error.
    Built(usize),
    Appended(Result<(), CallError>),
    Finalized(Result<u64, CallError>),
    /// Whether the stream name reached the aggregator's channel.
    Enqueued(bool),
}

/// The work the runtime performs next for this batch.
#[derive(Clone, Debug, PartialEq, Eq)]
pub enum LifecycleAction {
    /// Issue the create call for a pending stream.
    Create,
    /// Build the batch's append requests against this stream.
    Build(String),
    /// Issue the append request with this index against this stream.
    Append(String, usize),
    /// Issue the finalize call for this stream.
    Finalize(String),
    /// Send this stream name to the commit aggregator.
    Enqueue(String),
    /// The lifecycle is over; drop this stream from the active-streams record.
    Release(String),
    /// The lifecycle is over without a stream.
    Stop,
    /// The event did not fit the current phase and was ignored.
    Ignored,
}

/// A failure that the lifecycle reports without stopping.
#[derive(Clone, Copy, Debug, PartialEq, Eq, Structural)]
pub enum Failure {
    Call(CallError),
    /// The aggregator's channel refused the stream name.
    Channel,
}

/// The result of one step: the next action, and a failure to report, if any.
#[derive(Clone, Debug, PartialEq, Eq)]
pub struct LifecycleStep {
    pub action: LifecycleAction,
    pub report: Option<Failure>,
}

/// The state machine that carries one batch through create, append, finalize
/// and the handoff to the commit aggregator. Append and finalize failures are
/// reported but do not stop the stream from being handed over; a create
/// failure abandons the batch.
#[derive(Clone, Debug, PartialEq, Eq)]
pub struct StreamLifecycle {
    pub phase: LifecyclePhase,
    /// The server-assigned stream name; empty until the create call succeeded.
    pub stream: String,
    /// Number of append requests built for the batch.
    pub total: usize,
    /// Number of append calls answered so far.
    pub answered: usize,
}

impl StreamLifecycle {
    pub open spec fn wf(self) -> bool {
        self.phase == LifecyclePhase::Appending ==> self.answered < self.total
    }
}

pub open spec fn step_of(action: LifecycleAction, report: Option<Failure>) -> LifecycleStep {
    LifecycleStep { action, report }
}

pub open spec fn report_of<T>(r: Result<T, CallError>) -> Option<Failure> {
    match r {
        Ok(_) => None,
        Err(e) => Some(Failure::Call(e)),
    }
}

/// The lifecycle's transition. An event that the current phase does not
/// expect changes nothing.
pub open spec fn next(s: StreamLifecycle, ev: LifecycleEvent) -> (StreamLifecycle, LifecycleStep) {
    match (s.phase, ev) {
        (LifecyclePhase::Creating, LifecycleEvent::Created(Ok(name))) => (
            StreamLifecycle { phase: LifecyclePhase::Building, stream: name, ..s },
            step_of(LifecycleAction::Build(name), None),
        ),
        (LifecyclePhase::Creating, LifecycleEvent::Created(Err(e))) => (
            StreamLifecycle { phase: LifecyclePhase::Abandoned, ..s },
            step_of(LifecycleAction::Stop, Some(Failure::Call(e))),
        ),
        (LifecyclePhase::Building, LifecycleEvent::Built(n)) => if n == 0 {
            (
                StreamLifecycle { phase: LifecyclePhase::Finalizing, total: 0, answered: 0, ..s },
                step_of(LifecycleAction::Finalize(s.stream), None),
            )
        } else {
            (
                StreamLifecycle { phase: LifecyclePhase::Appending, total: n, answered: 0, ..s },
                step_of(LifecycleAction::Append(s.stream, 0), None),
            )
        },
        (LifecyclePhase::Appending, LifecycleEvent::Appended(r)) => {
            let answered = (s.answered + 1) as usize;
            if answered >= s.total {
                (
                    StreamLifecycle { phase: LifecyclePhase::Finalizing, answered, ..s },
                    step_of(LifecycleAction::Finalize(s.stream), report_of(r)),
                )
            } else {
                (
                    StreamLifecycle { answered, ..s },
                    step_of(LifecycleAction::Append(s.stream, answered), report_of(r)),
                )
            }
        },
        (LifecyclePhase::Finalizing, LifecycleEvent::Finalized(r)) => (
            StreamLifecycle { phase: LifecyclePhase::Enqueuing, ..s },
            step_of(LifecycleAction::Enqueue(s.stream), report_of(r)),
        ),
        (LifecyclePhase::Enqueuing, LifecycleEvent::Enqueued(sent)) => (
            StreamLifecycle { phase: LifecyclePhase::Finished, ..s },
            step_of(
                LifecycleAction::Release(s.stream),
                if sent {
                    None
                } else {
                    Some(Failure::Channel)
                },
            ),
        ),
        _ => (s, step_of(LifecycleAction::Ignored, None)),
    }
}

/// Runs the transition over a sequence of events: the final state and the
/// steps in order.
pub open spec fn run(s: StreamLifecycle, evs: Seq<LifecycleEvent>) -> (StreamLifecycle, Seq<LifecycleStep>)
    decreases evs.len(),
{
    if evs.len() == 0 {
        (s, Seq::empty())
    } else {
        let (s1, st) = next(s, evs[0]);
        let (s2, rest) = run(s1, evs.skip(1));
        (s2, seq![st] + rest)
    }
}

/// Whether an action issues protocol work for the batch or hands it over.
pub open spec fn is_work(a: LifecycleAction) -> bool {
    a is Create || a is Build || a is Append || a is Finalize || a is Enqueue
}

proof fn lemma_run_concat(s: StreamLifecycle, a: Seq<LifecycleEvent>, b: Seq<LifecycleEvent>)
    ensures
        run(s, a + b).0 == run(run(s, a).0, b).0,
        run(s, a + b).1 == run(s, a).1 + run(run(s, a).0, b).1,
    decreases a.len(),
{
    if a.len() == 0 {
        assert(a + b =~= b);
        assert(run(s, a).1 + run(s, b).1 =~= run(s, b).1);
    } else {
        assert((a + b).skip(1) =~= a.skip(1) + b);
        assert((a + b)[0] == a[0]);
        let s1 = next(s, a[0]).0;
        lemma_run_concat(s1, a.skip(1), b);
        let st = next(s, a[0]).1;
        assert(seq![st] + (run(s1, a.skip(1)).1 + run(run(s1, a.skip(1)).0, b).1) =~= (seq![st]
            + run(s1, a.skip(1)).1) + run(run(s1, a.skip(1)).0, b).1);
    }
}

proof fn lemma_run_len(s: StreamLifecycle, evs: Seq<LifecycleEvent>)
    ensures
        run(s, evs).1.len() == evs.len(),
    decreases evs.len(),
{
    if evs.len() > 0 {
        lemma_run_len(next(s, evs[0]).0, evs.skip(1));
    }
}

/// A finished or abandoned lifecycle ignores every event.
proof fn lemma_over_is_silent(s: StreamLifecycle, evs: Seq<LifecycleEvent>)
    requires
        s.phase == LifecyclePhase::Finished || s.phase == LifecyclePhase::Abandoned,
    ensures
        run(s, evs).0 == s,
        run(s, evs).1.len() == evs.len(),
        forall|i: int| 0 <= i < evs.len() ==> run(s, evs).1[i] == step_of(LifecycleAction::Ignored, None),
    decreases evs.len(),
{
    if evs.len() > 0 {
        lemma_over_is_silent(s, evs.skip(1));
    }
}

/// Once the name is being handed over, no further protocol work is issued.
proof fn lemma_handed_over_is_quiet(s: StreamLifecycle, evs: Seq<LifecycleEvent>)
    requires
        s.phase == LifecyclePhase::Enqueuing,
    ensures
        run(s, evs).1.len() == evs.len(),
        forall|i: int| 0 <= i < evs.len() ==> !is_work(#[trigger] run(s, evs).1[i].action),
    decreases evs.len(),
{
    if evs.len() > 0 {
        let s1 = next(s, evs[0]).0;
        if s1.phase == LifecyclePhase::Enqueuing {
            lemma_handed_over_is_quiet(s1, evs.skip(1));
        } else {
            lemma_over_is_silent(s1, evs.skip(1));
        }
        let steps = run(s, evs).1;
        assert forall|i: int| 0 <= i < evs.len() implies !is_work(#[trigger] steps[i].action) by {
            if i > 0 {
                assert(steps[i] == run(s1, evs.skip(1)).1[i - 1]);
            }
        }
    }
}

/// While appending, one answer per remaining request leads to the finalize
/// call for the same stream, and to no handoff before it.
proof fn lemma_appends_reach_finalize(s: StreamLifecycle, evs: Seq<LifecycleEvent>)
    requires
        s.phase == LifecyclePhase::Appending,
        s.answered < s.total,
        evs.len() == s.total - s.answered,
        forall|i: int| 0 <= i < evs.len() ==> #[trigger] evs[i] is Appended,
    ensures
        run(s, evs).0.phase == LifecyclePhase::Finalizing,
        run(s, evs).0.stream == s.stream,
        run(s, evs).1.len() == evs.len(),
        forall|i: int| 0 <= i < evs.len() ==> !(#[trigger] run(s, evs).1[i].action is Enqueue),
    decreases evs.len(),
{
    let s1 = next(s, evs[0]).0;
    assert(evs[0] is Appended);
    assert(run(s, evs).0 == run(s1, evs.skip(1)).0);
    assert(s1.stream == s.stream);
    if evs.len() == 1 {
        assert(evs.skip(1).len() == 0);
        assert(run(s1, evs.skip(1)).0 == s1);
        assert(s1.phase == LifecyclePhase::Finalizing);
    } else {
        assert(s1.phase == LifecyclePhase::Appending);
        assert(s1.answered == s.answered + 1);
        assert forall|i: int| 0 <= i < evs.skip(1).len() implies #[trigger] evs.skip(1)[i] is Appended by {
            assert(evs.skip(1)[i] == evs[i + 1]);
        }
        lemma_appends_reach_finalize(s1, evs.skip(1));
        let steps = run(s, evs).1;
        assert forall|i: int| 0 <= i < evs.len() implies !(#[trigger] steps[i].action is Enqueue) by {
            if i > 0 {
                assert(steps[i] == run(s1, evs.skip(1)).1[i - 1]);
            }
        }
    }
}

/// The events of a batch whose create call returned `name`, whose `appends`
/// answers came back, and whose finalize call returned `fin`.
pub open spec fn completed_batch(
    name: String,
    appends: Seq<Result<(), CallError>>,
    fin: Result<u64, CallError>,
) -> Seq<LifecycleEvent> {
    seq![LifecycleEvent::Created(Ok(name)), LifecycleEvent::Built(appends.len() as usize)]
        + appends.map_values(|r: Result<(), CallError>| LifecycleEvent::Appended(r))
        + seq![LifecycleEvent::Finalized(fin)]
}

/// A batch that went through create, append and finalize is handed to the
/// aggregator exactly once, under the name that the create call returned,
/// whatever the append and finalize calls answered and whatever events follow.
pub proof fn lemma_finalized_batch_enqueued_once(
    s: StreamLifecycle,
    name: String,
    appends: Seq<Result<(), CallError>>,
    fin: Result<u64, CallError>,
    later: Seq<LifecycleEvent>,
)
    requires
        s.phase == LifecyclePhase::Creating,
        appends.len() <= usize::MAX,
    ensures
        ({
            let steps = run(s, completed_batch(name, appends, fin) + later).1;
            &&& steps.len() == appends.len() + 3 + later.len()
            &&& steps[appends.len() + 2int].action == LifecycleAction::Enqueue(name)
            &&& forall|i: int|
                0 <= i < steps.len() && i != appends.len() + 2int ==> !(#[trigger] steps[i].action is Enqueue)
        }),
{
    let n: int = appends.len() as int;
    let a = seq![LifecycleEvent::Created(Ok(name)), LifecycleEvent::Built(n as usize)];
    let b = appends.map_values(|r: Result<(), CallError>| LifecycleEvent::Appended(r));
    let c = seq![LifecycleEvent::Finalized(fin)];
    let evs = completed_batch(name, appends, fin) + later;
    assert(evs =~= a + (b + (c + later)));
    lemma_run_concat(s, a, b + (c + later));
    let s2 = run(s, a).0;
    assert(a.skip(1).skip(1).len() == 0);
    assert(a[0] == LifecycleEvent::Created(Ok(name)));
    assert(a.skip(1)[0] == LifecycleEvent::Built(n as usize));
    let s1 = next(s, a[0]).0;
    assert(s1.stream == name && s1.phase == LifecyclePhase::Building);
    let x1 = next(s1, a.skip(1)[0]).0;
    assert(run(x1, a.skip(1).skip(1)).0 == x1);
    assert(run(s1, a.skip(1)).0 == x1);
    assert(s2 == x1);
    assert(s2.stream == name);
    lemma_run_len(s, a);
    lemma_run_concat(s2, b, c + later);
    let s3 = run(s2, b).0;
    if n > 0 {
        assert(s2.phase == LifecyclePhase::Appending);
        assert forall|i: int| 0 <= i < b.len() implies #[trigger] b[i] is Appended by {}
        lemma_appends_reach_finalize(s2, b);
    } else {
        assert(b.len() == 0);
        assert(s3 == s2);
    }
    assert(s3.phase == LifecyclePhase::Finalizing && s3.stream == name);
    lemma_run_concat(s3, c, later);
    let s4 = run(s3, c).0;
    assert(c.skip(1).len() == 0);
    assert(c[0] == LifecycleEvent::Finalized(fin));
    let x3 = next(s3, c[0]).0;
    assert(run(x3, c.skip(1)).0 == x3);
    assert(s4 == x3);
    assert(s4.phase == LifecyclePhase::Enqueuing);
    lemma_run_len(s3, c);
    lemma_handed_over_is_quiet(s4, later);
    lemma_run_len(s2, b);
    let steps = run(s, evs).1;
    let sa = run(s, a).1;
    let sb = run(s2, b).1;
    let sc = run(s3, c).1;
    let sl = run(s4, later).1;
    assert(steps == sa + (sb + (sc + sl)));
    assert(sc[0].action == LifecycleAction::Enqueue(name));
    assert forall|i: int|
        0 <= i < steps.len() && i != n + 2 implies !(#[trigger] steps[i].action is Enqueue) by {
        if i < 2 {
            assert(steps[i] == sa[i]);
        } else if i < n + 2 {
            assert(steps[i] == sb[i - 2]);
        } else {
            assert(steps[i] == sl[i - n - 3]);
            assert(!is_work(sl[i - n - 3].action));
        }
    }
}

/// A failed create call is reported once and abandons the batch: no append,
/// finalize or handoff is ever issued for it, whatever events follow.
pub proof fn lemma_create_failure_abandons(s: StreamLifecycle, e: CallError, later: Seq<LifecycleEvent>)
    requires
        s.phase == LifecyclePhase::Creating,
    ensures
        ({
            let (end, steps) = run(s, seq![LifecycleEvent::Created(Err(e))] + later);
            &&& end.phase == LifecyclePhase::Abandoned
            &&& steps[0] == step_of(LifecycleAction::Stop, Some(Failure::Call(e)))
            &&& forall|i: int| 1 <= i < steps.len() ==> #[trigger] steps[i] == step_of(LifecycleAction::Ignored, None)
        }),
{
    let evs = seq![LifecycleEvent::Created(Err(e))] + later;
    assert(evs.skip(1) =~= later);
    assert(evs[0] == LifecycleEvent::Created(Err(e)));
    let s1 = next(s, evs[0]).0;
    lemma_over_is_silent(s1, later);
    let steps = run(s, evs).1;
    assert forall|i: int| 1 <= i < steps.len() implies #[trigger] steps[i] == step_of(LifecycleAction::Ignored, None) by {
        assert(steps[i] == run(s1, later).1[i - 1]);
    }
}

fn report_for<T>(r: &Result<T, CallError>) -> (f: Option<Failure>)
    ensures
        f == report_of(*r),
{
    match r {
        Ok(_) => None,
        Err(e) => Some(Failure::Call(*e)),
    }
}

impl StreamLifecycle {
    /// A lifecycle for a new batch, and its first action: create the stream.
    pub fn new() -> (r: (StreamLifecycle, LifecycleAction))
        ensures
            r.0.phase == LifecyclePhase::Creating,
            r.0.stream@.len() == 0,
            r.0.total == 0,
            r.0.answered == 0,
            r.1 == LifecycleAction::Create,
    {
        (
            StreamLifecycle {
                phase: LifecyclePhase::Creating,
                stream: String::new(),
                total: 0,
                answered: 0,
            },
            LifecycleAction::Create,
        )
    }

    /// Feeds the outcome of the last action and returns the next one.
    pub fn step(&mut self, ev: LifecycleEvent) -> (r: LifecycleStep)
        requires
            old(self).wf(),
        ensures
            final(self).wf(),
            (*final(self), r) == next(*old(self), ev),
    {
        match (self.phase, ev) {
            (LifecyclePhase::Creating, LifecycleEvent::Created(Ok(name))) => {
                self.phase = LifecyclePhase::Building;
                self.stream = name.clone();
                LifecycleStep { action: LifecycleAction::Build(name), report: None }
            },
            (LifecyclePhase::Creating, LifecycleEvent::Created(Err(e))) => {
                self.phase = LifecyclePhase::Abandoned;
                LifecycleStep { action: LifecycleAction::Stop, report: Some(Failure::Call(e)) }
            },
            (LifecyclePhase::Building, LifecycleEvent::Built(n)) => {
                self.total = n;
                self.answered = 0;
                if n == 0 {
                    self.phase = LifecyclePhase::Finalizing;
                    LifecycleStep {
                        action: LifecycleAction::Finalize(self.stream.clone()),
                        report: None,
                    }
                } else {
                    self.phase = LifecyclePhase::Appending;
                    LifecycleStep {
                        action: LifecycleAction::Append(self.stream.clone(), 0),
                        report: None,
                    }
                }
            },
            (LifecyclePhase::Appending, LifecycleEvent::Appended(r)) => {
                let report = report_for(&r);
                self.answered = self.answered + 1;
                if self.answered >= self.total {
                    self.phase = LifecyclePhase::Finalizing;
                    LifecycleStep { action: LifecycleAction::Finalize(self.stream.clone()), report }
                } else {
                    LifecycleStep {
                        action: LifecycleAction::Append(self.stream.clone(), self.answered),
                        report,
                    }
                }
            },
            (LifecyclePhase::Finalizing, LifecycleEvent::Finalized(r)) => {
                let report = report_for(&r);
                self.phase = LifecyclePhase::Enqueuing;
                LifecycleStep { action: LifecycleAction::Enqueue(self.stream.clone()), report }
            },
            (LifecyclePhase::Enqueuing, LifecycleEvent::Enqueued(sent)) => {
                self.phase = LifecyclePhase::Finished;
                let report = if sent {
                    None
                } else {
                    Some(Failure::Channel)
                };
                LifecycleStep { action: LifecycleAction::Release(self.stream.clone()), report }
            },
            _ => LifecycleStep { action: LifecycleAction::Ignored, report: None },
        }
    }
}

} // verus!
