//! The per-resource polling core: the error-lifecycle tracker that diffs
//! consecutive check outcomes into alert transitions, the rendering of alert
//! messages, and the Sentinel state machine that alternates between a probe
//! in flight and the inter-tick timer. Probing and timing themselves are
//! outside work; the library decides, for every completed probe or elapsed
//! timer, what the next state is and which alerts leave.

use vstd::prelude::*;

use crate::notifier::Message;

verus! {

/// A domain-level check error: something the resource checker classified,
/// expected and recoverable, with a human-readable description.
pub trait ResourceError {
    /// The description's text.
    spec fn spec_description(&self) -> Seq<char>;

    fn description(&self) -> (r: String)
        ensures
            r@ == self.spec_description(),
    ;
}

/// An alert-worthy change between consecutive outcomes of one resource.
pub enum ResourceErrorState<'a, E: ResourceError> {
    New(&'a E),
    Changed(&'a E, &'a E),
    Resolved(&'a E),
}

pub open spec fn new_error_title(name: Seq<char>) -> Seq<char> {
    "Error (new) "@ + name
}

pub open spec fn new_error_body(name: Seq<char>, desc: Seq<char>) -> Seq<char> {
    "Resource "@ + name + " report new error:\n"@ + desc
}

pub open spec fn changed_error_title(name: Seq<char>) -> Seq<char> {
    "Error (changed) "@ + name
}

pub open spec fn changed_error_body(name: Seq<char>, old_desc: Seq<char>, new_desc: Seq<char>) -> Seq<char> {
    "Resource "@ + name + " report changed error:\nOld error: "@ + old_desc + "\nNew error: "@
        + new_desc
}

pub open spec fn resolved_error_title(name: Seq<char>) -> Seq<char> {
    "Error (resolved) "@ + name
}

pub open spec fn resolved_error_body(name: Seq<char>, desc: Seq<char>) -> Seq<char> {
    "Resource "@ + name + " resolved error:\n"@ + desc
}

impl<'a, E: ResourceError> ResourceErrorState<'a, E> {
    /// Renders the one alert message for this change of `resource_name`.
    pub fn create_message(&self, resource_name: &str) -> (m: Message)
        ensures
            match *self {
                ResourceErrorState::New(e) => m.title@ == new_error_title(resource_name@)
                    && m.body@ == new_error_body(resource_name@, e.spec_description()),
                ResourceErrorState::Changed(e1, e2) => m.title@ == changed_error_title(
                    resource_name@,
                ) && m.body@ == changed_error_body(
                    resource_name@,
                    e1.spec_description(),
                    e2.spec_description(),
                ),
                ResourceErrorState::Resolved(e) => m.title@ == resolved_error_title(resource_name@)
                    && m.body@ == resolved_error_body(resource_name@, e.spec_description()),
            },
    {
        match self {
            ResourceErrorState::New(e) => {
                let title = String::from_str("Error (new) ").concat(resource_name);
                let desc = e.description();
                let body = String::from_str("Resource ").concat(resource_name).concat(
                    " report new error:\n",
                ).concat(desc.as_str());
                Message::new(title, body)
            },
            ResourceErrorState::Changed(e1, e2) => {
                let title = String::from_str("Error (changed) ").concat(resource_name);
                let old_desc = e1.description();
                let new_desc = e2.description();
                let body = String::from_str("Resource ").concat(resource_name).concat(
                    " report changed error:\nOld error: ",
                ).concat(old_desc.as_str()).concat("\nNew error: ").concat(new_desc.as_str());
                Message::new(title, body)
            },
            ResourceErrorState::Resolved(e) => {
                let title = String::from_str("Error (resolved) ").concat(resource_name);
                let desc = e.description();
                let body = String::from_str("Resource ").concat(resource_name).concat(
                    " resolved error:\n",
                ).concat(desc.as_str());
                Message::new(title, body)
            },
        }
    }
}

/// The classification of one outcome against the active error: which alert,
/// if any, it causes. Derived fresh each tick, never stored.
pub enum Transition<E> {
    NoAlert,
    New(E),
    Changed(E, E),
    Resolved(E),
}

/// The error carried by one outcome, the success payload discarded.
pub open spec fn err_of<R, E>(res: Result<R, E>) -> Option<E> {
    match res {
        Ok(_) => None,
        Err(e) => Some(e),
    }
}

/// The error-lifecycle table: given the last alerted error and the error (if
/// any) of the current outcome, the transition to alert.
pub open spec fn lifecycle_transition<E>(
    active: Option<E>,
    observed: Option<E>,
    same: spec_fn(E, E) -> bool,
) -> Transition<E> {
    match (active, observed) {
        (None, None) => Transition::NoAlert,
        (None, Some(e)) => Transition::New(e),
        (Some(e1), Some(e2)) => if same(e1, e2) {
            Transition::NoAlert
        } else {
            Transition::Changed(e1, e2)
        },
        (Some(e1), None) => Transition::Resolved(e1),
    }
}

/// The active error after the table is applied: it changes only when an alert
/// is produced, and clears only on a resolved alert.
pub open spec fn lifecycle_next_active<E>(
    active: Option<E>,
    observed: Option<E>,
    same: spec_fn(E, E) -> bool,
) -> Option<E> {
    match lifecycle_transition(active, observed, same) {
        Transition::NoAlert => active,
        Transition::New(e) => Some(e),
        Transition::Changed(_, e2) => Some(e2),
        Transition::Resolved(_) => None,
    }
}

/// The title of the alert a transition produces.
pub open spec fn transition_title<E: ResourceError>(t: Transition<E>, name: Seq<char>) -> Seq<
    char,
>
    recommends
        !(t is NoAlert),
{
    match t {
        Transition::NoAlert => Seq::empty(),
        Transition::New(_) => new_error_title(name),
        Transition::Changed(_, _) => changed_error_title(name),
        Transition::Resolved(_) => resolved_error_title(name),
    }
}

/// The body of the alert a transition produces.
pub open spec fn transition_body<E: ResourceError>(t: Transition<E>, name: Seq<char>) -> Seq<char>
    recommends
        !(t is NoAlert),
{
    match t {
        Transition::NoAlert => Seq::empty(),
        Transition::New(e) => new_error_body(name, e.spec_description()),
        Transition::Changed(e1, e2) => changed_error_body(
            name,
            e1.spec_description(),
            e2.spec_description(),
        ),
        Transition::Resolved(e) => resolved_error_body(name, e.spec_description()),
    }
}

/// A pluggable resource checker, as far as the lifecycle core needs it: the
/// outcome types of one probe and the checker-supplied equivalence on its
/// errors, used to suppress duplicate alerts. The probe itself is outside
/// work and is driven by the runner, which hands its outcome back as an
/// event.
pub trait SentinelImpl: Sized {
    type ResourceOk;

    type ResourceErr: ResourceError;

    /// The checker's equivalence on its errors.
    spec fn same_error(&self, left: &Self::ResourceErr, right: &Self::ResourceErr) -> bool;

    fn compare_errors(&self, left: &Self::ResourceErr, right: &Self::ResourceErr) -> (r: bool)
        ensures
            r == self.same_error(left, right),
    ;
}

/// One delivery attempt: an alert message addressed to one bound notifier.
pub struct Delivery {
    pub notifier: String,
    pub message: Message,
}

/// The Sentinel's two states: a probe is in flight, or the inter-tick timer
/// is running. Exactly one holds at any time.
pub enum SentinelPhase {
    Checking,
    Waiting,
}

/// What the runner observed while driving the Sentinel's current state: the
/// probe's completion, classified outcome or unclassifiable infrastructure
/// fault, or the timer's elapsing or failing. Fault payloads carry the
/// fault's rendered description.
pub enum SentinelEvent<R, E> {
    ProbeReady(Result<R, E>),
    ProbePending,
    ProbeFault(String),
    TimerElapsed,
    TimerPending,
    TimerFault(String),
}

/// What the Sentinel tells the runner to do next.
pub enum SentinelStep {
    /// The probe completed: send these deliveries, then run the inter-tick
    /// timer for `interval` milliseconds.
    Emitted(Vec<Delivery>),
    /// The timer elapsed: start a new probe at once.
    StartProbe,
    /// Nothing is ready yet.
    Pending,
    /// An infrastructure fault: this Sentinel stops for good; siblings are
    /// unaffected.
    Stopped(String),
}

/// The per-resource polling state machine. `active_error` is the most recent
/// error already alerted as new or changed; it is cleared only by a resolved
/// alert.
pub struct Sentinel<S: SentinelImpl> {
    pub sentinel_impl: S,
    pub phase: SentinelPhase,
    pub active_error: Option<S::ResourceErr>,
    pub interval: u64,
    pub notifiers: Vec<String>,
    pub resource_name: String,
}

impl<S: SentinelImpl> Sentinel<S> {
    /// The checker's error equivalence, as a function of error values.
    pub open spec fn same_fn(&self) -> spec_fn(S::ResourceErr, S::ResourceErr) -> bool {
        |a: S::ResourceErr, b: S::ResourceErr| self.sentinel_impl.same_error(&a, &b)
    }

    /// The transition this Sentinel's lifecycle state assigns to an outcome.
    pub open spec fn spec_transition(&self, observed: Option<S::ResourceErr>) -> Transition<
        S::ResourceErr,
    > {
        lifecycle_transition(self.active_error, observed, self.same_fn())
    }
}

/// The deliveries of one alert: one per bound notifier, in binding order,
/// all carrying the same message.
pub open spec fn deliveries_match(
    deliveries: Seq<Delivery>,
    notifiers: Seq<String>,
    title: Seq<char>,
    body: Seq<char>,
) -> bool {
    &&& deliveries.len() == notifiers.len()
    &&& forall|i: int|
        0 <= i < deliveries.len() ==> {
            &&& (#[trigger] deliveries[i]).notifier == notifiers[i]
            &&& deliveries[i].message.title@ == title
            &&& deliveries[i].message.body@ == body
        }
}

/// What processing one completed outcome does: the lifecycle table decides
/// the transition; the active error is updated by it; everything else is
/// untouched; and the alert, if any, is fanned out to every bound notifier.
pub open spec fn process_result_spec<S: SentinelImpl>(
    pre: Sentinel<S>,
    res: Result<S::ResourceOk, S::ResourceErr>,
    post: Sentinel<S>,
    deliveries: Seq<Delivery>,
) -> bool {
    let t = pre.spec_transition(err_of(res));
    &&& post.active_error == lifecycle_next_active(pre.active_error, err_of(res), pre.same_fn())
    &&& post.sentinel_impl == pre.sentinel_impl
    &&& post.interval == pre.interval
    &&& post.notifiers == pre.notifiers
    &&& post.resource_name == pre.resource_name
    &&& if t is NoAlert {
        deliveries.len() == 0
    } else {
        deliveries_match(
            deliveries,
            pre.notifiers@,
            transition_title(t, pre.resource_name@),
            transition_body(t, pre.resource_name@),
        )
    }
}

/// An event fits the state it reports on: probe events arrive only while a
/// probe is in flight, timer events only while the timer runs.
pub open spec fn event_fits<S: SentinelImpl>(
    s: Sentinel<S>,
    ev: SentinelEvent<S::ResourceOk, S::ResourceErr>,
) -> bool {
    match ev {
        SentinelEvent::ProbeReady(_) => s.phase is Checking,
        SentinelEvent::ProbePending => s.phase is Checking,
        SentinelEvent::ProbeFault(_) => s.phase is Checking,
        SentinelEvent::TimerElapsed => s.phase is Waiting,
        SentinelEvent::TimerPending => s.phase is Waiting,
        SentinelEvent::TimerFault(_) => s.phase is Waiting,
    }
}

/// The Sentinel's full transition relation, one event at a time: a completed
/// probe is processed by the lifecycle table and moves to waiting; an elapsed
/// timer moves back to checking; pending events change nothing; a fault stops
/// this Sentinel with the fault's description and is not retried.
pub open spec fn poll_event_spec<S: SentinelImpl>(
    pre: Sentinel<S>,
    ev: SentinelEvent<S::ResourceOk, S::ResourceErr>,
    post: Sentinel<S>,
    step: SentinelStep,
) -> bool {
    match ev {
        SentinelEvent::ProbeReady(res) => {
            &&& step matches SentinelStep::Emitted(d) && process_result_spec(pre, res, post, d@)
            &&& post.phase is Waiting
        },
        SentinelEvent::ProbePending => post == pre && step is Pending,
        SentinelEvent::ProbeFault(f) => post == pre && (step matches SentinelStep::Stopped(m)
            && m == f),
        SentinelEvent::TimerElapsed => {
            &&& post == Sentinel { phase: SentinelPhase::Checking, ..pre }
            &&& step is StartProbe
        },
        SentinelEvent::TimerPending => post == pre && step is Pending,
        SentinelEvent::TimerFault(f) => post == pre && (step matches SentinelStep::Stopped(m)
            && m == f),
    }
}

/// The transitions a whole run of outcomes produces, applying the lifecycle
/// table left to right from `active`.
pub open spec fn run_transitions<E>(
    active: Option<E>,
    outcomes: Seq<Option<E>>,
    same: spec_fn(E, E) -> bool,
) -> Seq<Transition<E>>
    decreases outcomes.len(),
{
    if outcomes.len() == 0 {
        Seq::empty()
    } else {
        seq![lifecycle_transition(active, outcomes[0], same)] + run_transitions(
            lifecycle_next_active(active, outcomes[0], same),
            outcomes.drop_first(),
            same,
        )
    }
}

/// The active error after a whole run of outcomes.
pub open spec fn run_active<E>(
    active: Option<E>,
    outcomes: Seq<Option<E>>,
    same: spec_fn(E, E) -> bool,
) -> Option<E>
    decreases outcomes.len(),
{
    if outcomes.len() == 0 {
        active
    } else {
        run_active(lifecycle_next_active(active, outcomes[0], same), outcomes.drop_first(), same)
    }
}

/// For any sequence of outcomes of one resource, the sequence of transitions
/// is fully determined by the lifecycle table applied left to right, with no
/// hidden state besides the active error: the i-th transition is the table
/// applied to the active error left by the first i outcomes, and the i-th
/// outcome.
pub proof fn lemma_run_follows_table<E>(
    active: Option<E>,
    outcomes: Seq<Option<E>>,
    same: spec_fn(E, E) -> bool,
)
    ensures
        run_transitions(active, outcomes, same).len() == outcomes.len(),
        forall|i: int|
            0 <= i < outcomes.len() ==> run_transitions(active, outcomes, same)[i]
                == lifecycle_transition(
                run_active(active, outcomes.take(i), same),
                outcomes[i],
                same,
            ),
    decreases outcomes.len(),
{
    if outcomes.len() > 0 {
        let next = lifecycle_next_active(active, outcomes[0], same);
        let tail = outcomes.drop_first();
        lemma_run_follows_table(next, tail, same);
        assert(outcomes.take(0) =~= Seq::<Option<E>>::empty());
        assert forall|i: int|
            0 <= i < outcomes.len() implies run_transitions(active, outcomes, same)[i]
            == lifecycle_transition(
            run_active(active, outcomes.take(i), same),
            outcomes[i],
            same,
        ) by {
            if i > 0 {
                assert(tail.take(i - 1) =~= outcomes.take(i).drop_first());
                assert(outcomes.take(i).len() == i);
                assert(outcomes.take(i)[0] == outcomes[0]);
                assert(run_active(active, outcomes.take(i), same) == run_active(
                    next,
                    tail.take(i - 1),
                    same,
                ));
                assert(run_transitions(active, outcomes, same)[i] == run_transitions(
                    next,
                    tail,
                    same,
                )[i - 1]);
                assert(tail[i - 1] == outcomes[i]);
            }
        }
    }
}

/// Once an error has been alerted, repeating errors of its equivalence class
/// produces no further alerts and leaves the active error untouched.
pub proof fn lemma_repeated_error_is_silent<E>(
    e0: E,
    outcomes: Seq<Option<E>>,
    same: spec_fn(E, E) -> bool,
)
    requires
        forall|i: int|
            0 <= i < outcomes.len() ==> ((#[trigger] outcomes[i]) matches Some(e) && same(e0, e)),
    ensures
        run_active(Some(e0), outcomes, same) == Some(e0),
        run_transitions(Some(e0), outcomes, same).len() == outcomes.len(),
        forall|i: int|
            0 <= i < outcomes.len() ==> (#[trigger] run_transitions(Some(e0), outcomes, same)[i])
                is NoAlert,
    decreases outcomes.len(),
{
    if outcomes.len() > 0 {
        let tail = outcomes.drop_first();
        assert(lifecycle_transition(Some(e0), outcomes[0], same) is NoAlert);
        assert(lifecycle_next_active(Some(e0), outcomes[0], same) == Some(e0));
        lemma_repeated_error_is_silent(e0, tail, same);
        assert forall|i: int|
            0 <= i < outcomes.len() implies (#[trigger] run_transitions(
            Some(e0),
            outcomes,
            same,
        )[i]) is NoAlert by {
            if i > 0 {
                assert(run_transitions(Some(e0), outcomes, same)[i] == run_transitions(
                    Some(e0),
                    tail,
                    same,
                )[i - 1]);
            }
        }
    }
}

/// A healthy resource that falls into one error class is alerted exactly
/// once: the first erroneous outcome produces the one new-error alert, and
/// every following outcome of the same class produces nothing, until a
/// different error or a success arrives.
pub proof fn lemma_error_alerted_once<E>(
    e0: E,
    outcomes: Seq<Option<E>>,
    same: spec_fn(E, E) -> bool,
)
    requires
        outcomes.len() >= 1,
        outcomes[0] == Some(e0),
        forall|i: int|
            1 <= i < outcomes.len() ==> ((#[trigger] outcomes[i]) matches Some(e) && same(e0, e)),
    ensures
        run_transitions(None, outcomes, same).len() == outcomes.len(),
        run_transitions(None, outcomes, same)[0] == Transition::New(e0),
        forall|i: int|
            1 <= i < outcomes.len() ==> (#[trigger] run_transitions(None, outcomes, same)[i])
                is NoAlert,
        run_active(None, outcomes, same) == Some(e0),
{
    let tail = outcomes.drop_first();
    assert(lifecycle_transition(None, outcomes[0], same) == Transition::New(e0));
    assert(lifecycle_next_active(None, outcomes[0], same) == Some(e0));
    assert(forall|i: int|
        0 <= i < tail.len() ==> ((#[trigger] tail[i]) matches Some(e) && same(e0, e)));
    lemma_repeated_error_is_silent(e0, tail, same);
    assert forall|i: int|
        1 <= i < outcomes.len() implies (#[trigger] run_transitions(None, outcomes, same)[i])
        is NoAlert by {
        assert(run_transitions(None, outcomes, same)[i] == run_transitions(Some(e0), tail, same)[i
            - 1]);
    }
}

/// A new error followed immediately by a success produces exactly the
/// new-error alert and then the resolved alert for that same error, and the
/// resource is healthy again.
pub proof fn lemma_round_trip_resolved<E>(e: E, same: spec_fn(E, E) -> bool)
    ensures
        run_transitions(None, seq![Some(e), None], same) =~= seq![
            Transition::New(e),
            Transition::Resolved(e),
        ],
        run_active(None, seq![Some(e), None], same) is None,
{
    reveal_with_fuel(run_transitions, 4);
    reveal_with_fuel(run_active, 4);
    let outcomes: Seq<Option<E>> = seq![Some(e), None];
    assert(outcomes.drop_first() =~= seq![Option::<E>::None]);
    assert(seq![Option::<E>::None].drop_first() =~= Seq::<Option<E>>::empty());
    assert(outcomes[0] == Some(e) && outcomes.drop_first()[0] is None);
    assert(run_transitions(None, outcomes, same)[0] == Transition::New(e));
    assert(run_transitions(None, outcomes, same)[1] == Transition::Resolved(e));
}

/// A new error followed by an inequivalent error produces exactly the
/// new-error alert and then the changed alert carrying both, and the second
/// error is now the active one.
pub proof fn lemma_round_trip_changed<E>(e1: E, e2: E, same: spec_fn(E, E) -> bool)
    requires
        !same(e1, e2),
    ensures
        run_transitions(None, seq![Some(e1), Some(e2)], same) =~= seq![
            Transition::New(e1),
            Transition::Changed(e1, e2),
        ],
        run_active(None, seq![Some(e1), Some(e2)], same) == Some(e2),
{
    reveal_with_fuel(run_transitions, 4);
    reveal_with_fuel(run_active, 4);
    let outcomes: Seq<Option<E>> = seq![Some(e1), Some(e2)];
    assert(outcomes.drop_first() =~= seq![Some(e2)]);
    assert(seq![Some(e2)].drop_first() =~= Seq::<Option<E>>::empty());
    assert(outcomes[0] == Some(e1) && outcomes.drop_first()[0] == Some(e2));
    assert(run_transitions(None, outcomes, same)[0] == Transition::New(e1));
    assert(run_transitions(None, outcomes, same)[1] == Transition::Changed(e1, e2));
}

impl<S: SentinelImpl> Sentinel<S> {
    /// A fresh Sentinel starts healthy and in `Checking`: the first probe
    /// fires immediately on start, not after a delay.
    pub fn new(sentinel_impl: S, interval: u64, notifiers: Vec<String>, resource_name: String) -> (s:
        Self)
        ensures
            s.sentinel_impl == sentinel_impl,
            s.phase is Checking,
            s.active_error is None,
            s.interval == interval,
            s.notifiers == notifiers,
            s.resource_name == resource_name,
    {
        Self {
            sentinel_impl,
            phase: SentinelPhase::Checking,
            active_error: None,
            interval,
            notifiers,
            resource_name,
        }
    }

    /// Applies the lifecycle table to one completed outcome: updates the
    /// active error and returns the fan-out of the alert, if one is produced,
    /// to every bound notifier. The phase is not touched here.
    pub fn process_result(&mut self, res: Result<S::ResourceOk, S::ResourceErr>) -> (deliveries:
        Vec<Delivery>)
        ensures
            process_result_spec(*old(self), res, *final(self), deliveries@),
            final(self).phase == old(self).phase,
    {
        let ghost pre = *self;
        let msg: Option<Message> = match (self.active_error.as_ref(), res) {
            (None, Ok(_)) => None,
            (None, Err(e)) => {
                let m = ResourceErrorState::New(&e).create_message(self.resource_name.as_str());
                self.active_error = Some(e);
                Some(m)
            },
            (Some(e1), Err(e2)) => {
                if !self.sentinel_impl.compare_errors(e1, &e2) {
                    let m = ResourceErrorState::Changed(e1, &e2).create_message(
                        self.resource_name.as_str(),
                    );
                    self.active_error = Some(e2);
                    Some(m)
                } else {
                    None
                }
            },
            (Some(e), Ok(_)) => {
                let m = ResourceErrorState::Resolved(e).create_message(
                    self.resource_name.as_str(),
                );
                self.active_error = None;
                Some(m)
            },
        };
        let ghost t = pre.spec_transition(err_of(res));
        match msg {
            None => Vec::new(),
            Some(m) => {
                proof {
                    assert(!(t is NoAlert));
                    assert(m.title@ == transition_title(t, pre.resource_name@));
                    assert(m.body@ == transition_body(t, pre.resource_name@));
                }
                let mut deliveries: Vec<Delivery> = Vec::new();
                let mut i: usize = 0;
                while i < self.notifiers.len()
                    invariant
                        i <= self.notifiers.len(),
                        self.notifiers == pre.notifiers,
                        m.title@ == transition_title(t, pre.resource_name@),
                        m.body@ == transition_body(t, pre.resource_name@),
                        deliveries@.len() == i as int,
                        forall|j: int|
                            0 <= j < i as int ==> {
                                &&& (#[trigger] deliveries@[j]).notifier == pre.notifiers@[j]
                                &&& deliveries@[j].message.title@ == transition_title(
                                    t,
                                    pre.resource_name@,
                                )
                                &&& deliveries@[j].message.body@ == transition_body(
                                    t,
                                    pre.resource_name@,
                                )
                            },
                    decreases self.notifiers.len() - i,
                {
                    deliveries.push(
                        Delivery { notifier: self.notifiers[i].clone(), message: m.clone() },
                    );
                    i = i + 1;
                }
                deliveries
            },
        }
    }

    /// Drives the state machine by one observed event. The runner reports
    /// only events that fit the current state: exactly one probe or timer is
    /// outstanding at any time, so ticks never overlap.
    pub fn poll_event(&mut self, ev: SentinelEvent<S::ResourceOk, S::ResourceErr>) -> (step:
        SentinelStep)
        requires
            event_fits(*old(self), ev),
        ensures
            poll_event_spec(*old(self), ev, *final(self), step),
    {
        match ev {
            SentinelEvent::ProbeReady(res) => {
                let deliveries = self.process_result(res);
                self.phase = SentinelPhase::Waiting;
                SentinelStep::Emitted(deliveries)
            },
            SentinelEvent::ProbePending => SentinelStep::Pending,
            SentinelEvent::ProbeFault(f) => SentinelStep::Stopped(f),
            SentinelEvent::TimerElapsed => {
                self.phase = SentinelPhase::Checking;
                SentinelStep::StartProbe
            },
            SentinelEvent::TimerPending => SentinelStep::Pending,
            SentinelEvent::TimerFault(f) => SentinelStep::Stopped(f),
        }
    }
}

} // verus!
