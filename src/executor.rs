use vstd::prelude::*;
use crate::frames::Event;
use crate::models::{Action, ModeView, Transition, VideoMode};

verus! {

/// Minimum time, in milliseconds, between two firings of one executor.
pub const DEBOUNCE_MILLIS: u64 = 5000;

/// True when an executor that last fired at `last_call` may fire at `now`:
/// it never fired, or more than the debounce window has elapsed. A clock
/// reading earlier than `last_call` counts as no time elapsed.
pub open spec fn debounce_open(last_call: Option<u64>, now: u64) -> bool {
    match last_call {
        None => true,
        Some(t) => now as int - t as int > DEBOUNCE_MILLIS as int,
    }
}

/// Abstract state of an [`ActionExecutor`].
pub ghost struct ExecutorView {
    pub from: ModeView,
    pub to: ModeView,
    pub last_mode: Option<ModeView>,
    pub last_call: Option<u64>,
}

/// An executor that has observed nothing yet.
pub open spec fn fresh_executor(from: ModeView, to: ModeView) -> ExecutorView {
    ExecutorView { from, to, last_mode: None, last_call: None }
}

/// Whether an executor in state `e` dispatches its action on observing `mode` at `now`.
pub open spec fn fires(e: ExecutorView, mode: ModeView, now: u64) -> bool {
    &&& e.last_mode == Some(e.from)
    &&& mode == e.to
    &&& debounce_open(e.last_call, now)
}

/// State after observing `mode`; `succeeded` tells whether a dispatched action succeeded.
pub open spec fn observed(e: ExecutorView, mode: ModeView, now: u64, succeeded: bool) -> ExecutorView {
    ExecutorView {
        last_mode: Some(mode),
        last_call: if fires(e, mode, now) && succeeded { Some(now) } else { e.last_call },
        ..e
    }
}

/// Number of dispatches when an executor starting in `e` observes `events`
/// (mode and time) in order, each dispatched action succeeding.
pub open spec fn fire_count(e: ExecutorView, events: Seq<(ModeView, u64)>) -> nat
    decreases events.len(),
{
    if events.len() == 0 {
        0
    } else {
        let (m, t) = events[0];
        (if fires(e, m, t) { 1nat } else { 0nat }) + fire_count(
            observed(e, m, t, true),
            events.drop_first(),
        )
    }
}

/// Debounce: an executor listening for `a -> b` that sees `a, b, a, b` at
/// non-decreasing times fires on the first `a -> b`, and fires on the second
/// one only when more than the debounce window separates the two.
pub proof fn lemma_debounce(a: ModeView, b: ModeView, t0: u64, t1: u64, t2: u64, t3: u64)
    requires
        a != b,
        t0 <= t1 <= t2 <= t3,
    ensures
        fire_count(fresh_executor(a, b), seq![(a, t0), (b, t1), (a, t2), (b, t3)]) == if t3 - t1
            > DEBOUNCE_MILLIS {
            2nat
        } else {
            1nat
        },
{
    let ev = seq![(a, t0), (b, t1), (a, t2), (b, t3)];
    let ev1 = seq![(b, t1), (a, t2), (b, t3)];
    let ev2 = seq![(a, t2), (b, t3)];
    let ev3 = seq![(b, t3)];
    let ev4 = Seq::<(ModeView, u64)>::empty();
    let e0 = fresh_executor(a, b);
    let e1 = observed(e0, a, t0, true);
    let e2 = observed(e1, b, t1, true);
    let e3 = observed(e2, a, t2, true);
    let e4 = observed(e3, b, t3, true);
    assert(ev.drop_first() == ev1);
    assert(ev1.drop_first() == ev2);
    assert(ev2.drop_first() == ev3);
    assert(ev3.drop_first() == ev4);
    assert(!fires(e0, a, t0));
    assert(fires(e1, b, t1));
    assert(!fires(e2, a, t2));
    assert(e3.last_call == Some(t1));
    assert(fires(e3, b, t3) == (t3 - t1 > DEBOUNCE_MILLIS));
    assert(fire_count(e4, ev4) == 0);
    assert(fire_count(e3, ev3) == (if fires(e3, b, t3) { 1nat } else { 0nat }) + fire_count(e4, ev4));
    assert(fire_count(e2, ev2) == fire_count(e3, ev3));
    assert(fire_count(e1, ev1) == 1 + fire_count(e2, ev2));
    assert(fire_count(e0, ev) == fire_count(e1, ev1));
}

/// An executor that has observed nothing does not fire on its first observation.
pub proof fn lemma_no_fire_without_prior_state(from: ModeView, to: ModeView, mode: ModeView, now: u64)
    ensures
        !fires(fresh_executor(from, to), mode, now),
{
}

/// The `(from, to)` pair an executor listens for.
#[derive(Debug)]
pub struct TransitionStateChange(pub VideoMode, pub VideoMode);

impl Clone for TransitionStateChange {
    fn clone(&self) -> (r: Self)
        ensures
            r.0@ == self.0@,
            r.1@ == self.1@,
    {
        TransitionStateChange(self.0.clone(), self.1.clone())
    }
}

/// Binds one action to one transition, with the last observed mode and the
/// time of the last successful firing.
#[derive(Debug)]
pub struct ActionExecutor {
    transition_change: TransitionStateChange,
    action: Action,
    last_mode: Option<VideoMode>,
    last_call: Option<u64>,
}

pub open spec fn opt_mode_view(m: Option<VideoMode>) -> Option<ModeView> {
    match m {
        Some(v) => Some(v@),
        None => None,
    }
}

impl View for ActionExecutor {
    type V = ExecutorView;

    closed spec fn view(&self) -> ExecutorView {
        ExecutorView {
            from: self.transition_change.0@,
            to: self.transition_change.1@,
            last_mode: opt_mode_view(self.last_mode),
            last_call: self.last_call,
        }
    }
}

impl ActionExecutor {
    /// An executor for `transition_change` that has observed nothing.
    pub fn new(transition_change: TransitionStateChange, action: Action) -> (r: Self)
        ensures
            r@ == fresh_executor(transition_change.0@, transition_change.1@),
            r.action() == action,
    {
        ActionExecutor { transition_change, action, last_mode: None, last_call: None }
    }

    pub closed spec fn action(&self) -> Action {
        self.action
    }

    /// The action this executor dispatches.
    pub fn get_action(&self) -> (r: &Action)
        ensures
            *r == self.action(),
    {
        &self.action
    }

    /// Observes `mode` at time `now` (milliseconds on a monotonic clock) and
    /// tells whether the action is due. The mode becomes the last observed
    /// one whether or not the action is due; a caller that runs the action
    /// reports success with [`ActionExecutor::record_success`].
    pub fn execute(&mut self, mode: &VideoMode, now: u64) -> (due: bool)
        ensures
            due == fires(old(self)@, mode@, now),
            final(self)@ == observed(old(self)@, mode@, now, false),
            final(self).action() == old(self).action(),
    {
        let due = self.allowed_transition(mode) && self.allowed_to_run(now);
        self.last_mode = Some(mode.clone());
        due
    }

    /// Records that the action dispatched at `at` succeeded: the debounce
    /// window restarts from `at`.
    pub fn record_success(&mut self, at: u64)
        ensures
            final(self)@ == (ExecutorView { last_call: Some(at), ..old(self)@ }),
            final(self).action() == old(self).action(),
    {
        self.last_call = Some(at);
    }

    /// Whether the previous observation and `mode` form the target transition.
    fn allowed_transition(&self, mode: &VideoMode) -> (r: bool)
        ensures
            r == (self@.last_mode == Some(self@.from) && mode@ == self@.to),
    {
        match &self.last_mode {
            None => false,
            Some(last) => *last == self.transition_change.0 && *mode == self.transition_change.1,
        }
    }

    /// Whether the debounce window since the last successful firing is over.
    fn allowed_to_run(&self, now: u64) -> (r: bool)
        ensures
            r == debounce_open(self.last_call, now),
    {
        match self.last_call {
            None => true,
            Some(t) => now > t && now - t > DEBOUNCE_MILLIS,
        }
    }
}

/// The executors of a list of transitions, in order: one `(from, to, action)`
/// entry per action of each transition.
pub open spec fn executor_targets(ts: Seq<Transition>) -> Seq<(ModeView, ModeView, Action)>
    decreases ts.len(),
{
    if ts.len() == 0 {
        Seq::empty()
    } else {
        let t = ts.last();
        executor_targets(ts.drop_last()) + t.actions@.map_values(
            |a: Action| (t.from@, t.to@, a),
        )
    }
}

/// One fresh executor per action of `transition`, in the order of the actions.
pub fn executors_for(transition: Transition) -> (r: Vec<ActionExecutor>)
    ensures
        r.len() == transition.actions.len(),
        forall|i: int|
            0 <= i < r.len() ==> r[i]@ == fresh_executor(transition.from@, transition.to@)
                && r[i].action() == transition.actions[i],
{
    let target = TransitionStateChange(transition.from, transition.to);
    let mut actions = transition.actions;
    let ghost all = actions@;
    let mut r: Vec<ActionExecutor> = Vec::new();
    while actions.len() > 0
        invariant
            r.len() + actions.len() == all.len(),
            actions@ == all.subrange(r.len() as int, all.len() as int),
            target.0@ == transition.from@,
            target.1@ == transition.to@,
            forall|i: int|
                0 <= i < r.len() ==> r[i]@ == fresh_executor(transition.from@, transition.to@)
                    && r[i].action() == all[i],
        decreases actions.len(),
    {
        let a = actions.remove(0);
        r.push(ActionExecutor::new(target.clone(), a));
    }
    r
}

/// The executors of every transition, in order: those of the first
/// transition's actions, then those of the second, and so on.
pub fn build_executors(transitions: Vec<Transition>) -> (r: Vec<ActionExecutor>)
    ensures
        r.len() == executor_targets(transitions@).len(),
        forall|i: int|
            0 <= i < r.len() ==> r[i]@ == fresh_executor(
                executor_targets(transitions@)[i].0,
                executor_targets(transitions@)[i].1,
            ) && r[i].action() == executor_targets(transitions@)[i].2,
{
    let ghost all = transitions@;
    let mut rest = transitions;
    let mut r: Vec<ActionExecutor> = Vec::new();
    let ghost k: int = 0;
    while rest.len() > 0
        invariant
            0 <= k <= all.len(),
            rest@ == all.subrange(k, all.len() as int),
            r.len() == executor_targets(all.subrange(0, k)).len(),
            forall|i: int|
                0 <= i < r.len() ==> r[i]@ == fresh_executor(
                    executor_targets(all.subrange(0, k))[i].0,
                    executor_targets(all.subrange(0, k))[i].1,
                ) && r[i].action() == executor_targets(all.subrange(0, k))[i].2,
        decreases rest.len(),
    {
        let t = rest.remove(0);
        proof {
            assert(all.subrange(0, k + 1).drop_last() == all.subrange(0, k));
            assert(all.subrange(0, k + 1).last() == t);
        }
        let mut part = executors_for(t);
        r.append(&mut part);
        proof {
            k = k + 1;
            assert(all.subrange(k, all.len() as int) == rest@);
        }
    }
    assert(all.subrange(0, k) == all);
    r
}

/// Abstract state of a [`Runtime`]: its executors, in order.
pub open spec fn runtime_view_of(execs: Seq<ActionExecutor>) -> Seq<ExecutorView> {
    execs.map_values(|e: ActionExecutor| e@)
}

/// Dispatches classification events to every executor.
pub struct Runtime {
    actions: Vec<ActionExecutor>,
}

impl View for Runtime {
    type V = Seq<ExecutorView>;

    closed spec fn view(&self) -> Seq<ExecutorView> {
        runtime_view_of(self.actions@)
    }
}

impl Runtime {
    pub closed spec fn action(&self, i: int) -> Action {
        self.actions[i].action()
    }

    /// A runtime over `processors`, in order.
    pub fn new(processors: Vec<ActionExecutor>) -> (r: Runtime)
        ensures
            r@ == runtime_view_of(processors@),
            forall|i: int| 0 <= i < processors.len() ==> r.action(i) == processors[i].action(),
    {
        Runtime { actions: processors }
    }

    /// Number of executors.
    pub fn len(&self) -> (r: usize)
        ensures
            r == self@.len(),
    {
        self.actions.len()
    }

    /// The action of executor `index`.
    pub fn action_at(&self, index: usize) -> (r: &Action)
        requires
            index < self@.len(),
        ensures
            *r == self.action(index as int),
    {
        self.actions[index].get_action()
    }

    /// Handles one event at time `now`. `Terminate` yields `None` and leaves
    /// the executors alone. `Mode(m)` is observed by every executor in
    /// order and yields the increasing indices of the executors whose action
    /// is due.
    pub fn handle(&mut self, event: &Event, now: u64) -> (r: Option<Vec<usize>>)
        ensures
            final(self)@.len() == old(self)@.len(),
            forall|i: int| 0 <= i < old(self)@.len() ==> final(self).action(i) == old(self).action(i),
            match event {
                Event::Terminate => r.is_none() && final(self)@ == old(self)@,
                Event::Mode(m) => r.is_some() && (forall|i: int|
                    0 <= i < old(self)@.len() ==> final(self)@[i] == observed(old(self)@[i], m@, now, false))
                    && (forall|k: int| 0 <= k < r.unwrap().len() ==> r.unwrap()[k] < old(self)@.len())
                    && (forall|k: int, l: int| 0 <= k < l < r.unwrap().len() ==> r.unwrap()[k] < r.unwrap()[l])
                    && (forall|i: int| 0 <= i < old(self)@.len() ==>
                        (fires(old(self)@[i], m@, now) <==> r.unwrap()@.contains(i as usize))),
            },
    {
        match event {
            Event::Terminate => None,
            Event::Mode(mode) => {
                let ghost old_actions = self.actions@;
                let mut due: Vec<usize> = Vec::new();
                let n = self.actions.len();
                let mut i: usize = 0;
                while i < n
                    invariant
                        n == old_actions.len(),
                        self.actions.len() == n,
                        i <= n,
                        forall|j: int| 0 <= j < i ==> self.actions[j]@ == observed(old_actions[j]@, mode@, now, false),
                        forall|j: int| i <= j < n ==> self.actions[j] == old_actions[j],
                        forall|j: int| 0 <= j < n ==> self.actions[j].action() == old_actions[j].action(),
                        forall|k: int| 0 <= k < due.len() ==> due[k] < i,
                        forall|k: int, l: int| 0 <= k < l < due.len() ==> due[k] < due[l],
                        forall|j: int| 0 <= j < i ==> (fires(old_actions[j]@, mode@, now) <==> due@.contains(j as usize)),
                    decreases n - i,
                {
                    let ghost due_before = due@;
                    let fire = self.actions[i].execute(mode, now);
                    if fire {
                        due.push(i);
                    }
                    proof {
                        assert forall|j: int| 0 <= j < i + 1 implies (fires(old_actions[j]@, mode@, now) <==> due@.contains(j as usize)) by {
                            if fire {
                                assert(due@ == due_before.push(i));
                                if j < i {
                                    if due_before.contains(j as usize) {
                                        let k = choose|k: int| 0 <= k < due_before.len() && due_before[k] == j as usize;
                                        assert(due@[k] == j as usize);
                                    }
                                    if due@.contains(j as usize) {
                                        let k = choose|k: int| 0 <= k < due@.len() && due@[k] == j as usize;
                                        assert(k < due_before.len());
                                        assert(due_before[k] == j as usize);
                                    }
                                } else {
                                    assert(due@[due_before.len() as int] == i);
                                }
                            } else {
                                assert(due@ == due_before);
                                if j == i && due@.contains(j as usize) {
                                    let k = choose|k: int| 0 <= k < due@.len() && due@[k] == j as usize;
                                }
                            }
                        }
                    }
                    i = i + 1;
                }
                proof {
                    assert(self@ =~= runtime_view_of(self.actions@));
                }
                Some(due)
            },
        }
    }

    /// Records that the action of executor `index`, dispatched at `at`, succeeded.
    pub fn record_success(&mut self, index: usize, at: u64)
        requires
            index < old(self)@.len(),
        ensures
            final(self)@ == old(self)@.update(
                index as int,
                ExecutorView { last_call: Some(at), ..old(self)@[index as int] },
            ),
            forall|i: int| 0 <= i < old(self)@.len() ==> final(self).action(i) == old(self).action(i),
    {
        let mut e = self.actions.remove(index);
        e.record_success(at);
        self.actions.insert(index, e);
        proof {
            assert(self@ =~= old(self)@.update(
                index as int,
                ExecutorView { last_call: Some(at), ..old(self)@[index as int] },
            ));
        }
    }
}

} // verus!
