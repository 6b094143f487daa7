use vstd::prelude::*;

verus! {

/// The coordinator's state in mathematical terms.
pub struct CoordinatorView {
    /// Requests whose worker has been started and has not yet reported.
    pub capturing: Set<u64>,
    /// Requests that are done, with or without an event.
    pub retired: Set<u64>,
    /// Every identity that the coordinator has accepted.
    pub submitted: Set<u64>,
    /// The requests whose event was fired, in firing order.
    pub fired: Seq<u64>,
}

impl CoordinatorView {
    /// The coordinator has never seen this identity.
    pub open spec fn is_new(self, id: u64) -> bool {
        !self.submitted.contains(id)
    }

    /// The state's own consistency: no identity is both capturing and
    /// retired, the accepted identities are exactly those two groups, and
    /// every fired identity is retired and fired once.
    pub open spec fn consistent(self) -> bool {
        &&& self.capturing.disjoint(self.retired)
        &&& self.submitted == self.capturing.union(self.retired)
        &&& self.fired.no_duplicates()
        &&& forall|i: int| 0 <= i < self.fired.len() ==> self.retired.contains(#[trigger] self.fired[i])
    }
}

/// One call on the coordinator, as far as it changes the state: a request
/// dispatched (with or without a window handle), or a worker's report taken
/// (and whether it fired the event).
pub enum Step {
    Dispatch { id: u64, has_handle: bool },
    Complete { id: u64, fires: bool },
}

/// The state before any request.
pub open spec fn initial() -> CoordinatorView {
    CoordinatorView {
        capturing: Set::empty(),
        retired: Set::empty(),
        submitted: Set::empty(),
        fired: Seq::empty(),
    }
}

/// The state after one step. A known identity is not dispatched again; a
/// report for an identity that is not capturing changes nothing; any other
/// report retires its request, and records its event if one was fired.
pub open spec fn next(v: CoordinatorView, s: Step) -> CoordinatorView {
    match s {
        Step::Dispatch { id, has_handle } => if !v.is_new(id) {
            v
        } else if has_handle {
            CoordinatorView {
                capturing: v.capturing.insert(id),
                submitted: v.submitted.insert(id),
                ..v
            }
        } else {
            CoordinatorView {
                retired: v.retired.insert(id),
                submitted: v.submitted.insert(id),
                ..v
            }
        },
        Step::Complete { id, fires } => if !v.capturing.contains(id) {
            v
        } else {
            CoordinatorView {
                capturing: v.capturing.remove(id),
                retired: v.retired.insert(id),
                submitted: v.submitted,
                fired: if fires {
                    v.fired.push(id)
                } else {
                    v.fired
                },
            }
        },
    }
}

/// The state after a sequence of steps from `v`.
pub open spec fn run(v: CoordinatorView, steps: Seq<Step>) -> CoordinatorView
    decreases steps.len(),
{
    if steps.len() == 0 {
        v
    } else {
        next(run(v, steps.drop_last()), steps.last())
    }
}

/// The step dispatches the identity `id`.
pub open spec fn dispatches(s: Step, id: u64) -> bool {
    s matches Step::Dispatch { id: d, .. } && d == id
}

/// The identities of the dispatch steps of a sequence.
pub open spec fn dispatched(steps: Seq<Step>) -> Set<u64> {
    Set::new(|id: u64| exists|i: int| 0 <= i < steps.len() && #[trigger] dispatches(steps[i], id))
}

/// A step keeps the state consistent, and a report fires only for an
/// identity that has not fired before.
pub proof fn lemma_next_consistent(v: CoordinatorView, s: Step)
    requires
        v.consistent(),
    ensures
        next(v, s).consistent(),
        s matches Step::Complete { id, fires } ==> (fires && v.capturing.contains(id) ==> !v.fired.contains(
            id,
        )),
{
    let w = next(v, s);
    match s {
        Step::Dispatch { id, has_handle } => {
            if v.is_new(id) {
                assert(w.submitted =~= w.capturing.union(w.retired));
                assert forall|i: int| 0 <= i < w.fired.len() implies w.retired.contains(#[trigger] w.fired[i]) by {
                    assert(v.retired.contains(v.fired[i]));
                }
            }
        },
        Step::Complete { id, fires } => {
            if v.capturing.contains(id) {
                assert(w.submitted =~= w.capturing.union(w.retired));
                assert(!v.fired.contains(id)) by {
                    if v.fired.contains(id) {
                        let k = choose|k: int| 0 <= k < v.fired.len() && v.fired[k] == id;
                        assert(v.retired.contains(v.fired[k]));
                    }
                }
                assert forall|i: int| 0 <= i < w.fired.len() implies w.retired.contains(#[trigger] w.fired[i]) by {
                    if i < v.fired.len() {
                        assert(w.fired[i] == v.fired[i]);
                        assert(v.retired.contains(v.fired[i]));
                    }
                }
                if fires {
                    assert forall|a: int, b: int| 0 <= a < b < w.fired.len() implies w.fired[a] != w.fired[b] by {
                        if b == v.fired.len() {
                            assert(v.fired.contains(v.fired[a]));
                        }
                    }
                }
            }
        },
    }
}

/// Whatever sequence of dispatches and reports a coordinator goes through,
/// each request's event is fired at most once, and only for a request that
/// is retired.
pub proof fn lemma_run_fires_at_most_once(steps: Seq<Step>)
    ensures
        run(initial(), steps).fired.no_duplicates(),
        forall|i: int|
            0 <= i < run(initial(), steps).fired.len() ==> run(initial(), steps).retired.contains(
                #[trigger] run(initial(), steps).fired[i],
            ),
{
    lemma_run_consistent(steps);
}

/// Whatever sequence of dispatches and reports a coordinator goes through,
/// the accepted identities are exactly the dispatched ones, each of them
/// capturing or retired; once every worker has reported, the retired
/// identities are exactly the dispatched ones.
pub proof fn lemma_run_retires_all_submitted(steps: Seq<Step>)
    ensures
        run(initial(), steps).submitted == dispatched(steps),
        run(initial(), steps).submitted == run(initial(), steps).capturing.union(
            run(initial(), steps).retired,
        ),
        run(initial(), steps).capturing.is_empty() ==> run(initial(), steps).retired == dispatched(
            steps,
        ),
{
    lemma_run_consistent(steps);
    lemma_run_submitted(steps);
    let v = run(initial(), steps);
    if v.capturing.is_empty() {
        assert(v.retired =~= v.submitted);
    }
}

proof fn lemma_run_consistent(steps: Seq<Step>)
    ensures
        run(initial(), steps).consistent(),
    decreases steps.len(),
{
    if steps.len() == 0 {
        assert(initial().submitted =~= initial().capturing.union(initial().retired));
    } else {
        lemma_run_consistent(steps.drop_last());
        lemma_next_consistent(run(initial(), steps.drop_last()), steps.last());
    }
}

proof fn lemma_run_submitted(steps: Seq<Step>)
    ensures
        run(initial(), steps).submitted == dispatched(steps),
    decreases steps.len(),
{
    if steps.len() == 0 {
        assert(dispatched(steps) =~= Set::empty());
    } else {
        let prev = steps.drop_last();
        lemma_run_submitted(prev);
        let v = run(initial(), prev);
        assert forall|id: u64| #[trigger] dispatched(steps).contains(id) == next(v, steps.last()).submitted.contains(id) by {
            if dispatched(steps).contains(id) {
                let i = choose|i: int| 0 <= i < steps.len() && #[trigger] dispatches(steps[i], id);
                if i < prev.len() {
                    assert(prev[i] == steps[i]);
                    assert(dispatched(prev).contains(id));
                }
            }
            if dispatched(prev).contains(id) {
                let i = choose|i: int| 0 <= i < prev.len() && #[trigger] dispatches(prev[i], id);
                assert(steps[i] == prev[i]);
                assert(dispatches(steps[i], id));
            }
            if dispatches(steps.last(), id) {
                assert(dispatches(steps[steps.len() - 1], id));
            }
        }
        assert(dispatched(steps) =~= next(v, steps.last()).submitted);
    }
}

} // verus!
