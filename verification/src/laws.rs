//! The run-level laws of the dispatcher.
//!
//! The dispatcher itself only reacts to events ([`crate::dispatcher`]); what
//! a whole run computes is a property of the event sequence. This module
//! models a run abstractly: each intermediate value is labelled with the
//! multiset of submitted vertices it aggregates, a worker output is the
//! application of a previously dispatched task (`map` by `f`, `reduce` by
//! `g`), and the dispatcher's carry-pairing policy is transcribed from
//! [`crate::dispatcher::DispatcherState::spec_step`] — the correspondence is
//! proved in [`lemma_run_step_matches_dispatcher`]. The laws then say what
//! any drained run has computed: the carry aggregates every consumed vertex
//! exactly once, an empty input yields no carry (the null result), a single
//! input yields exactly its mapped value, and with integer addition as the
//! reducer the result is the sum of the mapped inputs.

use vstd::prelude::*;
use vstd::multiset::Multiset;
use crate::dispatcher::{DispatcherState, Event};
use crate::fold::{
    lemma_weighted_sum_add, lemma_weighted_sum_singleton, weighted_sum,
};

verus! {

broadcast use vstd::multiset::group_multiset_axioms;

/// An intermediate value together with the multiset of submitted vertices it
/// aggregates.
pub struct Labeled<V, R> {
    pub value: R,
    pub sources: Multiset<V>,
}

/// An in-flight task, with its operands labelled.
pub enum LabeledTask<V, R> {
    MapVertex(V),
    ReducePair(Labeled<V, R>, Labeled<V, R>),
}

/// What a worker returns for one task: `map` applies `f` to the vertex,
/// `reduce` applies `g` to the pair; the label unions the operands' sources.
pub open spec fn apply_task<V, R>(
    t: LabeledTask<V, R>,
    f: spec_fn(V) -> R,
    g: spec_fn(R, R) -> R,
) -> Labeled<V, R> {
    match t {
        LabeledTask::MapVertex(v) => Labeled { value: f(v), sources: Multiset::singleton(v) },
        LabeledTask::ReducePair(a, b) => Labeled {
            value: g(a.value, b.value),
            sources: a.sources.add(b.sources),
        },
    }
}

/// The submitted vertices a task will contribute to the result.
pub open spec fn task_sources<V, R>(t: LabeledTask<V, R>) -> Multiset<V> {
    match t {
        LabeledTask::MapVertex(v) => Multiset::singleton(v),
        LabeledTask::ReducePair(a, b) => a.sources.add(b.sources),
    }
}

/// The sources of every in-flight task together.
pub open spec fn flight_sources<V, R>(q: Seq<LabeledTask<V, R>>) -> Multiset<V>
    decreases q.len(),
{
    if q.len() == 0 {
        Multiset::empty()
    } else {
        task_sources(q[0]).add(flight_sources(q.drop_first()))
    }
}

/// The sources held by the carry, if any.
pub open spec fn carry_sources<V, R>(c: Option<Labeled<V, R>>) -> Multiset<V> {
    match c {
        None => Multiset::empty(),
        Some(l) => l.sources,
    }
}

/// The dispatcher-relevant state of a whole run.
pub struct RunState<V, R> {
    /// Vertices consumed from the input and dispatched as map tasks.
    pub submitted: Multiset<V>,
    /// Tasks dispatched whose output the dispatcher has not consumed.
    pub in_flight: Seq<LabeledTask<V, R>>,
    /// The single unpaired intermediate.
    pub carry: Option<Labeled<V, R>>,
    /// Whether a graceful shutdown was requested.
    pub winding_down: bool,
}

/// One event of a run, as the dispatcher consumes it.
pub enum RunEvent<V> {
    /// The dispatcher consumed vertex `v` and dispatched a map task for it.
    Submit(V),
    /// A worker finished the in-flight task at this position and the
    /// dispatcher consumed its output.
    Produce(int),
    /// The facade requested a graceful shutdown.
    Close,
}

/// The state a run starts from.
pub open spec fn run_init<V, R>() -> RunState<V, R> {
    RunState {
        submitted: Multiset::empty(),
        in_flight: Seq::empty(),
        carry: None,
        winding_down: false,
    }
}

/// Whether the event can happen in this state: an output can only arrive
/// for an in-flight task.
pub open spec fn event_enabled<V, R>(s: RunState<V, R>, ev: RunEvent<V>) -> bool {
    match ev {
        RunEvent::Submit(_) => true,
        RunEvent::Produce(i) => 0 <= i < s.in_flight.len(),
        RunEvent::Close => true,
    }
}

/// What one event does to a run: the transcription of the dispatcher's
/// policy. A consumed output is paired with the carry into a new reduce
/// task when the carry is present, and becomes the carry otherwise.
pub open spec fn run_step<V, R>(
    s: RunState<V, R>,
    ev: RunEvent<V>,
    f: spec_fn(V) -> R,
    g: spec_fn(R, R) -> R,
) -> RunState<V, R> {
    match ev {
        RunEvent::Submit(v) => RunState {
            submitted: s.submitted.insert(v),
            in_flight: s.in_flight.push(LabeledTask::MapVertex(v)),
            ..s
        },
        RunEvent::Produce(i) => {
            let out = apply_task(s.in_flight[i], f, g);
            let rest = s.in_flight.remove(i);
            match s.carry {
                None => RunState { in_flight: rest, carry: Some(out), ..s },
                Some(held) => RunState {
                    in_flight: rest.push(LabeledTask::ReducePair(held, out)),
                    carry: None,
                    ..s
                },
            }
        },
        RunEvent::Close => RunState { winding_down: true, ..s },
    }
}

/// The state after a whole event sequence.
pub open spec fn run_trace<V, R>(
    s: RunState<V, R>,
    tr: Seq<RunEvent<V>>,
    f: spec_fn(V) -> R,
    g: spec_fn(R, R) -> R,
) -> RunState<V, R>
    decreases tr.len(),
{
    if tr.len() == 0 {
        s
    } else {
        run_trace(run_step(s, tr[0], f, g), tr.drop_first(), f, g)
    }
}

/// Whether every event of the sequence is enabled when its turn comes.
pub open spec fn trace_enabled<V, R>(
    s: RunState<V, R>,
    tr: Seq<RunEvent<V>>,
    f: spec_fn(V) -> R,
    g: spec_fn(R, R) -> R,
) -> bool
    decreases tr.len(),
{
    tr.len() == 0 || (event_enabled(s, tr[0]) && trace_enabled(
        run_step(s, tr[0], f, g),
        tr.drop_first(),
        f,
        g,
    ))
}

/// How many unpaired intermediates a run state holds. The representation
/// admits no second one: the count is never above one.
pub open spec fn carry_count<V, R>(s: RunState<V, R>) -> nat {
    match s.carry {
        None => 0,
        Some(_) => 1,
    }
}

/// At every observation point the dispatcher holds zero or one unpaired
/// intermediate. The carry is an `Option`, so this is a fact of the
/// representation itself, stated once for every state.
pub proof fn law_carry_at_most_one<V, R>(s: RunState<V, R>)
    ensures
        carry_count(s) <= 1,
{
}

/// A property of labelled values that survives the run: it holds of every
/// mapped vertex and is preserved by reducing two values that have it.
pub open spec fn respects<V, R>(
    p: spec_fn(Labeled<V, R>) -> bool,
    f: spec_fn(V) -> R,
    g: spec_fn(R, R) -> R,
) -> bool {
    &&& forall|v: V| #[trigger] p(Labeled { value: f(v), sources: Multiset::singleton(v) })
    &&& forall|a: Labeled<V, R>, b: Labeled<V, R>|
        p(a) && p(b) ==> #[trigger] p(
            Labeled { value: g(a.value, b.value), sources: a.sources.add(b.sources) },
        )
}

/// Both operands of an in-flight reduce task satisfy `p`.
pub open spec fn task_ok<V, R>(t: LabeledTask<V, R>, p: spec_fn(Labeled<V, R>) -> bool) -> bool {
    match t {
        LabeledTask::MapVertex(_) => true,
        LabeledTask::ReducePair(a, b) => p(a) && p(b),
    }
}

/// The run invariant: every submitted vertex is accounted for exactly once,
/// either in the carry or in an in-flight task, and every labelled value in
/// the state satisfies `p`.
pub open spec fn run_inv<V, R>(s: RunState<V, R>, p: spec_fn(Labeled<V, R>) -> bool) -> bool {
    &&& carry_sources(s.carry).add(flight_sources(s.in_flight)) == s.submitted
    &&& (s.carry matches Some(l) ==> p(l))
    &&& forall|i: int| 0 <= i < s.in_flight.len() ==> #[trigger] task_ok(s.in_flight[i], p)
}

proof fn lemma_flight_sources_push<V, R>(q: Seq<LabeledTask<V, R>>, t: LabeledTask<V, R>)
    ensures
        flight_sources(q.push(t)) == flight_sources(q).add(task_sources(t)),
    decreases q.len(),
{
    if q.len() == 0 {
        assert(q.push(t)[0] == t);
        assert(q.push(t).drop_first() =~= Seq::<LabeledTask<V, R>>::empty());
        assert(flight_sources(Seq::<LabeledTask<V, R>>::empty()) == Multiset::<V>::empty());
        assert(task_sources(t).add(Multiset::empty()) =~= Multiset::empty().add(
            task_sources(t),
        ));
    } else {
        assert(q.push(t)[0] == q[0]);
        assert(q.push(t).drop_first() =~= q.drop_first().push(t));
        lemma_flight_sources_push(q.drop_first(), t);
        assert(task_sources(q[0]).add(
            flight_sources(q.drop_first()).add(task_sources(t)),
        ) =~= task_sources(q[0]).add(flight_sources(q.drop_first())).add(task_sources(t)));
    }
}

proof fn lemma_flight_sources_remove<V, R>(q: Seq<LabeledTask<V, R>>, i: int)
    requires
        0 <= i < q.len(),
    ensures
        flight_sources(q) == task_sources(q[i]).add(flight_sources(q.remove(i))),
    decreases q.len(),
{
    if i == 0 {
        assert(q.remove(0) =~= q.drop_first());
    } else {
        assert(q.drop_first()[i - 1] == q[i]);
        lemma_flight_sources_remove(q.drop_first(), i - 1);
        assert(q.remove(i).drop_first() =~= q.drop_first().remove(i - 1));
        assert(q.remove(i)[0] == q[0]);
        assert(q.remove(i).len() == q.len() - 1);
        assert(task_sources(q[0]).add(
            task_sources(q[i]).add(flight_sources(q.drop_first().remove(i - 1))),
        ) =~= task_sources(q[i]).add(
            task_sources(q[0]).add(flight_sources(q.drop_first().remove(i - 1))),
        ));
    }
}

proof fn lemma_step_preserves_inv<V, R>(
    s: RunState<V, R>,
    ev: RunEvent<V>,
    p: spec_fn(Labeled<V, R>) -> bool,
    f: spec_fn(V) -> R,
    g: spec_fn(R, R) -> R,
)
    requires
        run_inv(s, p),
        event_enabled(s, ev),
        respects(p, f, g),
    ensures
        run_inv(run_step(s, ev, f, g), p),
{
    let s2 = run_step(s, ev, f, g);
    match ev {
        RunEvent::Submit(v) => {
            lemma_flight_sources_push(s.in_flight, LabeledTask::MapVertex(v));
            assert(carry_sources(s.carry).add(flight_sources(s2.in_flight)) =~= s.submitted.insert(
                v,
            ));
            assert forall|i: int| 0 <= i < s2.in_flight.len() implies #[trigger] task_ok(
                s2.in_flight[i],
                p,
            ) by {
                if i < s.in_flight.len() {
                    assert(s2.in_flight[i] == s.in_flight[i]);
                } else {
                    assert(s2.in_flight[i] == LabeledTask::<V, R>::MapVertex(v));
                }
            }
        },
        RunEvent::Produce(i) => {
            let t = s.in_flight[i];
            let out = apply_task(t, f, g);
            let rest = s.in_flight.remove(i);
            lemma_flight_sources_remove(s.in_flight, i);
            s.in_flight.remove_ensures(i);
            assert(task_ok(t, p));
            assert(p(out)) by {
                match t {
                    LabeledTask::MapVertex(v) => {
                        assert(p(Labeled { value: f(v), sources: Multiset::singleton(v) }));
                    },
                    LabeledTask::ReducePair(a, b) => {
                        assert(p(
                            Labeled {
                                value: g(a.value, b.value),
                                sources: a.sources.add(b.sources),
                            },
                        ));
                    },
                }
            }
            assert(out.sources == task_sources(t));
            match s.carry {
                None => {
                    assert(carry_sources(s2.carry).add(flight_sources(s2.in_flight))
                        =~= s.submitted);
                    assert forall|j: int| 0 <= j < s2.in_flight.len() implies #[trigger] task_ok(
                        s2.in_flight[j],
                        p,
                    ) by {
                        if j < i {
                            assert(s2.in_flight[j] == s.in_flight[j]);
                        } else {
                            assert(s2.in_flight[j] == s.in_flight[j + 1]);
                        }
                    }
                },
                Some(held) => {
                    lemma_flight_sources_push(rest, LabeledTask::ReducePair(held, out));
                    assert(carry_sources(s2.carry).add(flight_sources(s2.in_flight))
                        =~= s.submitted);
                    assert forall|j: int| 0 <= j < s2.in_flight.len() implies #[trigger] task_ok(
                        s2.in_flight[j],
                        p,
                    ) by {
                        if j < rest.len() {
                            if j < i {
                                assert(s2.in_flight[j] == s.in_flight[j]);
                            } else {
                                assert(s2.in_flight[j] == s.in_flight[j + 1]);
                            }
                        } else {
                            assert(s2.in_flight[j] == LabeledTask::<V, R>::ReducePair(held, out));
                        }
                    }
                },
            }
        },
        RunEvent::Close => {},
    }
}

proof fn lemma_trace_preserves_inv<V, R>(
    s: RunState<V, R>,
    tr: Seq<RunEvent<V>>,
    p: spec_fn(Labeled<V, R>) -> bool,
    f: spec_fn(V) -> R,
    g: spec_fn(R, R) -> R,
)
    requires
        run_inv(s, p),
        trace_enabled(s, tr, f, g),
        respects(p, f, g),
    ensures
        run_inv(run_trace(s, tr, f, g), p),
    decreases tr.len(),
{
    if tr.len() > 0 {
        lemma_step_preserves_inv(s, tr[0], p, f, g);
        lemma_trace_preserves_inv(run_step(s, tr[0], f, g), tr.drop_first(), p, f, g);
    }
}

proof fn lemma_init_inv<V, R>(p: spec_fn(Labeled<V, R>) -> bool)
    ensures
        run_inv(run_init::<V, R>(), p),
{
    assert(carry_sources(run_init::<V, R>().carry).add(
        flight_sources(run_init::<V, R>().in_flight),
    ) =~= Multiset::<V>::empty());
}

/// Every labelled value a run ever holds aggregates at least one vertex.
pub open spec fn nonempty_label<V, R>() -> spec_fn(Labeled<V, R>) -> bool {
    |l: Labeled<V, R>| l.sources.len() >= 1
}

proof fn lemma_nonempty_respects<V, R>(f: spec_fn(V) -> R, g: spec_fn(R, R) -> R)
    ensures
        respects(nonempty_label::<V, R>(), f, g),
{
}

/// The law of a drained run: once every in-flight task's output has been
/// consumed, the carry aggregates every consumed vertex exactly once, and
/// it is absent exactly when no vertex was ever consumed — the run's result
/// is then the null value.
pub proof fn law_drained_run_aggregates_all<V, R>(
    tr: Seq<RunEvent<V>>,
    f: spec_fn(V) -> R,
    g: spec_fn(R, R) -> R,
)
    requires
        trace_enabled(run_init::<V, R>(), tr, f, g),
        run_trace(run_init::<V, R>(), tr, f, g).in_flight.len() == 0,
    ensures
        ({
            let end = run_trace(run_init::<V, R>(), tr, f, g);
            &&& (end.carry matches Some(l) ==> l.sources == end.submitted)
            &&& (end.carry is None <==> end.submitted.len() == 0)
        }),
{
    let end = run_trace(run_init::<V, R>(), tr, f, g);
    lemma_init_inv(nonempty_label::<V, R>());
    lemma_nonempty_respects::<V, R>(f, g);
    lemma_trace_preserves_inv(run_init::<V, R>(), tr, nonempty_label::<V, R>(), f, g);
    match end.carry {
        None => {
            assert(carry_sources(end.carry).add(flight_sources(end.in_flight)) =~= Multiset::<
                V,
            >::empty());
        },
        Some(l) => {
            assert(l.sources.add(flight_sources(end.in_flight)) =~= l.sources);
            assert(l.sources.len() >= 1);
        },
    }
}

/// The empty-input law: a drained run that never consumed a vertex ends
/// without a carry, so its result is the null value.
pub proof fn law_empty_input_yields_null<V, R>(
    tr: Seq<RunEvent<V>>,
    f: spec_fn(V) -> R,
    g: spec_fn(R, R) -> R,
)
    requires
        trace_enabled(run_init::<V, R>(), tr, f, g),
        run_trace(run_init::<V, R>(), tr, f, g).in_flight.len() == 0,
        run_trace(run_init::<V, R>(), tr, f, g).submitted.len() == 0,
    ensures
        run_trace(run_init::<V, R>(), tr, f, g).carry is None,
{
    law_drained_run_aggregates_all(tr, f, g);
}

/// Values whose label is a single vertex are exactly that vertex's mapped
/// value; larger labels are unconstrained.
pub open spec fn single_mapped<V, R>(f: spec_fn(V) -> R) -> spec_fn(Labeled<V, R>) -> bool {
    |l: Labeled<V, R>|
        l.sources.len() >= 1 && (l.sources.len() == 1 ==> l.value == f(l.sources.choose()))
}

proof fn lemma_single_mapped_respects<V, R>(f: spec_fn(V) -> R, g: spec_fn(R, R) -> R)
    ensures
        respects(single_mapped::<V, R>(f), f, g),
{
    let p = single_mapped::<V, R>(f);
    assert forall|v: V| #[trigger] p(
        Labeled { value: f(v), sources: Multiset::singleton(v) },
    ) by {
        let m = Multiset::singleton(v);
        assert(m.len() == 1);
        assert(m.count(m.choose()) > 0);
        assert(m.choose() == v);
    }
}

/// The single-input law: a drained run that consumed exactly one vertex
/// ends with that vertex's mapped value as its carry — no reduction ever
/// touched it, whatever the reducer is.
pub proof fn law_single_input_yields_mapped<V, R>(
    tr: Seq<RunEvent<V>>,
    f: spec_fn(V) -> R,
    g: spec_fn(R, R) -> R,
)
    requires
        trace_enabled(run_init::<V, R>(), tr, f, g),
        run_trace(run_init::<V, R>(), tr, f, g).in_flight.len() == 0,
        run_trace(run_init::<V, R>(), tr, f, g).submitted.len() == 1,
    ensures
        ({
            let end = run_trace(run_init::<V, R>(), tr, f, g);
            &&& end.carry matches Some(l)
            &&& (end.carry matches Some(l) ==> l.sources == end.submitted && l.value == f(
                end.submitted.choose(),
            ))
        }),
{
    let end = run_trace(run_init::<V, R>(), tr, f, g);
    law_drained_run_aggregates_all(tr, f, g);
    lemma_init_inv(single_mapped::<V, R>(f));
    lemma_single_mapped_respects::<V, R>(f, g);
    lemma_trace_preserves_inv(run_init::<V, R>(), tr, single_mapped::<V, R>(f), f, g);
}

/// How many reduce tasks the dispatcher creates along the trace: one for
/// each output that arrives while a carry is held.
pub open spec fn reduces_created<V, R>(
    s: RunState<V, R>,
    tr: Seq<RunEvent<V>>,
    f: spec_fn(V) -> R,
    g: spec_fn(R, R) -> R,
) -> nat
    decreases tr.len(),
{
    if tr.len() == 0 {
        0
    } else {
        let here: nat = match tr[0] {
            RunEvent::Produce(_) => if s.carry is Some {
                1
            } else {
                0
            },
            _ => 0,
        };
        here + reduces_created(run_step(s, tr[0], f, g), tr.drop_first(), f, g)
    }
}

proof fn lemma_submitted_monotonic<V, R>(
    s: RunState<V, R>,
    tr: Seq<RunEvent<V>>,
    f: spec_fn(V) -> R,
    g: spec_fn(R, R) -> R,
)
    requires
        trace_enabled(s, tr, f, g),
    ensures
        run_trace(s, tr, f, g).submitted.len() >= s.submitted.len(),
    decreases tr.len(),
{
    if tr.len() > 0 {
        lemma_submitted_monotonic(run_step(s, tr[0], f, g), tr.drop_first(), f, g);
    }
}

proof fn lemma_few_inputs_no_reduce<V, R>(
    s: RunState<V, R>,
    tr: Seq<RunEvent<V>>,
    f: spec_fn(V) -> R,
    g: spec_fn(R, R) -> R,
)
    requires
        run_inv(s, nonempty_label::<V, R>()),
        trace_enabled(s, tr, f, g),
        run_trace(s, tr, f, g).submitted.len() <= 1,
    ensures
        reduces_created(s, tr, f, g) == 0,
    decreases tr.len(),
{
    if tr.len() > 0 {
        let s2 = run_step(s, tr[0], f, g);
        lemma_nonempty_respects::<V, R>(f, g);
        lemma_step_preserves_inv(s, tr[0], nonempty_label::<V, R>(), f, g);
        lemma_few_inputs_no_reduce(s2, tr.drop_first(), f, g);
        match tr[0] {
            RunEvent::Produce(i) => {
                if s.carry is Some {
                    // a held carry and an in-flight task each cover at least
                    // one vertex, so two were already consumed
                    lemma_flight_sources_remove(s.in_flight, i);
                    assert(task_ok(s.in_flight[i], nonempty_label::<V, R>()));
                    assert(task_sources(s.in_flight[i]).len() >= 1);
                    assert(s.submitted.len() >= 2);
                    lemma_submitted_monotonic(s2, tr.drop_first(), f, g);
                    assert(false);
                }
            },
            _ => {},
        }
    }
}

/// The other half of the single-input law: with at most one consumed
/// vertex, the dispatcher never creates a reduce task — the reducer is
/// invoked zero times.
pub proof fn law_single_input_no_reduce<V, R>(
    tr: Seq<RunEvent<V>>,
    f: spec_fn(V) -> R,
    g: spec_fn(R, R) -> R,
)
    requires
        trace_enabled(run_init::<V, R>(), tr, f, g),
        run_trace(run_init::<V, R>(), tr, f, g).submitted.len() <= 1,
    ensures
        reduces_created(run_init::<V, R>(), tr, f, g) == 0,
{
    lemma_init_inv(nonempty_label::<V, R>());
    lemma_few_inputs_no_reduce(run_init::<V, R>(), tr, f, g);
}

/// Integer addition, as a reducer.
pub open spec fn int_add() -> spec_fn(int, int) -> int {
    |a: int, b: int| a + b
}

/// Values carry the sum of `f` over their label.
pub open spec fn summed_label<V>(f: spec_fn(V) -> int) -> spec_fn(Labeled<V, int>) -> bool {
    |l: Labeled<V, int>| l.sources.len() >= 1 && l.value == weighted_sum(l.sources, f)
}

proof fn lemma_summed_respects<V>(f: spec_fn(V) -> int)
    ensures
        respects(summed_label::<V>(f), f, int_add()),
{
    let p = summed_label::<V>(f);
    let g = int_add();
    assert forall|v: V| #[trigger] p(
        Labeled { value: f(v), sources: Multiset::singleton(v) },
    ) by {
        lemma_weighted_sum_singleton(v, f);
    }
    assert forall|a: Labeled<V, int>, b: Labeled<V, int>| p(a) && p(b) implies #[trigger] p(
        Labeled { value: g(a.value, b.value), sources: a.sources.add(b.sources) },
    ) by {
        lemma_weighted_sum_add(a.sources, b.sources, f);
    }
}

/// The sum law: when the reducer is integer addition, a drained run's
/// result is the sum of `f` over every consumed vertex, counted with
/// multiplicity — whatever order workers finished in.
pub proof fn law_sum_of_mapped_inputs<V>(tr: Seq<RunEvent<V>>, f: spec_fn(V) -> int)
    requires
        trace_enabled(run_init::<V, int>(), tr, f, int_add()),
        run_trace(run_init::<V, int>(), tr, f, int_add()).in_flight.len() == 0,
    ensures
        ({
            let end = run_trace(run_init::<V, int>(), tr, f, int_add());
            match end.carry {
                None => end.submitted.len() == 0,
                Some(l) => l.value == weighted_sum(end.submitted, f),
            }
        }),
{
    let end = run_trace(run_init::<V, int>(), tr, f, int_add());
    law_drained_run_aggregates_all(tr, f, int_add());
    lemma_init_inv(summed_label::<V>(f));
    lemma_summed_respects::<V>(f);
    lemma_trace_preserves_inv(run_init::<V, int>(), tr, summed_label::<V>(f), f, int_add());
}

/// The abstract run state seen as a dispatcher state: the carry holds the
/// same value, the pending count is the number of in-flight tasks, and
/// winding down is the graceful-shutdown flag.
pub open spec fn corresponds<V, R>(s: RunState<V, R>, d: DispatcherState<R>) -> bool {
    &&& d.pending == s.in_flight.len()
    &&& d.graceful_shutdown == s.winding_down
    &&& (match (s.carry, d.carry) {
        (Option::None, Option::None) => true,
        (Option::Some(l), Option::Some(r)) => l.value == r,
        _ => false,
    })
}

/// The dispatcher step each abstract event stands for, including the
/// accounting for the task the step's action dispatches.
pub open spec fn dispatcher_after<V, R>(
    s: RunState<V, R>,
    d: DispatcherState<R>,
    ev: RunEvent<V>,
    f: spec_fn(V) -> R,
    g: spec_fn(R, R) -> R,
) -> DispatcherState<R> {
    match ev {
        RunEvent::Submit(v) => d.spec_step(Event::<V, R>::InputVertex(v)).0,
        RunEvent::Produce(i) => d.spec_step(
            Event::<V, R>::WorkerOutput(apply_task(s.in_flight[i], f, g).value),
        ).0,
        RunEvent::Close => d.spec_step(Event::<V, R>::ShutdownRequest).0,
    }
}

/// The abstract run machine is the dispatcher's own policy: from
/// corresponding states, one abstract event and the matching dispatcher
/// step lead to corresponding states again.
pub proof fn lemma_run_step_matches_dispatcher<V, R>(
    s: RunState<V, R>,
    d: DispatcherState<R>,
    ev: RunEvent<V>,
    f: spec_fn(V) -> R,
    g: spec_fn(R, R) -> R,
)
    requires
        corresponds(s, d),
        event_enabled(s, ev),
        d.wf(),
        d.issued < usize::MAX,
    ensures
        corresponds(run_step(s, ev, f, g), dispatcher_after(s, d, ev, f, g)),
{
    match ev {
        RunEvent::Submit(v) => {
            assert(run_step(s, ev, f, g).in_flight.len() == s.in_flight.len() + 1);
        },
        RunEvent::Produce(i) => {
            s.in_flight.remove_ensures(i);
        },
        RunEvent::Close => {},
    }
}

} // verus!
