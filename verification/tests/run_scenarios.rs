use std::collections::VecDeque;

use mapreduce_core::dispatcher::{Action, DispatcherState, Event, RunOutcome, WorkerTask};
use mapreduce_core::errors::MapReduceError;
use mapreduce_core::task::call_outcome;

struct SimResult<R> {
    outcome: RunOutcome<R>,
    error: Option<MapReduceError>,
    reduce_calls: usize,
    issued: usize,
    completed: usize,
    pending: usize,
    progress: usize,
}

/// Drive one whole run through the dispatcher, single-threaded: every
/// dispatched task is executed at once by the given closures and its output
/// queued, mirroring the event loop's priority order (errors first, then
/// worker outputs, then inputs, then the shutdown request once the caller
/// has nothing more to submit).
fn simulate<V, R>(
    inputs: Vec<V>,
    map: impl Fn(V) -> Result<R, String>,
    reduce: impl Fn(R, R) -> Result<R, String>,
) -> SimResult<R> {
    let mut d: DispatcherState<R> = DispatcherState::new();
    let mut input = VecDeque::from(inputs);
    let mut outputs: VecDeque<R> = VecDeque::new();
    let mut error: Option<MapReduceError> = None;
    let mut error_delivered = false;
    let mut shutdown_sent = false;
    let mut reduce_calls = 0usize;

    loop {
        let event: Event<V, R> = if error.is_some() && !error_delivered {
            error_delivered = true;
            Event::WorkerError
        } else if let Some(value) = outputs.pop_front() {
            Event::WorkerOutput(value)
        } else if let Some(vertex) = input.pop_front() {
            Event::InputVertex(vertex)
        } else if !shutdown_sent {
            shutdown_sent = true;
            Event::ShutdownRequest
        } else {
            Event::Idle
        };

        let action = d.step(event);
        if let Action::Dispatch(task) = action {
            let kind = task.kind();
            let result = match task {
                WorkerTask::MapVertex(v) => map(v),
                WorkerTask::ReducePair(a, b) => {
                    reduce_calls += 1;
                    reduce(a, b)
                }
            };
            match call_outcome(kind, result) {
                Ok(out) => outputs.push_back(out),
                Err(e) => {
                    if error.is_none() {
                        error = Some(e);
                    }
                }
            }
        }
        if d.should_stop() {
            break;
        }
    }

    let issued = d.issued;
    let completed = d.completed;
    let pending = d.pending;
    let progress = d.progress;
    let outcome = d.into_outcome();
    SimResult { outcome, error, reduce_calls, issued, completed, pending, progress }
}

fn unwrap_value<R>(outcome: RunOutcome<R>) -> Option<R> {
    match outcome {
        RunOutcome::Complete(v) => v,
        RunOutcome::Failed => panic!("run failed where success was expected"),
    }
}

#[test]
fn count_one_thousand_vertices() {
    let inputs: Vec<u64> = (0..1000).collect();
    let sim = simulate(inputs, |_v| Ok(1i64), |a, b| Ok(a + b));
    assert_eq!(unwrap_value(sim.outcome), Some(1000i64));
    assert!(sim.error.is_none());
    assert_eq!(sim.reduce_calls, 999);
    assert_eq!(sim.progress, 1000);
}

#[test]
fn max_of_weights() {
    let weights: Vec<i64> = vec![3, 7, 2, 9, 5];
    let sim = simulate(weights, |v| Ok(v), |a, b| Ok(if a > b { a } else { b }));
    assert_eq!(unwrap_value(sim.outcome), Some(9i64));
}

#[test]
fn empty_input_yields_null() {
    let sim = simulate(Vec::<u64>::new(), |_v| Ok(1i64), |a, b| Ok(a + b));
    assert_eq!(unwrap_value(sim.outcome), None);
    assert_eq!(sim.reduce_calls, 0);
    assert_eq!(sim.progress, 0);
}

#[test]
fn single_input_yields_mapped_value_and_no_reduce() {
    let sim = simulate(
        vec![String::from("abc")],
        |v| Ok(v),
        |a, b| Ok(format!("{}{}", a, b)),
    );
    assert_eq!(unwrap_value(sim.outcome), Some(String::from("abc")));
    assert_eq!(sim.reduce_calls, 0);
}

#[test]
fn map_fault_on_seventh_invocation_fails_the_run() {
    let inputs: Vec<u64> = (0..20).collect();
    let calls = std::cell::Cell::new(0usize);
    let sim = simulate(
        inputs,
        |v| {
            calls.set(calls.get() + 1);
            if calls.get() == 7 {
                Err(String::from("script raised"))
            } else {
                Ok(v as i64)
            }
        },
        |a, b| Ok(a + b),
    );
    assert!(matches!(sim.outcome, RunOutcome::Failed));
    match sim.error {
        Some(MapReduceError::MapCall { cause }) => assert_eq!(cause, "script raised"),
        other => panic!("expected a map-call error, got {:?}", other.is_some()),
    }
}

#[test]
fn reduce_fault_fails_the_run() {
    let inputs: Vec<u64> = vec![1, 2];
    let sim = simulate(
        inputs,
        |v| Ok(v as i64),
        |_a, _b| Err(String::from("bad reducer")),
    );
    assert!(matches!(sim.outcome, RunOutcome::Failed));
    assert!(matches!(sim.error, Some(MapReduceError::ReduceCall { .. })));
}

#[test]
fn concat_single_worker_keeps_every_piece_once() {
    let inputs = vec![String::from("a"), String::from("b"), String::from("c")];
    let sim = simulate(inputs, |v| Ok(v), |a, b| Ok(format!("{}{}", a, b)));
    let out = unwrap_value(sim.outcome).expect("three inputs leave a result");
    assert_eq!(out.len(), 3);
    let mut chars: Vec<char> = out.chars().collect();
    chars.sort();
    assert_eq!(chars, vec!['a', 'b', 'c']);
}

#[test]
fn graceful_finish_balances_the_counters() {
    let inputs: Vec<u64> = (0..50).collect();
    let sim = simulate(inputs, |v| Ok(v as i64), |a, b| Ok(a + b));
    assert_eq!(unwrap_value(sim.outcome), Some((0..50).sum::<i64>()));
    assert_eq!(sim.pending, 0);
    assert_eq!(sim.issued, sim.completed);
    assert_eq!(sim.issued, 50 + sim.reduce_calls);
}

#[test]
fn sum_matches_over_shuffled_output_order() {
    // Deliver the two map outputs in the opposite order by driving the
    // dispatcher by hand: the sum must not care which worker finished first.
    let mut d: DispatcherState<i64> = DispatcherState::new();
    let a1 = d.step::<u64>(Event::InputVertex(10));
    let a2 = d.step::<u64>(Event::InputVertex(20));
    let (m1, m2) = match (a1, a2) {
        (Action::Dispatch(WorkerTask::MapVertex(x)), Action::Dispatch(WorkerTask::MapVertex(y))) => {
            (x as i64 * 2, y as i64 * 2)
        }
        _ => panic!("both inputs must dispatch map tasks"),
    };
    // second task's output arrives first
    assert!(matches!(d.step::<u64>(Event::WorkerOutput(m2)), Action::Wait));
    let reduce_task = d.step::<u64>(Event::WorkerOutput(m1));
    let reduced = match reduce_task {
        Action::Dispatch(WorkerTask::ReducePair(x, y)) => x + y,
        _ => panic!("the second output must pair with the carry"),
    };
    assert!(matches!(d.step::<u64>(Event::WorkerOutput(reduced)), Action::Wait));
    assert!(matches!(d.step::<u64>(Event::ShutdownRequest), Action::Wait));
    assert!(d.should_stop());
    match d.into_outcome() {
        RunOutcome::Complete(Some(total)) => assert_eq!(total, 60),
        _ => panic!("the run must complete with the sum"),
    }
}

#[test]
fn error_during_graceful_drain_forces_shutdown() {
    let mut d: DispatcherState<i64> = DispatcherState::new();
    let _ = d.step::<u64>(Event::InputVertex(1));
    assert!(matches!(d.step::<u64>(Event::ShutdownRequest), Action::Wait));
    // one task still pending, so the drain is not over yet
    assert!(!d.should_stop());
    let _ = d.step::<u64>(Event::WorkerError);
    // the upgrade to a forced shutdown is immediate, pending or not
    assert!(d.should_stop());
    assert!(matches!(d.into_outcome(), RunOutcome::Failed));
}

#[test]
fn failed_dispatch_discards_the_task_and_forces_shutdown() {
    let mut d: DispatcherState<i64> = DispatcherState::new();
    let action = d.step::<u64>(Event::InputVertex(1));
    let task = match action {
        Action::Dispatch(t) => t,
        _ => panic!("an input vertex must dispatch a map task"),
    };
    // all workers are gone: the send failed
    d.dispatch_failed(task.kind());
    assert!(d.force_shutdown);
    assert_eq!(d.pending, 0);
    assert_eq!(d.progress, 0);
    assert!(d.should_stop());
    assert!(matches!(d.into_outcome(), RunOutcome::Failed));
}

#[test]
fn carry_holds_at_most_one_value() {
    let mut d: DispatcherState<i64> = DispatcherState::new();
    assert!(d.carry.is_none());
    let _ = d.step::<u64>(Event::InputVertex(1));
    let _ = d.step::<u64>(Event::InputVertex(2));
    let _ = d.step::<u64>(Event::InputVertex(3));
    // first output becomes the carry
    let _ = d.step::<u64>(Event::WorkerOutput(10));
    assert_eq!(d.carry, Some(10));
    // the second is paired off at once: the carry never holds two
    let _ = d.step::<u64>(Event::WorkerOutput(20));
    assert!(d.carry.is_none());
    // and the next one is held again
    let _ = d.step::<u64>(Event::WorkerOutput(30));
    assert_eq!(d.carry, Some(30));
}
