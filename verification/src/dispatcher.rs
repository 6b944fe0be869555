use vstd::prelude::*;

verus! {

/// One task handed to a worker: apply `map` to one vertex, or `reduce` two
/// intermediate values into one.
pub enum WorkerTask<V, R> {
    MapVertex(V),
    ReducePair(R, R),
}

/// The shape of a task, without its payload. The dispatcher uses it to
/// account for a dispatched task whose send failed.
#[derive(Clone, Copy, PartialEq, Eq, Structural)]
pub enum TaskKind {
    MapVertex,
    ReducePair,
}

impl<V, R> WorkerTask<V, R> {
    /// The shape of the task at hand.
    pub open spec fn spec_kind(self) -> TaskKind {
        match self {
            WorkerTask::MapVertex(_) => TaskKind::MapVertex,
            WorkerTask::ReducePair(_, _) => TaskKind::ReducePair,
        }
    }

    /// The shape of the task at hand, for the accounting of a failed dispatch.
    pub fn kind(&self) -> (k: TaskKind)
        ensures
            k == self.spec_kind(),
    {
        match self {
            WorkerTask::MapVertex(_) => TaskKind::MapVertex,
            WorkerTask::ReducePair(_, _) => TaskKind::ReducePair,
        }
    }
}

/// One observation the dispatcher reacts to. The surrounding loop polls its
/// sources in exactly this order of priority: errors first, then the
/// shutdown request, then reporter ticks, then worker outputs, then fresh
/// input vertices, and `Idle` when nothing is queued.
pub enum Event<V, R> {
    /// A worker deposited an error on the error channel.
    WorkerError,
    /// The facade requested a graceful shutdown (end of input).
    ShutdownRequest,
    /// The reporter asked for a progress line.
    ReporterTick,
    /// A worker produced one intermediate value.
    WorkerOutput(R),
    /// The caller submitted one vertex.
    InputVertex(V),
    /// Nothing was queued on any source.
    Idle,
}

/// What the surrounding loop must do after a step.
pub enum Action<V, R> {
    /// Send the enclosed task to the worker queue; on failure call
    /// [`DispatcherState::dispatch_failed`].
    Dispatch(WorkerTask<V, R>),
    /// Emit this progress report.
    EmitReport(Report),
    /// Nothing to do for this event.
    Wait,
}

/// One progress line: purely advisory instrumentation.
#[derive(Clone, Copy, PartialEq, Eq, Structural)]
pub struct Report {
    /// How many reports were emitted before this one.
    pub report_num: usize,
    /// How many vertices were dispatched as map tasks so far.
    pub progress: usize,
    /// How many tasks are in flight.
    pub pending: usize,
    /// Whether a graceful shutdown was requested.
    pub winding_down: bool,
}

/// The dispatcher's whole state between two events.
pub struct DispatcherState<R> {
    /// Tasks handed to the worker queue whose output has not been consumed.
    pub pending: usize,
    /// The single unpaired intermediate value, if any.
    pub carry: Option<R>,
    /// Set when a worker reported an error or the worker queue broke.
    pub force_shutdown: bool,
    /// Set when the facade requested shutdown.
    pub graceful_shutdown: bool,
    /// Vertices dispatched as map tasks.
    pub progress: usize,
    /// Progress reports emitted.
    pub report_num: usize,
    /// Tasks dispatched in total.
    pub issued: usize,
    /// Worker outputs consumed in total.
    pub completed: usize,
}

impl<R> DispatcherState<R> {
    /// The pending count balances the issued and completed counters and is
    /// never driven below zero.
    pub open spec fn wf(self) -> bool {
        &&& self.completed <= self.issued
        &&& self.pending == self.issued - self.completed
    }

    /// The state a run starts from: nothing in flight, no carry, no
    /// shutdown requested.
    pub open spec fn init() -> DispatcherState<R> {
        DispatcherState {
            pending: 0,
            carry: None,
            force_shutdown: false,
            graceful_shutdown: false,
            progress: 0,
            report_num: 0,
            issued: 0,
            completed: 0,
        }
    }

    /// What one event does to the state, and what the loop must do next.
    pub open spec fn spec_step<V>(self, event: Event<V, R>) -> (DispatcherState<R>, Action<V, R>) {
        match event {
            Event::WorkerError => (
                DispatcherState { force_shutdown: true, ..self },
                Action::Wait,
            ),
            Event::ShutdownRequest => (
                DispatcherState { graceful_shutdown: true, ..self },
                Action::Wait,
            ),
            Event::ReporterTick => (
                DispatcherState { report_num: (self.report_num + 1) as usize, ..self },
                Action::EmitReport(Report {
                    report_num: self.report_num,
                    progress: self.progress,
                    pending: self.pending,
                    winding_down: self.graceful_shutdown,
                }),
            ),
            Event::WorkerOutput(value) => match self.carry {
                None => (
                    DispatcherState {
                        pending: (self.pending - 1) as usize,
                        completed: (self.completed + 1) as usize,
                        carry: Some(value),
                        ..self
                    },
                    Action::Wait,
                ),
                Some(held) => (
                    DispatcherState {
                        completed: (self.completed + 1) as usize,
                        issued: (self.issued + 1) as usize,
                        carry: None,
                        ..self
                    },
                    Action::Dispatch(WorkerTask::ReducePair(held, value)),
                ),
            },
            Event::InputVertex(vertex) => (
                DispatcherState {
                    pending: (self.pending + 1) as usize,
                    issued: (self.issued + 1) as usize,
                    progress: (self.progress + 1) as usize,
                    ..self
                },
                Action::Dispatch(WorkerTask::MapVertex(vertex)),
            ),
            Event::Idle => (self, Action::Wait),
        }
    }

    /// The loop may stop exactly when an error forced shutdown, or a
    /// graceful shutdown was requested and no task is in flight.
    pub open spec fn spec_should_stop(self) -> bool {
        self.force_shutdown || (self.graceful_shutdown && self.pending == 0)
    }

    /// A fresh dispatcher.
    pub fn new() -> (s: DispatcherState<R>)
        ensures
            s == Self::init(),
            s.wf(),
    {
        DispatcherState {
            pending: 0,
            carry: None,
            force_shutdown: false,
            graceful_shutdown: false,
            progress: 0,
            report_num: 0,
            issued: 0,
            completed: 0,
        }
    }

    /// React to one event; the result tells the loop what to do before the
    /// next event. A `WorkerOutput` event is only legal while a task is in
    /// flight: workers produce exactly one output per task.
    pub fn step<V>(&mut self, event: Event<V, R>) -> (action: Action<V, R>)
        requires
            old(self).wf(),
            event matches Event::WorkerOutput(_) ==> old(self).pending >= 1
                && old(self).issued < usize::MAX,
            event matches Event::InputVertex(_) ==> old(self).issued < usize::MAX
                && old(self).progress < usize::MAX,
            event matches Event::ReporterTick ==> old(self).report_num < usize::MAX,
        ensures
            (*final(self), action) == old(self).spec_step(event),
            final(self).wf(),
    {
        match event {
            Event::WorkerError => {
                self.force_shutdown = true;
                Action::Wait
            },
            Event::ShutdownRequest => {
                self.graceful_shutdown = true;
                Action::Wait
            },
            Event::ReporterTick => {
                let report = Report {
                    report_num: self.report_num,
                    progress: self.progress,
                    pending: self.pending,
                    winding_down: self.graceful_shutdown,
                };
                self.report_num = self.report_num + 1;
                Action::EmitReport(report)
            },
            Event::WorkerOutput(value) => {
                self.completed = self.completed + 1;
                self.pending = self.pending - 1;
                let held = self.carry.take();
                match held {
                    None => {
                        self.carry = Some(value);
                        Action::Wait
                    },
                    Some(first) => {
                        self.pending = self.pending + 1;
                        self.issued = self.issued + 1;
                        Action::Dispatch(WorkerTask::ReducePair(first, value))
                    },
                }
            },
            Event::InputVertex(vertex) => {
                self.pending = self.pending + 1;
                self.issued = self.issued + 1;
                self.progress = self.progress + 1;
                Action::Dispatch(WorkerTask::MapVertex(vertex))
            },
            Event::Idle => Action::Wait,
        }
    }

    /// Record that sending a freshly dispatched task failed: every worker
    /// has exited, so the run is forced down and the counters taken for the
    /// task are discarded.
    pub fn dispatch_failed(&mut self, kind: TaskKind)
        requires
            old(self).wf(),
            old(self).pending >= 1,
            kind == TaskKind::MapVertex ==> old(self).progress >= 1,
        ensures
            final(self).wf(),
            final(self).force_shutdown,
            final(self).pending == old(self).pending - 1,
            final(self).issued == old(self).issued - 1,
            final(self).progress == if kind == TaskKind::MapVertex {
                old(self).progress - 1
            } else {
                old(self).progress as int
            },
            final(self).completed == old(self).completed,
            final(self).carry == old(self).carry,
            final(self).graceful_shutdown == old(self).graceful_shutdown,
            final(self).report_num == old(self).report_num,
    {
        self.pending = self.pending - 1;
        self.issued = self.issued - 1;
        if kind == TaskKind::MapVertex {
            self.progress = self.progress - 1;
        }
        self.force_shutdown = true;
    }

    /// Whether the loop may stop now.
    pub fn should_stop(&self) -> (r: bool)
        ensures
            r == self.spec_should_stop(),
    {
        self.force_shutdown || (self.graceful_shutdown && self.pending == 0)
    }

    /// Hand out the run's outcome once the loop has stopped. On a forced
    /// shutdown the caller must surface the first queued worker error; on a
    /// graceful shutdown the carry is the result, and its absence means the
    /// input was empty and the result is the null value.
    pub fn into_outcome(self) -> (outcome: RunOutcome<R>)
        requires
            self.wf(),
            self.spec_should_stop(),
        ensures
            outcome == (if self.force_shutdown {
                RunOutcome::<R>::Failed
            } else {
                RunOutcome::<R>::Complete(self.carry)
            }),
            !self.force_shutdown ==> self.pending == 0 && self.issued == self.completed,
    {
        if self.force_shutdown {
            RunOutcome::Failed
        } else {
            RunOutcome::Complete(self.carry)
        }
    }
}

/// How a run ended.
pub enum RunOutcome<R> {
    /// An error forced the run down; the first error a worker queued is the
    /// run's error.
    Failed,
    /// The run drained gracefully. `None` means no vertex was ever
    /// dispatched and the result is the null value.
    Complete(Option<R>),
}

} // verus!
