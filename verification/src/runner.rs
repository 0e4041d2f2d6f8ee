//! The runner of a single task: one process, started once, whose output is
//! streamed and whose end is reported with one status event. The task
//! stands in the registry from its launch until the pipes of its process
//! are at their end, and can be cancelled for as long.
//!
//! The runner decides; the driver does the outside work. Each call of
//! `advance` takes the report of the work done last and answers with the
//! events to pass on and the work to do next.

use vstd::prelude::*;
use vstd::string::*;
use crate::events::{
    Reaction, ReactionView, RunnerAction, RunnerActionView, RunnerEvent, RunnerEventView,
    SpawnRequest, SpawnRequestView, TaskEnd, TaskLabels, TaskLabelsView, UiEventView,
    in_report_order, labels_command,
    labels_project, lemma_report_order_concat, lemma_status_words_concat, no_events, one_event,
    output_event, status_event, status_words,
};
use crate::process::{
    ProcessEntryView, ProcessRegistry, is_process_cancelled, register_child_process,
    remove_task_entry, running_entry, take_child_process, taken_child,
};
use crate::text::concat;
use crate::types::{StatusTag, StreamKind, status_word};

verus! {

/// Where a single task stands.
#[derive(Clone, Copy, Debug, PartialEq, Eq, Structural)]
pub enum TaskPhase {
    /// The task is entered in the registry and its work has not begun.
    Ready,
    /// The driver is starting the process.
    Spawning,
    /// The process runs and its pipes are being read.
    Streaming,
    /// The pipes are at their end and the driver waits for the exit.
    Waiting,
    /// The task is over.
    Done(TaskEnd),
}

/// The texts with which a single task reports how it went.
#[derive(Debug)]
pub struct TaskTexts {
    /// What stands before the operating system's words where the process
    /// could not be started.
    pub spawn_failure: String,
    /// The message of the `finished` event.
    pub finished: String,
    /// The message of the `error` event after an unsuccessful exit.
    pub failed: String,
}

/// A task of one process.
#[derive(Debug)]
pub struct StreamingTask {
    process_id: String,
    labels: TaskLabels,
    texts: TaskTexts,
    request: SpawnRequest,
    phase: TaskPhase,
}

/// What a `StreamingTask` holds, with every text as a sequence of characters.
pub struct StreamingTaskView {
    pub process_id: Seq<char>,
    pub labels: TaskLabelsView,
    /// The process that the task runs.
    pub request: SpawnRequestView,
    pub spawn_failure: Seq<char>,
    pub finished: Seq<char>,
    pub failed: Seq<char>,
    pub phase: TaskPhase,
}

impl View for StreamingTask {
    type V = StreamingTaskView;

    closed spec fn view(&self) -> StreamingTaskView {
        StreamingTaskView {
            process_id: self.process_id@,
            labels: self.labels@,
            request: self.request@,
            spawn_failure: self.texts.spawn_failure@,
            finished: self.texts.finished@,
            failed: self.texts.failed@,
            phase: self.phase,
        }
    }
}

/// A task, the registry and the answer after one event.
pub struct TaskStep<H> {
    pub task: StreamingTaskView,
    pub registry: Map<Seq<char>, ProcessEntryView<H>>,
    pub reaction: ReactionView<H>,
}

/// The task in another phase.
pub open spec fn in_phase(task: StreamingTaskView, phase: TaskPhase) -> StreamingTaskView {
    StreamingTaskView { phase, ..task }
}

/// The answer to an event that the task does not wait for.
pub open spec fn rejected<H>(
    task: StreamingTaskView,
    registry: Map<Seq<char>, ProcessEntryView<H>>,
    event: RunnerEventView<H>,
) -> TaskStep<H> {
    TaskStep {
        task,
        registry,
        reaction: ReactionView { emit: Seq::empty(), action: RunnerActionView::Rejected(event) },
    }
}

/// The end of a task that found itself cancelled: no event, and the
/// registry as it is.
pub open spec fn task_cancelled<H>(
    task: StreamingTaskView,
    registry: Map<Seq<char>, ProcessEntryView<H>>,
) -> TaskStep<H> {
    TaskStep {
        task: in_phase(task, TaskPhase::Done(TaskEnd::Cancelled)),
        registry,
        reaction: ReactionView {
            emit: Seq::empty(),
            action: RunnerActionView::Finish(TaskEnd::Cancelled),
        },
    }
}

/// What a single task does on an event.
///
/// The task stands in the registry from its launch on, and looks there
/// before every move: a task whose entry is gone has been cancelled, and
/// ends without a word.
///
/// - When its work begins, the task asks for its process.
/// - While the process is being started: a failure ends the task with an
///   `error` event that gives the reason, and its entry leaves the
///   registry; a success puts the process into the task's entry, before
///   any of its output is read. Where the task was cancelled meanwhile,
///   the process is handed back to be killed and reaped.
/// - While the pipes are read: each line is passed on. Once they are at
///   their end the entry leaves the registry. Where it held the process,
///   the driver waits for it.
/// - Once the process has exited: one `finished` or `error` event.
/// - Any other event is handed back.
pub open spec fn streaming_task_step<H>(
    task: StreamingTaskView,
    registry: Map<Seq<char>, ProcessEntryView<H>>,
    event: RunnerEventView<H>,
) -> TaskStep<H> {
    let present = registry.contains_key(task.process_id);
    match (task.phase, event) {
        (TaskPhase::Ready, RunnerEventView::Begin) => if present {
            TaskStep {
                task: in_phase(task, TaskPhase::Spawning),
                registry,
                reaction: ReactionView {
                    emit: Seq::empty(),
                    action: RunnerActionView::Spawn(task.request),
                },
            }
        } else {
            task_cancelled(task, registry)
        },
        (TaskPhase::Spawning, RunnerEventView::SpawnFailed(reason)) => if present {
            TaskStep {
                task: in_phase(task, TaskPhase::Done(TaskEnd::SpawnFailed)),
                registry: registry.remove(task.process_id),
                reaction: ReactionView {
                    emit: seq![
                        status_event(
                            task.labels,
                            StatusTag::Error,
                            task.spawn_failure + reason,
                            None,
                        ),
                    ],
                    action: RunnerActionView::Finish(TaskEnd::SpawnFailed),
                },
            }
        } else {
            task_cancelled(task, registry)
        },
        (TaskPhase::Spawning, RunnerEventView::Spawned(child)) => if present {
            TaskStep {
                task: in_phase(task, TaskPhase::Streaming),
                registry: registry.insert(
                    task.process_id,
                    running_entry(child, labels_command(task.labels), labels_project(task.labels)),
                ),
                reaction: ReactionView { emit: Seq::empty(), action: RunnerActionView::Stream },
            }
        } else {
            TaskStep {
                task: in_phase(task, TaskPhase::Done(TaskEnd::Cancelled)),
                registry,
                reaction: ReactionView {
                    emit: Seq::empty(),
                    action: RunnerActionView::Reap(child),
                },
            }
        },
        (TaskPhase::Streaming, RunnerEventView::Line(kind, line)) => TaskStep {
            task,
            registry,
            reaction: ReactionView {
                emit: seq![output_event(task.labels, line, kind)],
                action: RunnerActionView::Stream,
            },
        },
        (TaskPhase::Streaming, RunnerEventView::Drained) => match taken_child(
            registry,
            task.process_id,
        ) {
            Some(child) => TaskStep {
                task: in_phase(task, TaskPhase::Waiting),
                registry: registry.remove(task.process_id),
                reaction: ReactionView {
                    emit: Seq::empty(),
                    action: RunnerActionView::Wait(child),
                },
            },
            None => task_cancelled(task, registry.remove(task.process_id)),
        },
        (TaskPhase::Waiting, RunnerEventView::Exited(true)) => TaskStep {
            task: in_phase(task, TaskPhase::Done(TaskEnd::Succeeded)),
            registry,
            reaction: ReactionView {
                emit: seq![status_event(task.labels, StatusTag::Finished, task.finished, None)],
                action: RunnerActionView::Finish(TaskEnd::Succeeded),
            },
        },
        (TaskPhase::Waiting, RunnerEventView::Exited(false)) => streaming_task_failed(
            task,
            registry,
        ),
        (TaskPhase::Waiting, RunnerEventView::WaitFailed) => streaming_task_failed(
            task,
            registry,
        ),
        _ => rejected(task, registry, event),
    }
}

/// The end of a task whose process did not exit with success.
pub open spec fn streaming_task_failed<H>(
    task: StreamingTaskView,
    registry: Map<Seq<char>, ProcessEntryView<H>>,
) -> TaskStep<H> {
    TaskStep {
        task: in_phase(task, TaskPhase::Done(TaskEnd::Failed)),
        registry,
        reaction: ReactionView {
            emit: seq![status_event(task.labels, StatusTag::Error, task.failed, None)],
            action: RunnerActionView::Finish(TaskEnd::Failed),
        },
    }
}

impl StreamingTask {
    /// A task that waits for its process to be started.
    pub fn new(process_id: String, labels: TaskLabels, texts: TaskTexts, request: SpawnRequest) -> (task:
        StreamingTask)
        ensures
            task@ == (StreamingTaskView {
                process_id: process_id@,
                labels: labels@,
                request: request@,
                spawn_failure: texts.spawn_failure@,
                finished: texts.finished@,
                failed: texts.failed@,
                phase: TaskPhase::Ready,
            }),
    {
        StreamingTask { process_id, labels, texts, request, phase: TaskPhase::Ready }
    }

    /// The process that the task runs.
    pub fn request(&self) -> (request: &SpawnRequest)
        ensures
            request@ == self@.request,
    {
        &self.request
    }

    fn cancelled<H>(&mut self) -> (reaction: Reaction<H>)
        ensures
            final(self)@ == in_phase(old(self)@, TaskPhase::Done(TaskEnd::Cancelled)),
            reaction@ == (ReactionView::<H> {
                emit: Seq::empty(),
                action: RunnerActionView::Finish(TaskEnd::Cancelled),
            }),
    {
        self.phase = TaskPhase::Done(TaskEnd::Cancelled);
        Reaction { emit: no_events(), action: RunnerAction::Finish(TaskEnd::Cancelled) }
    }

    /// The identifier under which the task can be cancelled.
    pub fn process_id(&self) -> (id: &String)
        ensures
            id@ == self@.process_id,
    {
        &self.process_id
    }

    /// Where the task stands.
    pub fn phase(&self) -> (phase: TaskPhase)
        ensures
            phase == self@.phase,
    {
        self.phase
    }

    fn fail<H>(&mut self) -> (reaction: Reaction<H>)
        ensures
            final(self)@ == in_phase(old(self)@, TaskPhase::Done(TaskEnd::Failed)),
            reaction@ == (ReactionView::<H> {
                emit: seq![status_event(old(self)@.labels, StatusTag::Error, old(self)@.failed, None)],
                action: RunnerActionView::Finish(TaskEnd::Failed),
            }),
    {
        self.phase = TaskPhase::Done(TaskEnd::Failed);
        let status = self.labels.status(StatusTag::Error, self.texts.failed.clone(), None);
        Reaction { emit: one_event(status), action: RunnerAction::Finish(TaskEnd::Failed) }
    }

    /// Takes the report of the outside work done last and answers with the
    /// events to pass on and the work to do next, as `streaming_task_step`
    /// says.
    pub fn advance<H>(&mut self, registry: &mut ProcessRegistry<H>, event: RunnerEvent<H>) -> (reaction:
        Reaction<H>)
        ensures
            final(self)@ == streaming_task_step(old(self)@, old(registry)@, event@).task,
            final(registry)@ == streaming_task_step(old(self)@, old(registry)@, event@).registry,
            reaction@ == streaming_task_step(old(self)@, old(registry)@, event@).reaction,
    {
        match event {
            RunnerEvent::Begin => {
                if let TaskPhase::Ready = self.phase {
                    if is_process_cancelled(registry, self.process_id.as_str()) {
                        self.cancelled()
                    } else {
                        self.phase = TaskPhase::Spawning;
                        Reaction {
                            emit: no_events(),
                            action: RunnerAction::Spawn(self.request.duplicate()),
                        }
                    }
                } else {
                    Reaction { emit: no_events(), action: RunnerAction::Rejected(RunnerEvent::Begin) }
                }
            },
            RunnerEvent::SpawnFailed(reason) => {
                if let TaskPhase::Spawning = self.phase {
                    if is_process_cancelled(registry, self.process_id.as_str()) {
                        self.cancelled()
                    } else {
                        remove_task_entry(registry, self.process_id.as_str());
                        self.phase = TaskPhase::Done(TaskEnd::SpawnFailed);
                        let message = concat(self.texts.spawn_failure.as_str(), reason.as_str());
                        let status = self.labels.status(StatusTag::Error, message, None);
                        Reaction {
                            emit: one_event(status),
                            action: RunnerAction::Finish(TaskEnd::SpawnFailed),
                        }
                    }
                } else {
                    Reaction {
                        emit: no_events(),
                        action: RunnerAction::Rejected(RunnerEvent::SpawnFailed(reason)),
                    }
                }
            },
            RunnerEvent::Spawned(child) => {
                if let TaskPhase::Spawning = self.phase {
                    if is_process_cancelled(registry, self.process_id.as_str()) {
                        self.phase = TaskPhase::Done(TaskEnd::Cancelled);
                        Reaction { emit: no_events(), action: RunnerAction::Reap(child) }
                    } else {
                        self.phase = TaskPhase::Streaming;
                        let command = self.labels.registry_command();
                        let project = self.labels.registry_project();
                        register_child_process(
                            registry,
                            self.process_id.as_str(),
                            child,
                            command.as_str(),
                            project.as_str(),
                        );
                        Reaction { emit: no_events(), action: RunnerAction::Stream }
                    }
                } else {
                    Reaction {
                        emit: no_events(),
                        action: RunnerAction::Rejected(RunnerEvent::Spawned(child)),
                    }
                }
            },
            RunnerEvent::Line(kind, line) => {
                if let TaskPhase::Streaming = self.phase {
                    let output = self.labels.output(line, kind);
                    Reaction { emit: one_event(output), action: RunnerAction::Stream }
                } else {
                    Reaction {
                        emit: no_events(),
                        action: RunnerAction::Rejected(RunnerEvent::Line(kind, line)),
                    }
                }
            },
            RunnerEvent::Drained => {
                if let TaskPhase::Streaming = self.phase {
                    let child = take_child_process(registry, self.process_id.as_str());
                    remove_task_entry(registry, self.process_id.as_str());
                    assert(registry@ =~= old(registry)@.remove(self.process_id@));
                    match child {
                        Some(child) => {
                            self.phase = TaskPhase::Waiting;
                            Reaction { emit: no_events(), action: RunnerAction::Wait(child) }
                        },
                        None => {
                            self.phase = TaskPhase::Done(TaskEnd::Cancelled);
                            Reaction {
                                emit: no_events(),
                                action: RunnerAction::Finish(TaskEnd::Cancelled),
                            }
                        },
                    }
                } else {
                    Reaction {
                        emit: no_events(),
                        action: RunnerAction::Rejected(RunnerEvent::Drained),
                    }
                }
            },
            RunnerEvent::Exited(success) => {
                if let TaskPhase::Waiting = self.phase {
                    if success {
                        self.phase = TaskPhase::Done(TaskEnd::Succeeded);
                        let status = self.labels.status(
                            StatusTag::Finished,
                            self.texts.finished.clone(),
                            None,
                        );
                        Reaction {
                            emit: one_event(status),
                            action: RunnerAction::Finish(TaskEnd::Succeeded),
                        }
                    } else {
                        self.fail()
                    }
                } else {
                    Reaction {
                        emit: no_events(),
                        action: RunnerAction::Rejected(RunnerEvent::Exited(success)),
                    }
                }
            },
            RunnerEvent::WaitFailed => {
                if let TaskPhase::Waiting = self.phase {
                    self.fail()
                } else {
                    Reaction {
                        emit: no_events(),
                        action: RunnerAction::Rejected(RunnerEvent::WaitFailed),
                    }
                }
            },
            other => Reaction { emit: no_events(), action: RunnerAction::Rejected(other) },
        }
    }
}

/// One step of a run as the task met it: the registry as it stood, which
/// other tasks and cancellations may have changed since the step before,
/// and the event reported.
pub struct Observation<H> {
    pub registry: Map<Seq<char>, ProcessEntryView<H>>,
    pub event: RunnerEventView<H>,
}

/// A task after a run, and all that it emitted on the way.
pub struct TaskRun {
    pub task: StreamingTaskView,
    pub emitted: Seq<UiEventView>,
}

/// The run of a task over a sequence of steps.
pub open spec fn streaming_task_run<H>(task: StreamingTaskView, seen: Seq<Observation<H>>)
    -> TaskRun
    decreases seen.len(),
{
    if seen.len() == 0 {
        TaskRun { task, emitted: Seq::empty() }
    } else {
        let before = streaming_task_run(task, seen.drop_last());
        let step = streaming_task_step(before.task, seen.last().registry, seen.last().event);
        TaskRun { task: step.task, emitted: before.emitted + step.reaction.emit }
    }
}

/// The status words that a finished run has emitted, by the way it ended.
pub open spec fn words_at(phase: TaskPhase) -> Seq<Seq<char>> {
    match phase {
        TaskPhase::Done(TaskEnd::Succeeded) => seq![status_word(StatusTag::Finished)],
        TaskPhase::Done(TaskEnd::Failed) => seq![status_word(StatusTag::Error)],
        TaskPhase::Done(TaskEnd::SpawnFailed) => seq![status_word(StatusTag::Error)],
        _ => Seq::empty(),
    }
}

/// A status event carries the word of its stage, and an output event none.
pub proof fn lemma_event_words(
    labels: TaskLabelsView,
    tag: StatusTag,
    message: Seq<char>,
    process_id: Option<Seq<char>>,
    line: Seq<char>,
    kind: StreamKind,
)
    ensures
        status_words(seq![status_event(labels, tag, message, process_id)]) == seq![
            status_word(tag),
        ],
        status_words(seq![output_event(labels, line, kind)]) == Seq::<Seq<char>>::empty(),
        status_words(Seq::<UiEventView>::empty()) == Seq::<Seq<char>>::empty(),
{
    let s = seq![status_event(labels, tag, message, process_id)];
    assert(s.drop_last() =~= Seq::<UiEventView>::empty());
    assert(status_words(s.drop_last()) =~= Seq::<Seq<char>>::empty());
    assert(status_words(s) =~= seq![status_word(tag)]);
    let o = seq![output_event(labels, line, kind)];
    assert(o.drop_last() =~= Seq::<UiEventView>::empty());
    assert(status_words(o) =~= Seq::<Seq<char>>::empty());
}

/// A task reports its end once. Whatever is reported to it, in whatever
/// order, and whatever happens to the registry in between: a run that ends
/// with the process having exited has emitted exactly one status event,
/// `finished` after a success and `error` after a failure; a run that ends
/// because the task was cancelled, or that has not ended, has emitted none.
/// The runner never emits `started` or `cancelled`.
pub proof fn lemma_streaming_task_reports_once<H>(
    task: StreamingTaskView,
    seen: Seq<Observation<H>>,
)
    requires
        !(task.phase is Done),
    ensures
        status_words(streaming_task_run(task, seen).emitted) == words_at(
            streaming_task_run(task, seen).task.phase,
        ),
    decreases seen.len(),
{
    if seen.len() == 0 {
    } else {
        lemma_streaming_task_reports_once(task, seen.drop_last());
        let before = streaming_task_run(task, seen.drop_last());
        let step = streaming_task_step(before.task, seen.last().registry, seen.last().event);
        lemma_status_words_concat(before.emitted, step.reaction.emit);
        lemma_streaming_step_words(before.task, seen.last().registry, seen.last().event);
        assert(status_words(before.emitted) + status_words(step.reaction.emit) =~= words_at(
            step.task.phase,
        ));
    }
}

/// The status words of one step: the word of the end that the step reaches,
/// and none where the task had ended before or has not ended yet.
pub proof fn lemma_streaming_step_words<H>(
    task: StreamingTaskView,
    registry: Map<Seq<char>, ProcessEntryView<H>>,
    event: RunnerEventView<H>,
)
    ensures
        ({
            let step = streaming_task_step(task, registry, event);
            if task.phase is Done {
                step.task == task && step.registry == registry && step.reaction.emit
                    == Seq::<UiEventView>::empty()
            } else {
                status_words(step.reaction.emit) == words_at(step.task.phase)
            }
        }),
{
    let step = streaming_task_step(task, registry, event);
    lemma_event_words(
        task.labels,
        StatusTag::Error,
        task.failed,
        None,
        Seq::empty(),
        StreamKind::Stdout,
    );
    lemma_event_words(
        task.labels,
        StatusTag::Finished,
        task.finished,
        None,
        Seq::empty(),
        StreamKind::Stdout,
    );
    match event {
        RunnerEventView::SpawnFailed(reason) => {
            lemma_event_words(
                task.labels,
                StatusTag::Error,
                task.spawn_failure + reason,
                None,
                Seq::empty(),
                StreamKind::Stdout,
            );
        },
        RunnerEventView::Line(kind, line) => {
            lemma_event_words(task.labels, StatusTag::Error, task.failed, None, line, kind);
        },
        _ => {},
    }
}

/// Whether a task in this phase has reported its end with a status event.
pub open spec fn has_reported(phase: TaskPhase) -> bool {
    phase == TaskPhase::Done(TaskEnd::Succeeded) || phase == TaskPhase::Done(TaskEnd::Failed)
        || phase == TaskPhase::Done(TaskEnd::SpawnFailed)
}

/// The events of one step are in report order: lines only, unless the
/// step reports the end, in which case the status event comes last.
pub proof fn lemma_streaming_step_order<H>(
    task: StreamingTaskView,
    registry: Map<Seq<char>, ProcessEntryView<H>>,
    event: RunnerEventView<H>,
)
    requires
        !(task.phase is Done),
    ensures
        in_report_order(
            streaming_task_step(task, registry, event).reaction.emit,
            has_reported(streaming_task_step(task, registry, event).task.phase),
        ),
{
    let step = streaming_task_step(task, registry, event);
    if has_reported(step.task.phase) {
        assert(step.reaction.emit.len() == 1);
        assert(step.reaction.emit.drop_last() =~= Seq::<UiEventView>::empty());
    }
}

/// The events of a task come in order: as long as the task has not
/// reported its end, its run holds lines only; and once it has, the status
/// event of the end is the last event of the run, after every line.
pub proof fn lemma_streaming_task_order<H>(task: StreamingTaskView, seen: Seq<Observation<H>>)
    requires
        !(task.phase is Done),
    ensures
        in_report_order(
            streaming_task_run(task, seen).emitted,
            has_reported(streaming_task_run(task, seen).task.phase),
        ),
    decreases seen.len(),
{
    if seen.len() > 0 {
        lemma_streaming_task_order(task, seen.drop_last());
        let before = streaming_task_run(task, seen.drop_last());
        let step = streaming_task_step(before.task, seen.last().registry, seen.last().event);
        if before.task.phase is Done {
            lemma_streaming_step_words(before.task, seen.last().registry, seen.last().event);
            assert(before.emitted + step.reaction.emit =~= before.emitted);
        } else {
            lemma_streaming_step_order(before.task, seen.last().registry, seen.last().event);
            lemma_report_order_concat(
                before.emitted,
                step.reaction.emit,
                has_reported(step.task.phase),
            );
        }
    }
}

/// The whole story of a task of one process, from its announcement on:
/// one `started` event, then lines only, then, where the process was
/// waited for, one `finished` or `error` event and nothing after it. A
/// task that was cancelled has no status event of its own after
/// `started`; the one `cancelled` event comes from the cancellation.
pub proof fn lemma_streaming_task_history<H>(
    message: Seq<char>,
    task: StreamingTaskView,
    seen: Seq<Observation<H>>,
)
    requires
        !(task.phase is Done),
    ensures
        status_words(
            seq![status_event(task.labels, StatusTag::Started, message, Some(task.process_id))]
                + streaming_task_run(task, seen).emitted,
        ) == seq![status_word(StatusTag::Started)] + words_at(
            streaming_task_run(task, seen).task.phase,
        ),
{
    let started = seq![
        status_event(task.labels, StatusTag::Started, message, Some(task.process_id)),
    ];
    lemma_event_words(
        task.labels,
        StatusTag::Started,
        message,
        Some(task.process_id),
        Seq::empty(),
        StreamKind::Stdout,
    );
    lemma_streaming_task_reports_once(task, seen);
    lemma_status_words_concat(started, streaming_task_run(task, seen).emitted);
}

/// A task keeps to its own entry: a step changes no entry but the task's
/// own, and what the step does depends on no other entry.
pub proof fn lemma_streaming_task_keeps_to_itself<H>(
    task: StreamingTaskView,
    registry: Map<Seq<char>, ProcessEntryView<H>>,
    elsewhere: Map<Seq<char>, ProcessEntryView<H>>,
    event: RunnerEventView<H>,
    other: Seq<char>,
)
    requires
        elsewhere.contains_key(task.process_id) == registry.contains_key(task.process_id),
        registry.contains_key(task.process_id) ==> elsewhere[task.process_id]
            == registry[task.process_id],
    ensures
        other != task.process_id ==> streaming_task_step(
            task,
            registry,
            event,
        ).registry.contains_key(other) == registry.contains_key(other),
        other != task.process_id && registry.contains_key(other) ==> streaming_task_step(
            task,
            registry,
            event,
        ).registry[other] == registry[other],
        streaming_task_step(task, registry, event).task.process_id == task.process_id,
        streaming_task_step(task, elsewhere, event).task == streaming_task_step(
            task,
            registry,
            event,
        ).task,
        streaming_task_step(task, elsewhere, event).reaction == streaming_task_step(
            task,
            registry,
            event,
        ).reaction,
{
}

/// Whether two sequences of steps look the same to the task `id`: the same
/// events, met on registries that agree on the entry of `id`, however
/// they differ on the entries of other tasks.
pub open spec fn same_for<H>(id: Seq<char>, a: Seq<Observation<H>>, b: Seq<Observation<H>>)
    -> bool {
    &&& a.len() == b.len()
    &&& forall|i: int|
        0 <= i < a.len() ==> {
            &&& (#[trigger] a[i]).event == b[i].event
            &&& a[i].registry.contains_key(id) == b[i].registry.contains_key(id)
            &&& a[i].registry.contains_key(id) ==> a[i].registry[id] == b[i].registry[id]
        }
}

/// What other tasks do never shows in a task's own events: two runs that
/// differ only in what the registry holds for other tasks, because those
/// were launched, cancelled or ended in between, leave the task in the
/// same state and emit the same events.
pub proof fn lemma_streaming_task_unaffected<H>(
    task: StreamingTaskView,
    a: Seq<Observation<H>>,
    b: Seq<Observation<H>>,
)
    requires
        same_for(task.process_id, a, b),
    ensures
        streaming_task_run(task, a) == streaming_task_run(task, b),
        streaming_task_run(task, a).task.process_id == task.process_id,
    decreases a.len(),
{
    if a.len() > 0 {
        let id = task.process_id;
        assert(same_for(id, a.drop_last(), b.drop_last())) by {
            assert forall|i: int| 0 <= i < a.drop_last().len() implies {
                &&& (#[trigger] a.drop_last()[i]).event == b.drop_last()[i].event
                &&& a.drop_last()[i].registry.contains_key(id) == b.drop_last()[i].registry.contains_key(
                    id,
                )
                &&& a.drop_last()[i].registry.contains_key(id) ==> a.drop_last()[i].registry[id]
                    == b.drop_last()[i].registry[id]
            } by {
                assert(a.drop_last()[i] == a[i]);
                assert(b.drop_last()[i] == b[i]);
            }
        }
        lemma_streaming_task_unaffected(task, a.drop_last(), b.drop_last());
        let before = streaming_task_run(task, a.drop_last());
        let last = a[a.len() - 1];
        assert(a.last() == last);
        assert(b.last() == b[a.len() - 1]);
        lemma_streaming_task_keeps_to_itself(
            before.task,
            a.last().registry,
            b.last().registry,
            a.last().event,
            Seq::empty(),
        );
    }
}

} // verus!
