//! The runner of one command inside a larger task: it starts one process
//! under the identifier of the task it belongs to, streams its output, and
//! tells how the process ended. It emits lines only; the status events are
//! the business of the task around it.

use vstd::prelude::*;
use vstd::string::*;
use crate::events::{
    Reaction, ReactionView, RunnerAction, RunnerActionView, RunnerEvent, RunnerEventView,
    SpawnRequest, SpawnRequestView, TaskEnd, UiEvent, UiEventView, no_events, one_event,
};
use crate::process::{
    ProcessEntryView, ProcessRegistry, after_take, is_process_cancelled,
    register_child_process, running_entry, take_child_process, taken_child,
};
use crate::runner::TaskPhase;
use crate::text::{concat3, copy_strings};
use crate::types::{CommandOutput, CommandOutputView, StreamKind, stream_name};

verus! {

/// One command of a task, from the start of its process to its exit.
#[derive(Debug)]
pub struct StreamingCommand<H> {
    process_id: Option<String>,
    command_name: String,
    project_name: String,
    program: String,
    phase: TaskPhase,
    held: Option<H>,
}

/// What a `StreamingCommand` holds, with every text as a sequence of characters.
pub struct StreamingCommandView<H> {
    /// The task that the command belongs to, if any.
    pub process_id: Option<Seq<char>>,
    pub command_name: Seq<char>,
    pub project_name: Seq<char>,
    pub program: Seq<char>,
    pub phase: TaskPhase,
    /// The process, as long as no registry entry holds it.
    pub held: Option<H>,
}

impl<H> View for StreamingCommand<H> {
    type V = StreamingCommandView<H>;

    closed spec fn view(&self) -> StreamingCommandView<H> {
        StreamingCommandView {
            process_id: self.process_id.deep_view(),
            command_name: self.command_name@,
            project_name: self.project_name@,
            program: self.program@,
            phase: self.phase,
            held: self.held,
        }
    }
}

/// A command, the registry and the answer after one event.
pub struct CommandStep<H> {
    pub command: StreamingCommandView<H>,
    pub registry: Map<Seq<char>, ProcessEntryView<H>>,
    pub reaction: ReactionView<H>,
}

/// The event that reports a line of a command's output.
pub open spec fn command_line(line: Seq<char>, kind: StreamKind) -> UiEventView {
    UiEventView::CommandOutput(CommandOutputView { line, stream: stream_name(kind) })
}

/// The line that reports that `program` could not be started.
pub open spec fn start_failure_line(program: Seq<char>, reason: Seq<char>) -> Seq<char> {
    "Failed to start "@ + program + ": "@ + reason
}

/// Whether a command of the task `process_id` must not start: its task has
/// an identifier and the registry holds no entry for it any more.
pub open spec fn cancelled_before_start<H>(
    registry: Map<Seq<char>, ProcessEntryView<H>>,
    process_id: Option<Seq<char>>,
) -> bool {
    match process_id {
        Some(id) => !registry.contains_key(id),
        None => false,
    }
}

/// The command as `run_streaming_command` leaves it.
pub open spec fn started_command<H>(
    registry: Map<Seq<char>, ProcessEntryView<H>>,
    request: SpawnRequestView,
    process_id: Option<Seq<char>>,
    command_name: Seq<char>,
    project_name: Seq<char>,
) -> StreamingCommandView<H> {
    StreamingCommandView {
        process_id,
        command_name,
        project_name,
        program: request.program,
        phase: if cancelled_before_start(registry, process_id) {
            TaskPhase::Done(TaskEnd::Cancelled)
        } else {
            TaskPhase::Spawning
        },
        held: None,
    }
}

/// The answer with which `run_streaming_command` begins.
pub open spec fn start_reaction<H>(
    registry: Map<Seq<char>, ProcessEntryView<H>>,
    request: SpawnRequestView,
    process_id: Option<Seq<char>>,
) -> ReactionView<H> {
    ReactionView {
        emit: Seq::empty(),
        action: if cancelled_before_start(registry, process_id) {
            RunnerActionView::Finish(TaskEnd::Cancelled)
        } else {
            RunnerActionView::Spawn(request)
        },
    }
}

/// The command at its end.
pub open spec fn command_ended<H>(
    command: StreamingCommandView<H>,
    registry: Map<Seq<char>, ProcessEntryView<H>>,
    end: TaskEnd,
    emit: Seq<UiEventView>,
) -> CommandStep<H> {
    CommandStep {
        command: StreamingCommandView { phase: TaskPhase::Done(end), held: None, ..command },
        registry,
        reaction: ReactionView { emit, action: RunnerActionView::Finish(end) },
    }
}

/// What a command does once both pipes of its process are at their end.
///
/// Under a task, the process is taken back out of the task's entry, and the
/// entry stays. Where there was a process to take, the driver waits for it.
/// Where there was none, the task was cancelled if its entry is gone; if
/// the entry is there without a process, the command counts as done.
/// Without a task, the driver waits for the process that the command held.
pub open spec fn command_drained<H>(
    command: StreamingCommandView<H>,
    registry: Map<Seq<char>, ProcessEntryView<H>>,
) -> CommandStep<H> {
    let child = match command.process_id {
        Some(id) => taken_child(registry, id),
        None => command.held,
    };
    let left = match command.process_id {
        Some(id) => after_take(registry, id),
        None => registry,
    };
    match child {
        Some(child) => CommandStep {
            command: StreamingCommandView { phase: TaskPhase::Waiting, held: None, ..command },
            registry: left,
            reaction: ReactionView { emit: Seq::empty(), action: RunnerActionView::Wait(child) },
        },
        None => if cancelled_before_start(registry, command.process_id) {
            command_ended(command, left, TaskEnd::Cancelled, Seq::empty())
        } else {
            command_ended(command, left, TaskEnd::Succeeded, Seq::empty())
        },
    }
}

/// What a command does on an event.
///
/// - While the process is being started: a failure is reported as a line on
///   `stderr` and ends the command as one that could not be started, which
///   is another end than that of a process that ran and failed; a success
///   puts the process into the entry of the task, before any output is
///   read. Where the task has been cancelled meanwhile, nothing is
///   reported and nothing is entered: a process that was started is handed
///   back to be killed and reaped, and the command ends as cancelled.
/// - While the pipes are read: each line is passed on; at their end see
///   `command_drained`.
/// - Once the process has exited: the command has succeeded or failed as
///   the process did. A wait that fails counts as a failure.
/// - Any other event is handed back.
pub open spec fn streaming_command_step<H>(
    command: StreamingCommandView<H>,
    registry: Map<Seq<char>, ProcessEntryView<H>>,
    event: RunnerEventView<H>,
) -> CommandStep<H> {
    match (command.phase, event) {
        (TaskPhase::Spawning, RunnerEventView::SpawnFailed(reason)) => if cancelled_before_start(
            registry,
            command.process_id,
        ) {
            command_ended(command, registry, TaskEnd::Cancelled, Seq::empty())
        } else {
            command_ended(
                command,
                registry,
                TaskEnd::SpawnFailed,
                seq![
                    command_line(start_failure_line(command.program, reason), StreamKind::Stderr),
                ],
            )
        },
        (TaskPhase::Spawning, RunnerEventView::Spawned(child)) => match command.process_id {
            Some(id) => if registry.contains_key(id) {
                CommandStep {
                    command: StreamingCommandView { phase: TaskPhase::Streaming, ..command },
                    registry: registry.insert(
                        id,
                        running_entry(child, command.command_name, command.project_name),
                    ),
                    reaction: ReactionView {
                        emit: Seq::empty(),
                        action: RunnerActionView::Stream,
                    },
                }
            } else {
                CommandStep {
                    command: StreamingCommandView {
                        phase: TaskPhase::Done(TaskEnd::Cancelled),
                        held: None,
                        ..command
                    },
                    registry,
                    reaction: ReactionView {
                        emit: Seq::empty(),
                        action: RunnerActionView::Reap(child),
                    },
                }
            },
            None => CommandStep {
                command: StreamingCommandView {
                    phase: TaskPhase::Streaming,
                    held: Some(child),
                    ..command
                },
                registry,
                reaction: ReactionView { emit: Seq::empty(), action: RunnerActionView::Stream },
            },
        },
        (TaskPhase::Streaming, RunnerEventView::Line(kind, line)) => CommandStep {
            command,
            registry,
            reaction: ReactionView {
                emit: seq![command_line(line, kind)],
                action: RunnerActionView::Stream,
            },
        },
        (TaskPhase::Streaming, RunnerEventView::Drained) => command_drained(command, registry),
        (TaskPhase::Waiting, RunnerEventView::Exited(success)) => command_ended(
            command,
            registry,
            if success {
                TaskEnd::Succeeded
            } else {
                TaskEnd::Failed
            },
            Seq::empty(),
        ),
        (TaskPhase::Waiting, RunnerEventView::WaitFailed) => command_ended(
            command,
            registry,
            TaskEnd::Failed,
            Seq::empty(),
        ),
        _ => CommandStep {
            command,
            registry,
            reaction: ReactionView {
                emit: Seq::empty(),
                action: RunnerActionView::Rejected(event),
            },
        },
    }
}

/// Begins one command: `cmd` with `args`, in the directory `cwd`, with
/// `enhanced_path` as its search path.
///
/// With a `process_id`, the command belongs to that task, and does not
/// start where the task has been cancelled: the answer is then
/// `Finish(Cancelled)`. Otherwise the answer asks the driver to start the
/// process.
pub fn run_streaming_command<H>(
    registry: &ProcessRegistry<H>,
    cmd: &str,
    args: &Vec<String>,
    cwd: &str,
    enhanced_path: &str,
    process_id: Option<&str>,
    command_name: &str,
    project_name: &str,
) -> (begun: (StreamingCommand<H>, Reaction<H>))
    ensures
        begun.0@ == started_command(
            registry@,
            SpawnRequestView {
                program: cmd@,
                args: args.deep_view(),
                cwd: Some(cwd@),
                path: enhanced_path@,
            },
            process_id.deep_view(),
            command_name@,
            project_name@,
        ),
        begun.1@ == start_reaction(
            registry@,
            SpawnRequestView {
                program: cmd@,
                args: args.deep_view(),
                cwd: Some(cwd@),
                path: enhanced_path@,
            },
            process_id.deep_view(),
        ),
{
    let request = SpawnRequest {
        program: String::from_str(cmd),
        args: copy_strings(args),
        cwd: Some(String::from_str(cwd)),
        path: String::from_str(enhanced_path),
    };
    begin_command(registry, request, process_id, command_name, project_name)
}

/// Begins the command that `request` describes, as `run_streaming_command`
/// does.
pub fn begin_command<H>(
    registry: &ProcessRegistry<H>,
    request: SpawnRequest,
    process_id: Option<&str>,
    command_name: &str,
    project_name: &str,
) -> (begun: (StreamingCommand<H>, Reaction<H>))
    ensures
        begun.0@ == started_command(
            registry@,
            request@,
            process_id.deep_view(),
            command_name@,
            project_name@,
        ),
        begun.1@ == start_reaction(registry@, request@, process_id.deep_view()),
{
    let cancelled = match process_id {
        Some(id) => is_process_cancelled(registry, id),
        None => false,
    };
    let owner = match process_id {
        Some(id) => Some(String::from_str(id)),
        None => None,
    };
    let command = StreamingCommand {
        process_id: owner,
        command_name: String::from_str(command_name),
        project_name: String::from_str(project_name),
        program: request.program.clone(),
        phase: if cancelled {
            TaskPhase::Done(TaskEnd::Cancelled)
        } else {
            TaskPhase::Spawning
        },
        held: None,
    };
    let action = if cancelled {
        RunnerAction::Finish(TaskEnd::Cancelled)
    } else {
        RunnerAction::Spawn(request)
    };
    (command, Reaction { emit: no_events(), action })
}

impl<H> StreamingCommand<H> {
    /// Where the command stands.
    pub fn phase(&self) -> (phase: TaskPhase)
        ensures
            phase == self@.phase,
    {
        self.phase
    }

    fn end(&mut self, end: TaskEnd, emit: Vec<UiEvent>) -> (reaction: Reaction<H>)
        ensures
            final(self)@ == (StreamingCommandView {
                phase: TaskPhase::Done(end),
                held: None,
                ..old(self)@
            }),
            reaction@ == (ReactionView::<H> {
                emit: emit.deep_view(),
                action: RunnerActionView::Finish(end),
            }),
    {
        self.phase = TaskPhase::Done(end);
        self.held = None;
        Reaction { emit, action: RunnerAction::Finish(end) }
    }

    fn drained(&mut self, registry: &mut ProcessRegistry<H>) -> (reaction: Reaction<H>)
        ensures
            final(self)@ == command_drained(old(self)@, old(registry)@).command,
            final(registry)@ == command_drained(old(self)@, old(registry)@).registry,
            reaction@ == command_drained(old(self)@, old(registry)@).reaction,
    {
        let cancelled = match &self.process_id {
            Some(id) => is_process_cancelled(registry, id.as_str()),
            None => false,
        };
        let child = match &self.process_id {
            Some(id) => take_child_process(registry, id.as_str()),
            None => self.held.take(),
        };
        match child {
            Some(child) => {
                self.phase = TaskPhase::Waiting;
                self.held = None;
                Reaction { emit: no_events(), action: RunnerAction::Wait(child) }
            },
            None => {
                if cancelled {
                    self.end(TaskEnd::Cancelled, no_events())
                } else {
                    self.end(TaskEnd::Succeeded, no_events())
                }
            },
        }
    }

    /// Takes the report of the outside work done last and answers with the
    /// lines to pass on and the work to do next, as `streaming_command_step`
    /// says.
    pub fn advance(&mut self, registry: &mut ProcessRegistry<H>, event: RunnerEvent<H>) -> (reaction:
        Reaction<H>)
        ensures
            final(self)@ == streaming_command_step(old(self)@, old(registry)@, event@).command,
            final(registry)@ == streaming_command_step(old(self)@, old(registry)@, event@).registry,
            reaction@ == streaming_command_step(old(self)@, old(registry)@, event@).reaction,
    {
        match event {
            RunnerEvent::SpawnFailed(reason) => {
                if let TaskPhase::Spawning = self.phase {
                    let cancelled = match &self.process_id {
                        Some(id) => is_process_cancelled(registry, id.as_str()),
                        None => false,
                    };
                    if cancelled {
                        self.end(TaskEnd::Cancelled, no_events())
                    } else {
                        let mut line = concat3("Failed to start ", self.program.as_str(), ": ");
                        line.append(reason.as_str());
                        let report = UiEvent::CommandOutput(
                            CommandOutput::new(line, StreamKind::Stderr),
                        );
                        self.end(TaskEnd::SpawnFailed, one_event(report))
                    }
                } else {
                    Reaction {
                        emit: no_events(),
                        action: RunnerAction::Rejected(RunnerEvent::SpawnFailed(reason)),
                    }
                }
            },
            RunnerEvent::Spawned(child) => {
                if let TaskPhase::Spawning = self.phase {
                    match &self.process_id {
                        Some(id) => {
                            if is_process_cancelled(registry, id.as_str()) {
                                self.phase = TaskPhase::Done(TaskEnd::Cancelled);
                                self.held = None;
                                return Reaction {
                                    emit: no_events(),
                                    action: RunnerAction::Reap(child),
                                };
                            }
                            register_child_process(
                                registry,
                                id.as_str(),
                                child,
                                self.command_name.as_str(),
                                self.project_name.as_str(),
                            );
                        },
                        None => {
                            self.held = Some(child);
                        },
                    }
                    self.phase = TaskPhase::Streaming;
                    Reaction { emit: no_events(), action: RunnerAction::Stream }
                } else {
                    Reaction {
                        emit: no_events(),
                        action: RunnerAction::Rejected(RunnerEvent::Spawned(child)),
                    }
                }
            },
            RunnerEvent::Line(kind, line) => {
                if let TaskPhase::Streaming = self.phase {
                    let output = UiEvent::CommandOutput(CommandOutput::new(line, kind));
                    Reaction { emit: one_event(output), action: RunnerAction::Stream }
                } else {
                    Reaction {
                        emit: no_events(),
                        action: RunnerAction::Rejected(RunnerEvent::Line(kind, line)),
                    }
                }
            },
            RunnerEvent::Drained => {
                if let TaskPhase::Streaming = self.phase {
                    self.drained(registry)
                } else {
                    Reaction {
                        emit: no_events(),
                        action: RunnerAction::Rejected(RunnerEvent::Drained),
                    }
                }
            },
            RunnerEvent::Exited(success) => {
                if let TaskPhase::Waiting = self.phase {
                    if success {
                        self.end(TaskEnd::Succeeded, no_events())
                    } else {
                        self.end(TaskEnd::Failed, no_events())
                    }
                } else {
                    Reaction {
                        emit: no_events(),
                        action: RunnerAction::Rejected(RunnerEvent::Exited(success)),
                    }
                }
            },
            RunnerEvent::WaitFailed => {
                if let TaskPhase::Waiting = self.phase {
                    self.end(TaskEnd::Failed, no_events())
                } else {
                    Reaction {
                        emit: no_events(),
                        action: RunnerAction::Rejected(RunnerEvent::WaitFailed),
                    }
                }
            },
            other => Reaction { emit: no_events(), action: RunnerAction::Rejected(other) },
        }
    }
}

/// A process that could not be started is told from one that ran and
/// failed. For a command whose task has not been cancelled, the end after
/// a failed start is `SpawnFailed` and the end after an unsuccessful exit
/// is `Failed`; the two differ from each other, from the end of a
/// successful run and from that of a cancelled one.
pub proof fn lemma_failed_start_is_told_apart<H>(
    starting: StreamingCommandView<H>,
    waiting: StreamingCommandView<H>,
    registry: Map<Seq<char>, ProcessEntryView<H>>,
    reason: Seq<char>,
)
    requires
        starting.phase == TaskPhase::Spawning,
        waiting.phase == TaskPhase::Waiting,
        !cancelled_before_start(registry, starting.process_id),
    ensures
        streaming_command_step(
            starting,
            registry,
            RunnerEventView::SpawnFailed(reason),
        ).reaction.action == RunnerActionView::<H>::Finish(TaskEnd::SpawnFailed),
        streaming_command_step(
            starting,
            registry,
            RunnerEventView::SpawnFailed(reason),
        ).command.phase == TaskPhase::Done(TaskEnd::SpawnFailed),
        streaming_command_step(waiting, registry, RunnerEventView::Exited(false)).reaction.action
            == RunnerActionView::<H>::Finish(TaskEnd::Failed),
        streaming_command_step(waiting, registry, RunnerEventView::Exited(false)).command.phase
            == TaskPhase::Done(TaskEnd::Failed),
        TaskEnd::SpawnFailed != TaskEnd::Failed,
        TaskEnd::SpawnFailed != TaskEnd::Succeeded,
        TaskEnd::SpawnFailed != TaskEnd::Cancelled,
        TaskEnd::Failed != TaskEnd::Succeeded,
        TaskEnd::Failed != TaskEnd::Cancelled,
{
}

} // verus!
