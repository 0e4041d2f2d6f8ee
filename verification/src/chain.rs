//! The runner of a chained task: a list of steps, each a command or a
//! piece of housekeeping, that run one after the other under one
//! identifier and can be cancelled between and inside steps.

use vstd::prelude::*;
use vstd::string::*;
use crate::events::{
    Reaction, ReactionView, RunnerAction, RunnerActionView, RunnerEvent, RunnerEventView,
    SpawnRequest, SpawnRequestView, TaskEnd, TaskLabelsView, UiEvent, UiEventView, no_events,
    status_event,
};
use crate::process::{
    ProcessEntryView, ProcessIdGenerator, ProcessRegistry, create_task_entry,
    generate_process_id, idle_entry, is_process_cancelled, process_id_text, remove_task_entry,
    was_issued,
};
use crate::step::{
    StreamingCommand, StreamingCommandView, begin_command, command_line, started_command,
    streaming_command_step,
};
use crate::text::{concat, copy_option};
use crate::types::{CommandOutput, CommandStatus, StatusTag, StreamKind};

verus! {

/// What happens to the task when a step's process does not succeed.
#[derive(Clone, Debug, PartialEq, Eq)]
pub enum FailurePolicy {
    /// The task ends with an `error` event that carries this message.
    Abort(String),
    /// This line is reported on `stderr` and the task goes on.
    Warn(String),
}

/// What a `FailurePolicy` holds, with every text as a sequence of characters.
pub enum FailurePolicyView {
    Abort(Seq<char>),
    Warn(Seq<char>),
}

impl View for FailurePolicy {
    type V = FailurePolicyView;

    open spec fn view(&self) -> FailurePolicyView {
        match self {
            FailurePolicy::Abort(m) => FailurePolicyView::Abort(m@),
            FailurePolicy::Warn(m) => FailurePolicyView::Warn(m@),
        }
    }
}

impl FailurePolicy {
    /// A copy of this policy.
    pub fn duplicate(&self) -> (copy: FailurePolicy)
        ensures
            copy@ == self@,
    {
        match self {
            FailurePolicy::Abort(m) => FailurePolicy::Abort(m.clone()),
            FailurePolicy::Warn(m) => FailurePolicy::Warn(m.clone()),
        }
    }
}

/// One command of a chained task.
#[derive(Clone, Debug, PartialEq, Eq)]
pub struct ChainStep {
    /// A line to report on `stdout` right before the command starts.
    pub announce: Option<String>,
    /// The process to start.
    pub request: SpawnRequest,
    pub on_failure: FailurePolicy,
}

/// What a `ChainStep` holds, with every text as a sequence of characters.
pub struct ChainStepView {
    pub announce: Option<Seq<char>>,
    pub request: SpawnRequestView,
    pub on_failure: FailurePolicyView,
}

impl View for ChainStep {
    type V = ChainStepView;

    open spec fn view(&self) -> ChainStepView {
        ChainStepView {
            announce: self.announce.deep_view(),
            request: self.request@,
            on_failure: self.on_failure@,
        }
    }
}

impl ChainStep {
    /// A copy of this step.
    pub fn duplicate(&self) -> (copy: ChainStep)
        ensures
            copy@ == self@,
    {
        ChainStep {
            announce: copy_option(&self.announce),
            request: self.request.duplicate(),
            on_failure: self.on_failure.duplicate(),
        }
    }
}

/// One entry of a chained task's list of work.
#[derive(Clone, Debug, PartialEq, Eq)]
pub enum ChainItem {
    /// Create this directory, with its parents, if it is missing. A
    /// failure ends the task.
    EnsureDir(String),
    /// Run a command.
    Run(ChainStep),
    /// Run a command if this path exists, and go on if it does not.
    RunIfExists(String, ChainStep),
    /// Remove this file; whether that works does not matter.
    RemoveFile(String),
    /// Ask a program whether it is there, by running it, and choose by
    /// the answer between the items that follow. Where the program runs
    /// and succeeds, the next `hit` items are done and the `miss` items
    /// after them are left out; where it does not, the next `hit` items are
    /// left out and the task goes on with those after them.
    Check { probe: SpawnRequest, hit: usize, miss: usize },
    /// Report `report` on `stderr` and end the task with an `error` event
    /// that carries `message`.
    Fail { report: String, message: String },
}

/// What a `ChainItem` holds, with every text as a sequence of characters.
pub enum ChainItemView {
    EnsureDir(Seq<char>),
    Run(ChainStepView),
    RunIfExists(Seq<char>, ChainStepView),
    RemoveFile(Seq<char>),
    Check { probe: SpawnRequestView, hit: nat, miss: nat },
    Fail { report: Seq<char>, message: Seq<char> },
}

impl View for ChainItem {
    type V = ChainItemView;

    open spec fn view(&self) -> ChainItemView {
        match self {
            ChainItem::EnsureDir(p) => ChainItemView::EnsureDir(p@),
            ChainItem::Run(s) => ChainItemView::Run(s@),
            ChainItem::RunIfExists(p, s) => ChainItemView::RunIfExists(p@, s@),
            ChainItem::RemoveFile(p) => ChainItemView::RemoveFile(p@),
            ChainItem::Check { probe, hit, miss } => ChainItemView::Check {
                probe: probe@,
                hit: *hit as nat,
                miss: *miss as nat,
            },
            ChainItem::Fail { report, message } => ChainItemView::Fail {
                report: report@,
                message: message@,
            },
        }
    }
}

impl DeepView for ChainItem {
    type V = ChainItemView;

    open spec fn deep_view(&self) -> ChainItemView {
        self@
    }
}

impl ChainItem {
    /// A copy of this item.
    pub fn duplicate(&self) -> (copy: ChainItem)
        ensures
            copy@ == self@,
    {
        match self {
            ChainItem::EnsureDir(p) => ChainItem::EnsureDir(p.clone()),
            ChainItem::Run(s) => ChainItem::Run(s.duplicate()),
            ChainItem::RunIfExists(p, s) => ChainItem::RunIfExists(p.clone(), s.duplicate()),
            ChainItem::RemoveFile(p) => ChainItem::RemoveFile(p.clone()),
            ChainItem::Check { probe, hit, miss } => ChainItem::Check {
                probe: probe.duplicate(),
                hit: *hit,
                miss: *miss,
            },
            ChainItem::Fail { report, message } => ChainItem::Fail {
                report: report.clone(),
                message: message.clone(),
            },
        }
    }
}

/// Where a chained task stands.
#[derive(Clone, Copy, Debug, PartialEq, Eq, Structural)]
pub enum ChainPhase {
    /// The task is entered in the registry and its work has not begun.
    Ready,
    /// The driver is making sure of a directory.
    PreparingDir,
    /// The driver is looking whether a path exists.
    Probing,
    /// A command runs.
    Running,
    /// The driver is removing a file.
    Removing,
    /// The driver is asking a program whether it is there.
    Checking,
    /// The task is over.
    Done(TaskEnd),
}

struct ActiveStep<H> {
    command: StreamingCommand<H>,
    on_failure: FailurePolicy,
}

/// The command that a chained task is running.
pub struct ActiveStepView<H> {
    pub command: StreamingCommandView<H>,
    pub on_failure: FailurePolicyView,
}

/// A task of several steps under one identifier.
pub struct ChainedTask<H> {
    process_id: String,
    command: String,
    project: String,
    items: Vec<ChainItem>,
    position: usize,
    success_message: String,
    phase: ChainPhase,
    current: Option<ActiveStep<H>>,
    jump: Option<(usize, usize)>,
}

/// What a `ChainedTask` holds, with every text as a sequence of characters.
pub struct ChainedTaskView<H> {
    pub process_id: Seq<char>,
    pub command: Seq<char>,
    pub project: Seq<char>,
    pub items: Seq<ChainItemView>,
    /// How many items are done with.
    pub position: nat,
    /// The message of the `finished` event.
    pub success_message: Seq<char>,
    pub phase: ChainPhase,
    pub current: Option<ActiveStepView<H>>,
    /// Items to leave out later: once the first number of items is done
    /// with, the second number of items after them is left out.
    pub jump: Option<(nat, nat)>,
}

impl<H> View for ChainedTask<H> {
    type V = ChainedTaskView<H>;

    closed spec fn view(&self) -> ChainedTaskView<H> {
        ChainedTaskView {
            process_id: self.process_id@,
            command: self.command@,
            project: self.project@,
            items: self.items.deep_view(),
            position: self.position as nat,
            success_message: self.success_message@,
            phase: self.phase,
            current: match self.current {
                Some(active) => Some(
                    ActiveStepView { command: active.command@, on_failure: active.on_failure@ },
                ),
                None => None,
            },
            jump: match self.jump {
                Some((at, skip)) => Some((at as nat, skip as nat)),
                None => None,
            },
        }
    }
}

/// A task, the registry and the answer after one event.
pub struct ChainMove<H> {
    pub task: ChainedTaskView<H>,
    pub registry: Map<Seq<char>, ProcessEntryView<H>>,
    pub reaction: ReactionView<H>,
}

/// The labels under which a chained task reports.
pub open spec fn chain_labels<H>(task: ChainedTaskView<H>) -> TaskLabelsView {
    TaskLabelsView::Command { command: task.command, project: task.project }
}

/// The position that lies `by` items ahead of `position` in a list of
/// `len` items, and the end of the list where there are not so many.
pub open spec fn ahead(position: nat, by: nat, len: nat) -> nat {
    if position >= len {
        position
    } else if position + by >= len {
        len
    } else {
        position + by
    }
}

/// The task with one more item done with. Where that brings the task to
/// items that an answer has told it to leave out, they are left out.
pub open spec fn stepped_over<H>(task: ChainedTaskView<H>) -> ChainedTaskView<H> {
    let next = ahead(task.position, 1, task.items.len());
    match task.jump {
        Some((at, skip)) => if next == at {
            ChainedTaskView {
                position: ahead(next, skip, task.items.len()),
                current: None,
                jump: None,
                ..task
            }
        } else {
            ChainedTaskView { position: next, current: None, ..task }
        },
        None => ChainedTaskView { position: next, current: None, ..task },
    }
}

/// The task after the answer to a check that chooses between `hit` items
/// and the `miss` items after them.
pub open spec fn checked<H>(task: ChainedTaskView<H>, answer: bool, hit: nat, miss: nat)
    -> ChainedTaskView<H> {
    let len = task.items.len();
    let next = ahead(task.position, 1, len);
    if !answer {
        ChainedTaskView { position: ahead(next, hit, len), current: None, jump: None, ..task }
    } else if hit == 0 {
        ChainedTaskView { position: ahead(next, miss, len), current: None, jump: None, ..task }
    } else {
        ChainedTaskView {
            position: next,
            current: None,
            jump: Some((ahead(next, hit, len), miss)),
            ..task
        }
    }
}

/// The choice that waits for the answer to a check: how many items to do
/// on a hit, and how many to leave out after them.
pub open spec fn pending_check<H>(task: ChainedTaskView<H>) -> Option<(nat, nat)> {
    if task.position < task.items.len() {
        match task.items[task.position as int] {
            ChainItemView::Check { probe, hit, miss } => Some((hit, miss)),
            _ => None,
        }
    } else {
        None
    }
}

/// The answer to an event that the task does not wait for.
pub open spec fn chain_rejected<H>(
    task: ChainedTaskView<H>,
    registry: Map<Seq<char>, ProcessEntryView<H>>,
    event: RunnerEventView<H>,
) -> ChainMove<H> {
    ChainMove {
        task,
        registry,
        reaction: ReactionView { emit: Seq::empty(), action: RunnerActionView::Rejected(event) },
    }
}

/// The end of a task that found itself cancelled: nothing is added to what
/// was to be emitted, and the registry stays as it is.
pub open spec fn chain_cancelled<H>(
    task: ChainedTaskView<H>,
    registry: Map<Seq<char>, ProcessEntryView<H>>,
    emit: Seq<UiEventView>,
) -> ChainMove<H> {
    ChainMove {
        task: ChainedTaskView {
            phase: ChainPhase::Done(TaskEnd::Cancelled),
            current: None,
            ..task
        },
        registry,
        reaction: ReactionView { emit, action: RunnerActionView::Finish(TaskEnd::Cancelled) },
    }
}

/// The end of a task of which a step has failed: its entry leaves the
/// registry and one `error` event with `message` follows what was to be
/// emitted. A task that has been cancelled meanwhile reports no failure:
/// it ends as cancelled.
pub open spec fn chain_failed<H>(
    task: ChainedTaskView<H>,
    registry: Map<Seq<char>, ProcessEntryView<H>>,
    emit: Seq<UiEventView>,
    message: Seq<char>,
) -> ChainMove<H> {
    if !registry.contains_key(task.process_id) {
        chain_cancelled(task, registry, emit)
    } else {
        ChainMove {
            task: ChainedTaskView {
                phase: ChainPhase::Done(TaskEnd::Failed),
                current: None,
                ..task
            },
            registry: registry.remove(task.process_id),
            reaction: ReactionView {
                emit: emit.push(status_event(chain_labels(task), StatusTag::Error, message, None)),
                action: RunnerActionView::Finish(TaskEnd::Failed),
            },
        }
    }
}

/// What becomes of a task when its command has not done its work, because
/// the process failed or could not be started: what the step's policy
/// says.
pub open spec fn chain_step_failed<H>(
    task: ChainedTaskView<H>,
    registry: Map<Seq<char>, ProcessEntryView<H>>,
    emit: Seq<UiEventView>,
    on_failure: FailurePolicyView,
) -> ChainMove<H> {
    match on_failure {
        FailurePolicyView::Abort(message) => chain_failed(task, registry, emit, message),
        FailurePolicyView::Warn(line) => chain_proceed(
            stepped_over(task),
            registry,
            emit.push(command_line(line, StreamKind::Stderr)),
        ),
    }
}

/// The end of a task whose steps are all done: its entry leaves the
/// registry and one `finished` event follows what was to be emitted.
pub open spec fn chain_finished<H>(
    task: ChainedTaskView<H>,
    registry: Map<Seq<char>, ProcessEntryView<H>>,
    emit: Seq<UiEventView>,
) -> ChainMove<H> {
    ChainMove {
        task: ChainedTaskView {
            phase: ChainPhase::Done(TaskEnd::Succeeded),
            current: None,
            ..task
        },
        registry: registry.remove(task.process_id),
        reaction: ReactionView {
            emit: emit.push(
                status_event(chain_labels(task), StatusTag::Finished, task.success_message, None),
            ),
            action: RunnerActionView::Finish(TaskEnd::Succeeded),
        },
    }
}

/// What was to be emitted, followed by a step's announcement if it has one.
pub open spec fn announced(emit: Seq<UiEventView>, announce: Option<Seq<char>>) -> Seq<
    UiEventView,
> {
    match announce {
        Some(line) => emit.push(command_line(line, StreamKind::Stdout)),
        None => emit,
    }
}

/// The start of a command of the task. A task that has been cancelled
/// starts no command and announces none.
pub open spec fn chain_begin_step<H>(
    task: ChainedTaskView<H>,
    registry: Map<Seq<char>, ProcessEntryView<H>>,
    emit: Seq<UiEventView>,
    step: ChainStepView,
) -> ChainMove<H> {
    if !registry.contains_key(task.process_id) {
        chain_cancelled(task, registry, emit)
    } else {
        ChainMove {
            task: ChainedTaskView {
                phase: ChainPhase::Running,
                current: Some(
                    ActiveStepView {
                        command: started_command(
                            registry,
                            step.request,
                            Some(task.process_id),
                            task.command,
                            task.project,
                        ),
                        on_failure: step.on_failure,
                    },
                ),
                ..task
            },
            registry,
            reaction: ReactionView {
                emit: announced(emit, step.announce),
                action: RunnerActionView::Spawn(step.request),
            },
        }
    }
}

/// The start of the next item of the task, or the task's end.
///
/// Before anything else the task looks whether it has been cancelled, and
/// ends without a word if so. With no item left it ends as finished.
pub open spec fn chain_proceed<H>(
    task: ChainedTaskView<H>,
    registry: Map<Seq<char>, ProcessEntryView<H>>,
    emit: Seq<UiEventView>,
) -> ChainMove<H> {
    if !registry.contains_key(task.process_id) {
        chain_cancelled(task, registry, emit)
    } else if task.position >= task.items.len() {
        chain_finished(task, registry, emit)
    } else {
        match task.items[task.position as int] {
            ChainItemView::EnsureDir(path) => ChainMove {
                task: ChainedTaskView { phase: ChainPhase::PreparingDir, current: None, ..task },
                registry,
                reaction: ReactionView { emit, action: RunnerActionView::EnsureDir(path) },
            },
            ChainItemView::Run(step) => chain_begin_step(task, registry, emit, step),
            ChainItemView::RunIfExists(path, step) => ChainMove {
                task: ChainedTaskView { phase: ChainPhase::Probing, current: None, ..task },
                registry,
                reaction: ReactionView { emit, action: RunnerActionView::Probe(path) },
            },
            ChainItemView::RemoveFile(path) => ChainMove {
                task: ChainedTaskView { phase: ChainPhase::Removing, current: None, ..task },
                registry,
                reaction: ReactionView { emit, action: RunnerActionView::RemoveFile(path) },
            },
            ChainItemView::Check { probe, hit, miss } => ChainMove {
                task: ChainedTaskView { phase: ChainPhase::Checking, current: None, ..task },
                registry,
                reaction: ReactionView { emit, action: RunnerActionView::Check(probe) },
            },
            ChainItemView::Fail { report, message } => chain_failed(
                task,
                registry,
                emit.push(command_line(report, StreamKind::Stderr)),
                message,
            ),
        }
    }
}

/// The message of the `error` event after a directory could not be made.
pub open spec fn directory_failure(reason: Seq<char>) -> Seq<char> {
    "Failed to create directory: "@ + reason
}

/// What the task does with an event while one of its commands runs: the
/// command takes the event. Where that ends the command, the task goes on
/// by how it ended: after a success with the next item; after a failure,
/// and after a process that could not be started, as the step's policy
/// says; after a cancellation not at all.
pub open spec fn chain_running<H>(
    task: ChainedTaskView<H>,
    registry: Map<Seq<char>, ProcessEntryView<H>>,
    event: RunnerEventView<H>,
) -> ChainMove<H> {
    match task.current {
        None => chain_rejected(task, registry, event),
        Some(active) => {
            let inner = streaming_command_step(active.command, registry, event);
            match inner.reaction.action {
                RunnerActionView::Finish(TaskEnd::Succeeded) => chain_proceed(
                    stepped_over(task),
                    inner.registry,
                    inner.reaction.emit,
                ),
                RunnerActionView::Finish(TaskEnd::Failed) => chain_step_failed(
                    task,
                    inner.registry,
                    inner.reaction.emit,
                    active.on_failure,
                ),
                RunnerActionView::Finish(TaskEnd::SpawnFailed) => chain_step_failed(
                    task,
                    inner.registry,
                    inner.reaction.emit,
                    active.on_failure,
                ),
                RunnerActionView::Finish(TaskEnd::Cancelled) => chain_cancelled(
                    task,
                    inner.registry,
                    inner.reaction.emit,
                ),
                RunnerActionView::Reap(child) => ChainMove {
                    task: ChainedTaskView {
                        phase: ChainPhase::Done(TaskEnd::Cancelled),
                        current: None,
                        ..task
                    },
                    registry: inner.registry,
                    reaction: inner.reaction,
                },
                _ => ChainMove {
                    task: ChainedTaskView {
                        current: Some(
                            ActiveStepView {
                                command: inner.command,
                                on_failure: active.on_failure,
                            },
                        ),
                        ..task
                    },
                    registry: inner.registry,
                    reaction: inner.reaction,
                },
            }
        },
    }
}

/// The command that waits for the answer to a probe.
pub open spec fn probed_step<H>(task: ChainedTaskView<H>) -> Option<ChainStepView> {
    if task.position < task.items.len() {
        match task.items[task.position as int] {
            ChainItemView::RunIfExists(path, step) => Some(step),
            _ => None,
        }
    } else {
        None
    }
}

/// What a chained task does on an event.
pub open spec fn chain_step<H>(
    task: ChainedTaskView<H>,
    registry: Map<Seq<char>, ProcessEntryView<H>>,
    event: RunnerEventView<H>,
) -> ChainMove<H> {
    match (task.phase, event) {
        (ChainPhase::Ready, RunnerEventView::Begin) => chain_proceed(task, registry, Seq::empty()),
        (ChainPhase::PreparingDir, RunnerEventView::DirReady) => chain_proceed(
            stepped_over(task),
            registry,
            Seq::empty(),
        ),
        (ChainPhase::PreparingDir, RunnerEventView::DirFailed(reason)) => chain_failed(
            task,
            registry,
            Seq::empty(),
            directory_failure(reason),
        ),
        (ChainPhase::Probing, RunnerEventView::Probed(true)) => match probed_step(task) {
            Some(step) => chain_begin_step(task, registry, Seq::empty(), step),
            None => chain_rejected(task, registry, event),
        },
        (ChainPhase::Probing, RunnerEventView::Probed(false)) => chain_proceed(
            stepped_over(task),
            registry,
            Seq::empty(),
        ),
        (ChainPhase::Removing, RunnerEventView::Removed) => chain_proceed(
            stepped_over(task),
            registry,
            Seq::empty(),
        ),
        (ChainPhase::Checking, RunnerEventView::Checked(answer)) => match pending_check(task) {
            Some((hit, miss)) => chain_proceed(
                checked(task, answer, hit, miss),
                registry,
                Seq::empty(),
            ),
            None => chain_rejected(task, registry, event),
        },
        (ChainPhase::Running, _) => chain_running(task, registry, event),
        _ => chain_rejected(task, registry, event),
    }
}

/// The event with which a chained task announces itself.
pub open spec fn chain_started_event(
    command: Seq<char>,
    project: Seq<char>,
    message: Seq<char>,
    id: Seq<char>,
) -> UiEventView {
    status_event(
        TaskLabelsView::Command { command, project },
        StatusTag::Started,
        message,
        Some(id),
    )
}

fn ahead_of(position: usize, by: usize, len: usize) -> (next: usize)
    ensures
        next == ahead(position as nat, by as nat, len as nat),
{
    if position >= len {
        position
    } else if by >= len - position {
        len
    } else {
        position + by
    }
}

fn push_event(emit: &mut Vec<UiEvent>, event: UiEvent)
    ensures
        final(emit).deep_view() == old(emit).deep_view().push(event@),
{
    emit.push(event);
    assert(emit.deep_view() =~= old(emit).deep_view().push(event@));
}

fn line_event(line: String, kind: StreamKind) -> (event: UiEvent)
    ensures
        event@ == command_line(line@, kind),
{
    UiEvent::CommandOutput(CommandOutput::new(line, kind))
}

impl<H> ChainedTask<H> {
    /// Begins a chained task: issues its identifier, enters it in the
    /// registry without a process, and hands back the task together with
    /// its `started` event, which carries the identifier.
    pub fn start(
        ids: &mut ProcessIdGenerator,
        registry: &mut ProcessRegistry<H>,
        command: &str,
        project: &str,
        started_message: String,
        success_message: String,
        items: Vec<ChainItem>,
    ) -> (begun: (ChainedTask<H>, UiEvent))
        ensures
            final(ids).issued() == old(ids).issued() + 1,
            !was_issued(old(ids).issued(), begun.0@.process_id),
            final(registry)@ == old(registry)@.insert(
                begun.0@.process_id,
                idle_entry::<H>(command@, project@),
            ),
            begun.0@ == (ChainedTaskView::<H> {
                process_id: process_id_text(final(ids).issued()),
                command: command@,
                project: project@,
                items: items.deep_view(),
                position: 0,
                success_message: success_message@,
                phase: ChainPhase::Ready,
                current: None,
                jump: None,
            }),
            begun.1@ == chain_started_event(
                command@,
                project@,
                started_message@,
                begun.0@.process_id,
            ),
    {
        let process_id = generate_process_id(ids);
        create_task_entry(registry, process_id.as_str(), command, project);
        let started = UiEvent::CommandStatus(
            CommandStatus::new(
                command,
                project,
                StatusTag::Started,
                started_message,
                Some(process_id.clone()),
            ),
        );
        let task = ChainedTask {
            process_id,
            command: String::from_str(command),
            project: String::from_str(project),
            items,
            position: 0,
            success_message,
            phase: ChainPhase::Ready,
            current: None,
            jump: None,
        };
        (task, started)
    }

    /// The identifier under which the task can be cancelled.
    pub fn process_id(&self) -> (id: &String)
        ensures
            id@ == self@.process_id,
    {
        &self.process_id
    }

    /// Where the task stands.
    pub fn phase(&self) -> (phase: ChainPhase)
        ensures
            phase == self@.phase,
    {
        self.phase
    }

    /// How many items of the task are done with.
    pub fn position(&self) -> (position: usize)
        ensures
            position == self@.position,
    {
        self.position
    }

    fn step_over(&mut self)
        ensures
            final(self)@ == stepped_over(old(self)@),
    {
        let len: usize = self.items.len();
        let next: usize = ahead_of(self.position, 1, len);
        self.position = next;
        self.current = None;
        match self.jump {
            Some((at, skip)) => {
                if next == at {
                    self.position = ahead_of(next, skip, len);
                    self.jump = None;
                }
            },
            None => {},
        }
    }

    fn pending(&self) -> (choice: Option<(usize, usize)>)
        ensures
            match choice {
                Some((hit, miss)) => pending_check(self@) == Some((hit as nat, miss as nat)),
                None => pending_check(self@) is None,
            },
    {
        if self.position < self.items.len() {
            assert(self.items[self.position as int]@ == self@.items[self@.position as int]);
            match &self.items[self.position] {
                ChainItem::Check { probe, hit, miss } => Some((*hit, *miss)),
                _ => None,
            }
        } else {
            None
        }
    }

    fn check(&mut self, answer: bool, hit: usize, miss: usize)
        ensures
            final(self)@ == checked(old(self)@, answer, hit as nat, miss as nat),
    {
        let len: usize = self.items.len();
        let next: usize = ahead_of(self.position, 1, len);
        self.current = None;
        if !answer {
            self.position = ahead_of(next, hit, len);
            self.jump = None;
        } else if hit == 0 {
            self.position = ahead_of(next, miss, len);
            self.jump = None;
        } else {
            self.position = next;
            self.jump = Some((ahead_of(next, hit, len), miss));
        }
    }

    fn reject(&self, event: RunnerEvent<H>) -> (reaction: Reaction<H>)
        ensures
            reaction@ == (ReactionView::<H> {
                emit: Seq::empty(),
                action: RunnerActionView::Rejected(event@),
            }),
    {
        Reaction { emit: no_events(), action: RunnerAction::Rejected(event) }
    }

    fn cancelled(&mut self, emit: Vec<UiEvent>) -> (reaction: Reaction<H>)
        ensures
            final(self)@ == chain_cancelled(
                old(self)@,
                Map::<Seq<char>, ProcessEntryView<H>>::empty(),
                emit.deep_view(),
            ).task,
            reaction@ == chain_cancelled(
                old(self)@,
                Map::<Seq<char>, ProcessEntryView<H>>::empty(),
                emit.deep_view(),
            ).reaction,
    {
        self.phase = ChainPhase::Done(TaskEnd::Cancelled);
        self.current = None;
        Reaction { emit, action: RunnerAction::Finish(TaskEnd::Cancelled) }
    }

    fn fail(&mut self, registry: &mut ProcessRegistry<H>, emit: Vec<UiEvent>, message: String) -> (reaction:
        Reaction<H>)
        ensures
            final(self)@ == chain_failed(old(self)@, old(registry)@, emit.deep_view(), message@).task,
            final(registry)@ == chain_failed(
                old(self)@,
                old(registry)@,
                emit.deep_view(),
                message@,
            ).registry,
            reaction@ == chain_failed(old(self)@, old(registry)@, emit.deep_view(), message@).reaction,
    {
        let mut emit = emit;
        if is_process_cancelled(registry, self.process_id.as_str()) {
            return self.cancelled(emit);
        }
        remove_task_entry(registry, self.process_id.as_str());
        let status = UiEvent::CommandStatus(
            CommandStatus::new(
                self.command.as_str(),
                self.project.as_str(),
                StatusTag::Error,
                message,
                None,
            ),
        );
        push_event(&mut emit, status);
        self.phase = ChainPhase::Done(TaskEnd::Failed);
        self.current = None;
        Reaction { emit, action: RunnerAction::Finish(TaskEnd::Failed) }
    }

    fn finish(&mut self, registry: &mut ProcessRegistry<H>, emit: Vec<UiEvent>) -> (reaction:
        Reaction<H>)
        ensures
            final(self)@ == chain_finished(old(self)@, old(registry)@, emit.deep_view()).task,
            final(registry)@ == chain_finished(old(self)@, old(registry)@, emit.deep_view()).registry,
            reaction@ == chain_finished(old(self)@, old(registry)@, emit.deep_view()).reaction,
    {
        let mut emit = emit;
        remove_task_entry(registry, self.process_id.as_str());
        let status = UiEvent::CommandStatus(
            CommandStatus::new(
                self.command.as_str(),
                self.project.as_str(),
                StatusTag::Finished,
                self.success_message.clone(),
                None,
            ),
        );
        push_event(&mut emit, status);
        self.phase = ChainPhase::Done(TaskEnd::Succeeded);
        self.current = None;
        Reaction { emit, action: RunnerAction::Finish(TaskEnd::Succeeded) }
    }

    fn begin_step(&mut self, registry: &mut ProcessRegistry<H>, emit: Vec<UiEvent>, step: ChainStep) -> (reaction:
        Reaction<H>)
        ensures
            final(self)@ == chain_begin_step(old(self)@, old(registry)@, emit.deep_view(), step@).task,
            final(registry)@ == chain_begin_step(
                old(self)@,
                old(registry)@,
                emit.deep_view(),
                step@,
            ).registry,
            reaction@ == chain_begin_step(
                old(self)@,
                old(registry)@,
                emit.deep_view(),
                step@,
            ).reaction,
    {
        let mut emit = emit;
        if is_process_cancelled(registry, self.process_id.as_str()) {
            return self.cancelled(emit);
        }
        let ChainStep { announce, request, on_failure } = step;
        let (command, first) = begin_command(
            registry,
            request,
            Some(self.process_id.as_str()),
            self.command.as_str(),
            self.project.as_str(),
        );
        match announce {
            Some(line) => {
                push_event(&mut emit, line_event(line, StreamKind::Stdout));
            },
            None => {},
        }
        self.phase = ChainPhase::Running;
        self.current = Some(ActiveStep { command, on_failure });
        Reaction { emit, action: first.action }
    }

    fn proceed(&mut self, registry: &mut ProcessRegistry<H>, emit: Vec<UiEvent>) -> (reaction:
        Reaction<H>)
        ensures
            final(self)@ == chain_proceed(old(self)@, old(registry)@, emit.deep_view()).task,
            final(registry)@ == chain_proceed(old(self)@, old(registry)@, emit.deep_view()).registry,
            reaction@ == chain_proceed(old(self)@, old(registry)@, emit.deep_view()).reaction,
    {
        let mut emit = emit;
        if is_process_cancelled(registry, self.process_id.as_str()) {
            return self.cancelled(emit);
        }
        if self.position >= self.items.len() {
            return self.finish(registry, emit);
        }
        let item = self.items[self.position].duplicate();
        assert(item@ == self@.items[self@.position as int]);
        match item {
            ChainItem::EnsureDir(path) => {
                self.phase = ChainPhase::PreparingDir;
                self.current = None;
                Reaction { emit, action: RunnerAction::EnsureDir(path) }
            },
            ChainItem::Run(step) => self.begin_step(registry, emit, step),
            ChainItem::RunIfExists(path, step) => {
                self.phase = ChainPhase::Probing;
                self.current = None;
                Reaction { emit, action: RunnerAction::Probe(path) }
            },
            ChainItem::RemoveFile(path) => {
                self.phase = ChainPhase::Removing;
                self.current = None;
                Reaction { emit, action: RunnerAction::RemoveFile(path) }
            },
            ChainItem::Check { probe, hit, miss } => {
                self.phase = ChainPhase::Checking;
                self.current = None;
                Reaction { emit, action: RunnerAction::Check(probe) }
            },
            ChainItem::Fail { report, message } => {
                push_event(&mut emit, line_event(report, StreamKind::Stderr));
                self.fail(registry, emit, message)
            },
        }
    }

    fn step_failed(
        &mut self,
        registry: &mut ProcessRegistry<H>,
        emit: Vec<UiEvent>,
        on_failure: FailurePolicy,
    ) -> (reaction: Reaction<H>)
        ensures
            final(self)@ == chain_step_failed(
                old(self)@,
                old(registry)@,
                emit.deep_view(),
                on_failure@,
            ).task,
            final(registry)@ == chain_step_failed(
                old(self)@,
                old(registry)@,
                emit.deep_view(),
                on_failure@,
            ).registry,
            reaction@ == chain_step_failed(
                old(self)@,
                old(registry)@,
                emit.deep_view(),
                on_failure@,
            ).reaction,
    {
        let mut emit = emit;
        match on_failure {
            FailurePolicy::Abort(message) => self.fail(registry, emit, message),
            FailurePolicy::Warn(line) => {
                push_event(&mut emit, line_event(line, StreamKind::Stderr));
                self.step_over();
                self.proceed(registry, emit)
            },
        }
    }

    fn pending_step(&self) -> (step: Option<ChainStep>)
        ensures
            step.is_some() == probed_step(self@).is_some(),
            step.is_some() ==> step.unwrap()@ == probed_step(self@).unwrap(),
    {
        if self.position < self.items.len() {
            assert(self.items[self.position as int]@ == self@.items[self@.position as int]);
            match &self.items[self.position] {
                ChainItem::RunIfExists(path, step) => Some(step.duplicate()),
                _ => None,
            }
        } else {
            None
        }
    }

    fn running(&mut self, registry: &mut ProcessRegistry<H>, event: RunnerEvent<H>) -> (reaction:
        Reaction<H>)
        ensures
            final(self)@ == chain_running(old(self)@, old(registry)@, event@).task,
            final(registry)@ == chain_running(old(self)@, old(registry)@, event@).registry,
            reaction@ == chain_running(old(self)@, old(registry)@, event@).reaction,
    {
        let taken = self.current.take();
        match taken {
            None => self.reject(event),
            Some(active) => {
                let ActiveStep { command, on_failure } = active;
                let mut command = command;
                let inner = command.advance(registry, event);
                let Reaction { emit, action } = inner;
                let mut emit = emit;
                match action {
                    RunnerAction::Finish(end) => match end {
                        TaskEnd::Succeeded => {
                            self.step_over();
                            self.proceed(registry, emit)
                        },
                        TaskEnd::Failed => self.step_failed(registry, emit, on_failure),
                        TaskEnd::SpawnFailed => self.step_failed(registry, emit, on_failure),
                        TaskEnd::Cancelled => self.cancelled(emit),
                    },
                    RunnerAction::Reap(child) => {
                        self.phase = ChainPhase::Done(TaskEnd::Cancelled);
                        self.current = None;
                        Reaction { emit, action: RunnerAction::Reap(child) }
                    },
                    other => {
                        self.current = Some(ActiveStep { command, on_failure });
                        Reaction { emit, action: other }
                    },
                }
            },
        }
    }

    /// Takes the report of the outside work done last and answers with the
    /// events to pass on and the work to do next, as `chain_step` says.
    pub fn advance(&mut self, registry: &mut ProcessRegistry<H>, event: RunnerEvent<H>) -> (reaction:
        Reaction<H>)
        ensures
            final(self)@ == chain_step(old(self)@, old(registry)@, event@).task,
            final(registry)@ == chain_step(old(self)@, old(registry)@, event@).registry,
            reaction@ == chain_step(old(self)@, old(registry)@, event@).reaction,
    {
        match self.phase {
            ChainPhase::Ready => match event {
                RunnerEvent::Begin => self.proceed(registry, no_events()),
                other => self.reject(other),
            },
            ChainPhase::PreparingDir => match event {
                RunnerEvent::DirReady => {
                    self.step_over();
                    self.proceed(registry, no_events())
                },
                RunnerEvent::DirFailed(reason) => {
                    let message = concat("Failed to create directory: ", reason.as_str());
                    self.fail(registry, no_events(), message)
                },
                other => self.reject(other),
            },
            ChainPhase::Probing => match event {
                RunnerEvent::Probed(found) => {
                    if found {
                        match self.pending_step() {
                            Some(step) => self.begin_step(registry, no_events(), step),
                            None => self.reject(RunnerEvent::Probed(found)),
                        }
                    } else {
                        self.step_over();
                        self.proceed(registry, no_events())
                    }
                },
                other => self.reject(other),
            },
            ChainPhase::Removing => match event {
                RunnerEvent::Removed => {
                    self.step_over();
                    self.proceed(registry, no_events())
                },
                other => self.reject(other),
            },
            ChainPhase::Checking => match event {
                RunnerEvent::Checked(answer) => match self.pending() {
                    Some((hit, miss)) => {
                        self.check(answer, hit, miss);
                        self.proceed(registry, no_events())
                    },
                    None => self.reject(RunnerEvent::Checked(answer)),
                },
                other => self.reject(other),
            },
            ChainPhase::Running => self.running(registry, event),
            ChainPhase::Done(_) => self.reject(event),
        }
    }
}

} // verus!
