//! What passes between the library and the code that drives it: the events
//! that go to the user interface, the requests for outside work, and the
//! reports of how that work went.

use vstd::prelude::*;
use vstd::string::*;
use crate::text::{copy_option, copy_strings};
use crate::types::{
    CommandOutput, CommandOutputView, CommandStatus, CommandStatusView, LogOutput, LogOutputView,
    LogStatus, LogStatusView, ScreenshotStatus, ScreenshotStatusView, StatusTag, StreamKind,
    status_word, stream_name,
};

verus! {

/// An event for the user interface.
#[derive(Clone, Debug, PartialEq, Eq)]
pub enum UiEvent {
    CommandOutput(CommandOutput),
    CommandStatus(CommandStatus),
    LogOutput(LogOutput),
    LogStatus(LogStatus),
    ScreenshotStatus(ScreenshotStatus),
}

/// What a `UiEvent` holds, with every text as a sequence of characters.
pub enum UiEventView {
    CommandOutput(CommandOutputView),
    CommandStatus(CommandStatusView),
    LogOutput(LogOutputView),
    LogStatus(LogStatusView),
    ScreenshotStatus(ScreenshotStatusView),
}

impl View for UiEvent {
    type V = UiEventView;

    open spec fn view(&self) -> UiEventView {
        match self {
            UiEvent::CommandOutput(e) => UiEventView::CommandOutput(e@),
            UiEvent::CommandStatus(e) => UiEventView::CommandStatus(e@),
            UiEvent::LogOutput(e) => UiEventView::LogOutput(e@),
            UiEvent::LogStatus(e) => UiEventView::LogStatus(e@),
            UiEvent::ScreenshotStatus(e) => UiEventView::ScreenshotStatus(e@),
        }
    }
}

impl DeepView for UiEvent {
    type V = UiEventView;

    open spec fn deep_view(&self) -> UiEventView {
        self@
    }
}

/// The name of the channel on which an event travels.
pub open spec fn channel_name(event: UiEventView) -> Seq<char> {
    match event {
        UiEventView::CommandOutput(_) => "command-output"@,
        UiEventView::CommandStatus(_) => "command-status"@,
        UiEventView::LogOutput(_) => "log-output"@,
        UiEventView::LogStatus(_) => "log-status"@,
        UiEventView::ScreenshotStatus(_) => "screenshot-status"@,
    }
}

/// The status word of an event; events that carry a line have none.
pub open spec fn event_status(event: UiEventView) -> Option<Seq<char>> {
    match event {
        UiEventView::CommandStatus(s) => Some(s.status),
        UiEventView::LogStatus(s) => Some(s.status),
        UiEventView::ScreenshotStatus(s) => Some(s.status),
        _ => None,
    }
}

/// Whether a sequence of events holds lines only, and no status event.
pub open spec fn only_lines(events: Seq<UiEventView>) -> bool {
    forall|i: int| 0 <= i < events.len() ==> (#[trigger] event_status(events[i])) is None
}

/// Whether a sequence of events is in the order in which a task reports:
/// lines only while the task has not reported its end; and where it has,
/// lines first and then one status event, which is the last event.
pub open spec fn in_report_order(events: Seq<UiEventView>, ended: bool) -> bool {
    if ended {
        events.len() > 0 && event_status(events.last()) is Some && only_lines(events.drop_last())
    } else {
        only_lines(events)
    }
}

/// Lines followed by events in report order are in report order.
pub proof fn lemma_report_order_concat(a: Seq<UiEventView>, b: Seq<UiEventView>, ended: bool)
    requires
        only_lines(a),
        in_report_order(b, ended),
    ensures
        in_report_order(a + b, ended),
{
    let all = a + b;
    if ended {
        assert(all.last() == b.last());
        assert forall|i: int| 0 <= i < all.drop_last().len() implies (#[trigger] event_status(
            all.drop_last()[i],
        )) is None by {
            if i < a.len() {
                assert(all.drop_last()[i] == a[i]);
            } else {
                assert(all.drop_last()[i] == b.drop_last()[i - a.len()]);
            }
        }
    } else {
        assert forall|i: int| 0 <= i < all.len() implies (#[trigger] event_status(all[i]))
            is None by {
            if i < a.len() {
                assert(all[i] == a[i]);
            } else {
                assert(all[i] == b[i - a.len()]);
            }
        }
    }
}

/// The status words of a sequence of events, in order.
pub open spec fn status_words(events: Seq<UiEventView>) -> Seq<Seq<char>>
    decreases events.len(),
{
    if events.len() == 0 {
        Seq::empty()
    } else {
        match event_status(events.last()) {
            Some(word) => status_words(events.drop_last()).push(word),
            None => status_words(events.drop_last()),
        }
    }
}

/// The status words of two runs of events, one after the other.
pub proof fn lemma_status_words_concat(a: Seq<UiEventView>, b: Seq<UiEventView>)
    ensures
        status_words(a + b) == status_words(a) + status_words(b),
    decreases b.len(),
{
    if b.len() == 0 {
        assert(a + b =~= a);
        assert(status_words(a) + status_words(b) =~= status_words(a));
    } else {
        assert((a + b).drop_last() =~= a + b.drop_last());
        assert((a + b).last() == b.last());
        lemma_status_words_concat(a, b.drop_last());
        match event_status(b.last()) {
            Some(word) => {
                assert(status_words(a + b) =~= status_words(a) + status_words(b));
            },
            None => {},
        }
    }
}

impl UiEvent {
    /// The name of the channel on which this event travels.
    pub fn channel(&self) -> (name: &'static str)
        ensures
            name@ == channel_name(self@),
    {
        match self {
            UiEvent::CommandOutput(_) => "command-output",
            UiEvent::CommandStatus(_) => "command-status",
            UiEvent::LogOutput(_) => "log-output",
            UiEvent::LogStatus(_) => "log-status",
            UiEvent::ScreenshotStatus(_) => "screenshot-status",
        }
    }
}

/// A list of no events.
pub fn no_events() -> (list: Vec<UiEvent>)
    ensures
        list.deep_view() == Seq::<UiEventView>::empty(),
{
    let list: Vec<UiEvent> = Vec::new();
    assert(list.deep_view() =~= Seq::<UiEventView>::empty());
    list
}

/// A list of one event.
pub fn one_event(event: UiEvent) -> (list: Vec<UiEvent>)
    ensures
        list.deep_view() == seq![event@],
{
    let mut list: Vec<UiEvent> = Vec::new();
    list.push(event);
    assert(list.deep_view() =~= seq![event@]);
    list
}

/// The names under which a task reports to the user interface.
#[derive(Clone, Debug, PartialEq, Eq)]
pub enum TaskLabels {
    /// A command of the tool, run on a project.
    Command { command: String, project: String },
    /// The log stream of one service of a project.
    Logs { project: String, service: String },
}

/// What a `TaskLabels` holds, with every text as a sequence of characters.
pub enum TaskLabelsView {
    Command { command: Seq<char>, project: Seq<char> },
    Logs { project: Seq<char>, service: Seq<char> },
}

impl View for TaskLabels {
    type V = TaskLabelsView;

    open spec fn view(&self) -> TaskLabelsView {
        match self {
            TaskLabels::Command { command, project } => TaskLabelsView::Command {
                command: command@,
                project: project@,
            },
            TaskLabels::Logs { project, service } => TaskLabelsView::Logs {
                project: project@,
                service: service@,
            },
        }
    }
}

/// The command name under which a task stands in the registry.
pub open spec fn labels_command(labels: TaskLabelsView) -> Seq<char> {
    match labels {
        TaskLabelsView::Command { command, project } => command,
        TaskLabelsView::Logs { project, service } => "logs"@,
    }
}

/// The project under which a task stands in the registry.
pub open spec fn labels_project(labels: TaskLabelsView) -> Seq<char> {
    match labels {
        TaskLabelsView::Command { command, project } => project,
        TaskLabelsView::Logs { project, service } => project,
    }
}

/// The event that reports one line of a task's output.
pub open spec fn output_event(labels: TaskLabelsView, line: Seq<char>, kind: StreamKind)
    -> UiEventView {
    match labels {
        TaskLabelsView::Command { command, project } => UiEventView::CommandOutput(
            CommandOutputView { line, stream: stream_name(kind) },
        ),
        TaskLabelsView::Logs { project, service } => UiEventView::LogOutput(
            LogOutputView { line, stream: stream_name(kind), project, service },
        ),
    }
}

/// The event that reports a stage of a task.
pub open spec fn status_event(
    labels: TaskLabelsView,
    tag: StatusTag,
    message: Seq<char>,
    process_id: Option<Seq<char>>,
) -> UiEventView {
    match labels {
        TaskLabelsView::Command { command, project } => UiEventView::CommandStatus(
            CommandStatusView {
                command,
                project,
                status: status_word(tag),
                message: Some(message),
                process_id,
            },
        ),
        TaskLabelsView::Logs { project, service } => UiEventView::LogStatus(
            LogStatusView {
                project,
                service,
                status: status_word(tag),
                message: Some(message),
                process_id,
            },
        ),
    }
}

impl TaskLabels {
    /// The labels of a command of the tool.
    pub fn command(command: &str, project: &str) -> (labels: TaskLabels)
        ensures
            labels@ == (TaskLabelsView::Command { command: command@, project: project@ }),
    {
        TaskLabels::Command {
            command: String::from_str(command),
            project: String::from_str(project),
        }
    }

    /// The labels of a log stream.
    pub fn logs(project: &str, service: &str) -> (labels: TaskLabels)
        ensures
            labels@ == (TaskLabelsView::Logs { project: project@, service: service@ }),
    {
        TaskLabels::Logs { project: String::from_str(project), service: String::from_str(service) }
    }

    /// The command name under which the task stands in the registry.
    pub fn registry_command(&self) -> (name: String)
        ensures
            name@ == labels_command(self@),
    {
        match self {
            TaskLabels::Command { command, project } => command.clone(),
            TaskLabels::Logs { project, service } => String::from_str("logs"),
        }
    }

    /// The project under which the task stands in the registry.
    pub fn registry_project(&self) -> (name: String)
        ensures
            name@ == labels_project(self@),
    {
        match self {
            TaskLabels::Command { command, project } => project.clone(),
            TaskLabels::Logs { project, service } => project.clone(),
        }
    }

    /// The event that reports `line`, read from the pipe `kind`.
    pub fn output(&self, line: String, kind: StreamKind) -> (event: UiEvent)
        ensures
            event@ == output_event(self@, line@, kind),
    {
        match self {
            TaskLabels::Command { command, project } => UiEvent::CommandOutput(
                CommandOutput::new(line, kind),
            ),
            TaskLabels::Logs { project, service } => UiEvent::LogOutput(
                LogOutput {
                    line,
                    stream: String::from_str(kind.name()),
                    project: project.clone(),
                    service: service.clone(),
                },
            ),
        }
    }

    /// The event that reports the stage `tag` of the task.
    pub fn status(&self, tag: StatusTag, message: String, process_id: Option<String>) -> (event:
        UiEvent)
        ensures
            event@ == status_event(self@, tag, message@, process_id.deep_view()),
    {
        match self {
            TaskLabels::Command { command, project } => UiEvent::CommandStatus(
                CommandStatus::new(command.as_str(), project.as_str(), tag, message, process_id),
            ),
            TaskLabels::Logs { project, service } => UiEvent::LogStatus(
                LogStatus {
                    project: project.clone(),
                    service: service.clone(),
                    status: String::from_str(tag.word()),
                    message: Some(message),
                    process_id,
                },
            ),
        }
    }
}

/// A process to start: the program, its arguments, the directory to start
/// it in, and the search path to give it.
#[derive(Clone, Debug, PartialEq, Eq)]
pub struct SpawnRequest {
    pub program: String,
    pub args: Vec<String>,
    /// The working directory; `None` for that of the caller.
    pub cwd: Option<String>,
    /// The value of `PATH` in the child's environment.
    pub path: String,
}

/// What a `SpawnRequest` holds, with every text as a sequence of characters.
pub struct SpawnRequestView {
    pub program: Seq<char>,
    pub args: Seq<Seq<char>>,
    pub cwd: Option<Seq<char>>,
    pub path: Seq<char>,
}

impl View for SpawnRequest {
    type V = SpawnRequestView;

    open spec fn view(&self) -> SpawnRequestView {
        SpawnRequestView {
            program: self.program@,
            args: self.args.deep_view(),
            cwd: self.cwd.deep_view(),
            path: self.path@,
        }
    }
}

impl SpawnRequest {
    /// A copy of this request.
    pub fn duplicate(&self) -> (copy: SpawnRequest)
        ensures
            copy@ == self@,
    {
        SpawnRequest {
            program: self.program.clone(),
            args: copy_strings(&self.args),
            cwd: copy_option(&self.cwd),
            path: self.path.clone(),
        }
    }
}

/// How a task or one of its steps ended.
#[derive(Clone, Copy, Debug, PartialEq, Eq, Structural)]
pub enum TaskEnd {
    /// The process ran and exited with success.
    Succeeded,
    /// The process ran and did not exit with success.
    Failed,
    /// The process could not be started at all.
    SpawnFailed,
    /// The task was cancelled.
    Cancelled,
}

/// What the driver reports back after the outside work it was asked for.
#[derive(Debug, PartialEq, Eq)]
pub enum RunnerEvent<H> {
    /// The task's own thread of work has started.
    Begin,
    /// The process was started; here is its handle.
    Spawned(H),
    /// The process could not be started; the text says why.
    SpawnFailed(String),
    /// One line was read from a pipe of the process.
    Line(StreamKind, String),
    /// Both pipes of the process have reached their end.
    Drained,
    /// The process has exited, with success or not.
    Exited(bool),
    /// Waiting for the process failed.
    WaitFailed,
    /// The directory exists now.
    DirReady,
    /// The directory could not be created; the text says why.
    DirFailed(String),
    /// Whether the path asked about exists.
    Probed(bool),
    /// The file was removed, or could not be: either way the work is over.
    Removed,
    /// Whether the program that was asked ran and exited with success.
    Checked(bool),
}

/// What a `RunnerEvent` holds, with every text as a sequence of characters.
pub enum RunnerEventView<H> {
    Begin,
    Spawned(H),
    SpawnFailed(Seq<char>),
    Line(StreamKind, Seq<char>),
    Drained,
    Exited(bool),
    WaitFailed,
    DirReady,
    DirFailed(Seq<char>),
    Probed(bool),
    Removed,
    Checked(bool),
}

impl<H> View for RunnerEvent<H> {
    type V = RunnerEventView<H>;

    open spec fn view(&self) -> RunnerEventView<H> {
        match self {
            RunnerEvent::Begin => RunnerEventView::Begin,
            RunnerEvent::Spawned(h) => RunnerEventView::Spawned(*h),
            RunnerEvent::SpawnFailed(e) => RunnerEventView::SpawnFailed(e@),
            RunnerEvent::Line(k, l) => RunnerEventView::Line(*k, l@),
            RunnerEvent::Drained => RunnerEventView::Drained,
            RunnerEvent::Exited(ok) => RunnerEventView::Exited(*ok),
            RunnerEvent::WaitFailed => RunnerEventView::WaitFailed,
            RunnerEvent::DirReady => RunnerEventView::DirReady,
            RunnerEvent::DirFailed(e) => RunnerEventView::DirFailed(e@),
            RunnerEvent::Probed(found) => RunnerEventView::Probed(*found),
            RunnerEvent::Removed => RunnerEventView::Removed,
            RunnerEvent::Checked(ok) => RunnerEventView::Checked(*ok),
        }
    }
}

/// The outside work that the driver is asked to do next.
#[derive(Debug, PartialEq, Eq)]
pub enum RunnerAction<H> {
    /// Start this process with both pipes captured, then report `Spawned`
    /// or `SpawnFailed`.
    Spawn(SpawnRequest),
    /// Keep reading both pipes: report each `Line`, and `Drained` once both
    /// have reached their end.
    Stream,
    /// Wait for this process to exit, then report `Exited` or `WaitFailed`.
    Wait(H),
    /// Create this directory and its parents if it is missing, then report
    /// `DirReady` or `DirFailed`.
    EnsureDir(String),
    /// Report with `Probed` whether this path exists.
    Probe(String),
    /// Remove this file, then report `Removed`.
    RemoveFile(String),
    /// Run this program to its end, passing on nothing of what it writes,
    /// then report with `Checked` whether it ran and exited with success.
    Check(SpawnRequest),
    /// Kill this process and wait for it. The task was cancelled while the
    /// process was being started; it is over, and nothing is to be
    /// reported back.
    Reap(H),
    /// Nothing is left to do: the task is over.
    Finish(TaskEnd),
    /// The event is not one the task waits for; it is handed back and
    /// nothing has changed.
    Rejected(RunnerEvent<H>),
}

/// What a `RunnerAction` holds, with every text as a sequence of characters.
pub enum RunnerActionView<H> {
    Spawn(SpawnRequestView),
    Stream,
    Wait(H),
    EnsureDir(Seq<char>),
    Probe(Seq<char>),
    RemoveFile(Seq<char>),
    Check(SpawnRequestView),
    Reap(H),
    Finish(TaskEnd),
    Rejected(RunnerEventView<H>),
}

impl<H> View for RunnerAction<H> {
    type V = RunnerActionView<H>;

    open spec fn view(&self) -> RunnerActionView<H> {
        match self {
            RunnerAction::Spawn(r) => RunnerActionView::Spawn(r@),
            RunnerAction::Stream => RunnerActionView::Stream,
            RunnerAction::Wait(h) => RunnerActionView::Wait(*h),
            RunnerAction::EnsureDir(p) => RunnerActionView::EnsureDir(p@),
            RunnerAction::Probe(p) => RunnerActionView::Probe(p@),
            RunnerAction::RemoveFile(p) => RunnerActionView::RemoveFile(p@),
            RunnerAction::Check(r) => RunnerActionView::Check(r@),
            RunnerAction::Reap(h) => RunnerActionView::Reap(*h),
            RunnerAction::Finish(end) => RunnerActionView::Finish(*end),
            RunnerAction::Rejected(e) => RunnerActionView::Rejected(e@),
        }
    }
}

/// What a task answers to an event: the events to pass on to the user
/// interface, in order, and the outside work to do next.
#[derive(Debug, PartialEq, Eq)]
pub struct Reaction<H> {
    pub emit: Vec<UiEvent>,
    pub action: RunnerAction<H>,
}

/// What a `Reaction` holds, with every text as a sequence of characters.
pub struct ReactionView<H> {
    pub emit: Seq<UiEventView>,
    pub action: RunnerActionView<H>,
}

impl<H> View for Reaction<H> {
    type V = ReactionView<H>;

    open spec fn view(&self) -> ReactionView<H> {
        ReactionView { emit: self.emit.deep_view(), action: self.action@ }
    }
}

} // verus!
