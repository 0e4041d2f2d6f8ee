//! How the `ddev` tool is found and called, and how a single command of it
//! becomes a task.

use vstd::prelude::*;
use vstd::string::*;
use crate::error::{DdevError, DdevErrorView};
use crate::events::{
    SpawnRequest, SpawnRequestView, TaskLabels, TaskLabelsView, UiEvent, UiEventView,
    labels_command, labels_project, status_event,
};
use crate::process::{
    ProcessEntryView, ProcessIdGenerator, ProcessRegistry, create_task_entry,
    generate_process_id, idle_entry, process_id_text, was_issued,
};
use crate::runner::{StreamingTask, StreamingTaskView, TaskPhase, TaskTexts};
use crate::text::{concat, copy_strings, join, join_text};
use crate::types::StatusTag;

verus! {

/// The directories in which the tool is commonly installed, in the order in
/// which they are searched.
pub open spec fn common_paths() -> Seq<Seq<char>> {
    seq![
        "/opt/homebrew/bin"@,
        "/usr/local/bin"@,
        "/home/linuxbrew/.linuxbrew/bin"@,
        "/usr/bin"@,
        "/bin"@,
        "/usr/sbin"@,
        "/sbin"@,
    ]
}

/// The directories in which the tool is commonly installed. A desktop
/// application does not inherit the search path of the user's shell, so
/// these are searched as well.
pub fn get_common_paths() -> (paths: Vec<&'static str>)
    ensures
        paths.deep_view() == common_paths(),
{
    let mut paths: Vec<&'static str> = Vec::new();
    paths.push("/opt/homebrew/bin");
    paths.push("/usr/local/bin");
    paths.push("/home/linuxbrew/.linuxbrew/bin");
    paths.push("/usr/bin");
    paths.push("/bin");
    paths.push("/usr/sbin");
    paths.push("/sbin");
    assert(paths.deep_view() =~= common_paths());
    paths
}

/// Whether `i` is the first position at which `present` holds `true`.
pub open spec fn is_first_present(present: Seq<bool>, i: int) -> bool {
    &&& 0 <= i < present.len()
    &&& present[i]
    &&& forall|j: int| 0 <= j < i ==> !present[j]
}

/// The first of `candidates` that is marked as present, where `present[i]`
/// tells whether `candidates[i]` exists. Candidates without a mark count
/// as missing.
pub open spec fn first_present(candidates: Seq<Seq<char>>, present: Seq<bool>) -> Option<
    Seq<char>,
> {
    if exists|i: int| i < candidates.len() && is_first_present(present, i) {
        Some(candidates[choose|i: int| i < candidates.len() && is_first_present(present, i)])
    } else {
        None
    }
}

/// The first of `candidates` that `present` marks as existing.
pub fn pick_first(candidates: &Vec<String>, present: &Vec<bool>) -> (found: Option<String>)
    ensures
        found.deep_view() == first_present(candidates.deep_view(), present@),
{
    let mut i: usize = 0;
    while i < candidates.len() && i < present.len()
        invariant
            forall|j: int| 0 <= j < i && j < present.len() ==> !present[j],
        decreases candidates.len() - i,
    {
        if present[i] {
            proof {
                let k = i as int;
                assert(k < candidates.len() && is_first_present(present@, k));
                let c = choose|c: int|
                    c < candidates.deep_view().len() && is_first_present(present@, c);
                assert(c == k) by {
                    if c < k {
                        assert(!present[c]);
                    }
                    if k < c {
                        assert(!present[k]);
                    }
                }
            }
            return Some(candidates[i].clone());
        }
        i = i + 1;
    }
    proof {
        assert forall|k: int| !(k < candidates.deep_view().len() && is_first_present(present@, k)) by {
            if k < candidates.deep_view().len() && is_first_present(present@, k) {
                assert(k < i);
            }
        }
    }
    None
}

/// The places where the tool is looked for: `ddev` in each of the common
/// directories.
pub open spec fn ddev_candidates() -> Seq<Seq<char>> {
    Seq::new(common_paths().len(), |i: int| common_paths()[i] + "/ddev"@)
}

/// The places where the tool is looked for, in the order of the search.
pub fn get_ddev_candidates() -> (candidates: Vec<String>)
    ensures
        candidates.deep_view() == ddev_candidates(),
{
    let dirs = get_common_paths();
    let mut candidates: Vec<String> = Vec::new();
    let mut i: usize = 0;
    while i < dirs.len()
        invariant
            i <= dirs.len(),
            dirs.deep_view() == common_paths(),
            candidates.len() == i,
            forall|j: int| 0 <= j < i ==> candidates[j]@ == common_paths()[j] + "/ddev"@,
        decreases dirs.len() - i,
    {
        assert(dirs.deep_view()[i as int] == dirs[i as int]@);
        candidates.push(concat(dirs[i], "/ddev"));
        i = i + 1;
    }
    assert(candidates.deep_view() =~= ddev_candidates());
    candidates
}

/// Finds the tool among the common places: `present[i]` tells whether the
/// `i`-th of `get_ddev_candidates` exists. The first that exists is the
/// tool; with none, the tool has to be on the search path.
pub fn find_ddev_path(present: &Vec<bool>) -> (found: Option<String>)
    ensures
        found.deep_view() == first_present(ddev_candidates(), present@),
{
    let candidates = get_ddev_candidates();
    pick_first(&candidates, present)
}

/// The program to call for the tool: the place where it was found, or
/// plain `ddev`.
pub open spec fn ddev_command(found: Option<Seq<char>>) -> Seq<char> {
    match found {
        Some(path) => path,
        None => "ddev"@,
    }
}

/// The program to call for the tool, with `present` as in `find_ddev_path`.
pub fn get_ddev_command(present: &Vec<bool>) -> (program: String)
    ensures
        program@ == ddev_command(first_present(ddev_candidates(), present@)),
{
    match find_ddev_path(present) {
        Some(path) => path,
        None => String::from_str("ddev"),
    }
}

/// The search path for child processes: the common directories, then the
/// search path of this process, unless that is empty.
pub open spec fn enhanced_path(current: Seq<char>) -> Seq<char> {
    if current.len() == 0 {
        join_text(common_paths(), ":"@)
    } else {
        join_text(common_paths().push(current), ":"@)
    }
}

/// The search path to give to child processes, from `current_path`, the
/// search path of this process.
pub fn get_enhanced_path(current_path: &str) -> (path: String)
    ensures
        path@ == enhanced_path(current_path@),
{
    let dirs = get_common_paths();
    let mut parts: Vec<String> = Vec::new();
    let mut i: usize = 0;
    while i < dirs.len()
        invariant
            i <= dirs.len(),
            dirs.deep_view() == common_paths(),
            parts.len() == i,
            forall|j: int| 0 <= j < i ==> parts[j]@ == common_paths()[j],
        decreases dirs.len() - i,
    {
        assert(dirs.deep_view()[i as int] == dirs[i as int]@);
        parts.push(String::from_str(dirs[i]));
        i = i + 1;
    }
    if !current_path.is_empty() {
        parts.push(String::from_str(current_path));
        assert(parts.deep_view() =~= common_paths().push(current_path@));
    } else {
        assert(parts.deep_view() =~= common_paths());
    }
    join(&parts, ":")
}

/// The arguments that stand before every call of the tool: none, where the
/// tool is called directly.
pub fn get_ddev_base_args() -> (args: Vec<&'static str>)
    ensures
        args.deep_view() == Seq::<Seq<char>>::empty(),
{
    let args: Vec<&'static str> = Vec::new();
    assert(args.deep_view() =~= Seq::<Seq<char>>::empty());
    args
}

/// How the tool is called: the program, the arguments that stand before
/// every call, and the search path for the child.
#[derive(Clone, Debug, PartialEq, Eq)]
pub struct DdevTool {
    pub program: String,
    pub base_args: Vec<String>,
    pub path: String,
}

/// What a `DdevTool` holds, with every text as a sequence of characters.
pub struct DdevToolView {
    pub program: Seq<char>,
    pub base_args: Seq<Seq<char>>,
    pub path: Seq<char>,
}

impl View for DdevTool {
    type V = DdevToolView;

    open spec fn view(&self) -> DdevToolView {
        DdevToolView {
            program: self.program@,
            base_args: self.base_args.deep_view(),
            path: self.path@,
        }
    }
}

impl DdevTool {
    /// The tool as it is called where it runs directly: found among the
    /// common places or left to the search path, without arguments of its
    /// own.
    pub fn locate(present: &Vec<bool>, current_path: &str) -> (tool: DdevTool)
        ensures
            tool@ == (DdevToolView {
                program: ddev_command(first_present(ddev_candidates(), present@)),
                base_args: Seq::empty(),
                path: enhanced_path(current_path@),
            }),
    {
        let tool = DdevTool {
            program: get_ddev_command(present),
            base_args: Vec::new(),
            path: get_enhanced_path(current_path),
        };
        assert(tool.base_args.deep_view() =~= Seq::<Seq<char>>::empty());
        tool
    }

    /// The arguments of a call: those that stand before every call, then
    /// `args`.
    pub fn full_args(&self, args: &Vec<String>) -> (full: Vec<String>)
        ensures
            full.deep_view() == self@.base_args + args.deep_view(),
    {
        let mut full = copy_strings(&self.base_args);
        let mut i: usize = 0;
        while i < args.len()
            invariant
                i <= args.len(),
                full.len() == self.base_args.len() + i,
                forall|j: int| 0 <= j < self.base_args.len() ==> full[j]@ == self.base_args[j]@,
                forall|j: int| 0 <= j < i ==> full[self.base_args.len() + j]@ == args[j]@,
            decreases args.len() - i,
        {
            full.push(args[i].clone());
            i = i + 1;
        }
        assert(full.deep_view() =~= self@.base_args + args.deep_view());
        full
    }

    /// The request for one call of the tool with `args`, in `cwd`.
    pub fn request(&self, args: &Vec<String>, cwd: Option<String>) -> (request: SpawnRequest)
        ensures
            request@ == tool_request(self@, args.deep_view(), cwd.deep_view()),
    {
        SpawnRequest {
            program: self.program.clone(),
            args: self.full_args(args),
            cwd,
            path: self.path.clone(),
        }
    }
}

/// The request for one call of the tool.
pub open spec fn tool_request(tool: DdevToolView, args: Seq<Seq<char>>, cwd: Option<Seq<char>>)
    -> SpawnRequestView {
    SpawnRequestView { program: tool.program, args: tool.base_args + args, cwd, path: tool.path }
}

/// A task that has been entered in the registry and announced, and whose
/// work is to begin.
#[derive(Debug)]
pub struct Launch {
    /// The identifier under which the task can be cancelled.
    pub process_id: String,
    /// The `started` event, to be emitted before anything else.
    pub started: UiEvent,
    /// The task, to be driven from `Begin` on.
    pub task: StreamingTask,
}

/// What a `Launch` holds, with every text as a sequence of characters.
pub struct LaunchView {
    pub process_id: Seq<char>,
    pub started: UiEventView,
    pub task: StreamingTaskView,
}

impl View for Launch {
    type V = LaunchView;

    open spec fn view(&self) -> LaunchView {
        LaunchView {
            process_id: self.process_id@,
            started: self.started@,
            task: self.task@,
        }
    }
}

/// The message with which a command of the tool is announced.
pub open spec fn running_message(args: Seq<Seq<char>>) -> Seq<char> {
    "Running: ddev "@ + join_text(args, " "@)
}

/// The launch of the command `args` of the tool under the identifier `id`.
pub open spec fn command_launch(
    tool: DdevToolView,
    id: Seq<char>,
    command_name: Seq<char>,
    project_name: Seq<char>,
    args: Seq<Seq<char>>,
    cwd: Option<Seq<char>>,
) -> LaunchView {
    let labels = TaskLabelsView::Command { command: command_name, project: project_name };
    LaunchView {
        process_id: id,
        started: status_event(labels, StatusTag::Started, running_message(args), Some(id)),
        task: StreamingTaskView {
            process_id: id,
            labels,
            request: tool_request(tool, args, cwd),
            spawn_failure: "Failed to start command: "@,
            finished: "Command completed successfully"@,
            failed: "Command failed"@,
            phase: TaskPhase::Ready,
        },
    }
}

/// The registry after the launch of a task: the task is entered under its
/// identifier, without a process, with the labels it reports under.
pub open spec fn entered<H>(registry: Map<Seq<char>, ProcessEntryView<H>>, launch: LaunchView)
    -> Map<Seq<char>, ProcessEntryView<H>> {
    registry.insert(
        launch.process_id,
        idle_entry(labels_command(launch.task.labels), labels_project(launch.task.labels)),
    )
}

fn launch_command<H>(
    ids: &mut ProcessIdGenerator,
    registry: &mut ProcessRegistry<H>,
    tool: &DdevTool,
    command_name: &str,
    project_name: &str,
    args: &Vec<String>,
    cwd: Option<String>,
) -> (launch: Launch)
    ensures
        final(ids).issued() == old(ids).issued() + 1,
        !was_issued(old(ids).issued(), launch@.process_id),
        final(registry)@ == entered(old(registry)@, launch@),
        launch@ == command_launch(
            tool@,
            process_id_text(final(ids).issued()),
            command_name@,
            project_name@,
            args.deep_view(),
            cwd.deep_view(),
        ),
{
    let process_id = generate_process_id(ids);
    let labels = TaskLabels::command(command_name, project_name);
    let message = concat("Running: ddev ", join(args, " ").as_str());
    let started = labels.status(StatusTag::Started, message, Some(process_id.clone()));
    let texts = TaskTexts {
        spawn_failure: String::from_str("Failed to start command: "),
        finished: String::from_str("Command completed successfully"),
        failed: String::from_str("Command failed"),
    };
    let request = tool.request(args, cwd);
    create_task_entry(registry, process_id.as_str(), command_name, project_name);
    let task = StreamingTask::new(process_id.clone(), labels, texts, request);
    Launch { process_id, started, task }
}

/// Launches one command of the tool as a task that can be cancelled.
///
/// The task gets a fresh identifier, is entered in the registry under it,
/// and is announced by a `started` event that carries it. From then on
/// the task can be cancelled, also before its process runs.
pub fn run_ddev_command_streaming<H>(
    ids: &mut ProcessIdGenerator,
    registry: &mut ProcessRegistry<H>,
    tool: &DdevTool,
    command_name: &str,
    project_name: &str,
    args: &Vec<String>,
) -> (launch: Launch)
    ensures
        final(ids).issued() == old(ids).issued() + 1,
        !was_issued(old(ids).issued(), launch@.process_id),
        final(registry)@ == entered(old(registry)@, launch@),
        launch@ == command_launch(
            tool@,
            process_id_text(final(ids).issued()),
            command_name@,
            project_name@,
            args.deep_view(),
            None,
        ),
{
    launch_command(ids, registry, tool, command_name, project_name, args, None)
}

/// Launches one command of the tool, to run in `working_dir`, as a task
/// that can be cancelled.
pub fn run_ddev_command_streaming_in_dir<H>(
    ids: &mut ProcessIdGenerator,
    registry: &mut ProcessRegistry<H>,
    tool: &DdevTool,
    command_name: &str,
    project_name: &str,
    args: &Vec<String>,
    working_dir: &str,
) -> (launch: Launch)
    ensures
        final(ids).issued() == old(ids).issued() + 1,
        !was_issued(old(ids).issued(), launch@.process_id),
        final(registry)@ == entered(old(registry)@, launch@),
        launch@ == command_launch(
            tool@,
            process_id_text(final(ids).issued()),
            command_name@,
            project_name@,
            args.deep_view(),
            Some(working_dir@),
        ),
{
    launch_command(
        ids,
        registry,
        tool,
        command_name,
        project_name,
        args,
        Some(String::from_str(working_dir)),
    )
}

/// How a call of the tool that is waited for went.
#[derive(Debug)]
pub enum CommandOutcome {
    /// The program could not be started: because it was not found, or for
    /// another reason. The text is what the operating system said.
    StartFailed { not_found: bool, reason: String },
    /// The program ran and wrote this.
    Exited { success: bool, stdout: String, stderr: String },
}

/// What a call of the tool that is waited for returns.
pub open spec fn command_result(outcome: CommandOutcome) -> Result<Seq<char>, DdevErrorView> {
    match outcome {
        CommandOutcome::StartFailed { not_found, reason } => if not_found {
            Err(DdevErrorView::NotInstalled)
        } else {
            Err(DdevErrorView::IoError(reason@))
        },
        CommandOutcome::Exited { success, stdout, stderr } => if success {
            Ok(stdout@)
        } else {
            Err(DdevErrorView::CommandFailed(stderr@))
        },
    }
}

/// The view of what a call returned.
pub open spec fn text_result_view(result: Result<String, DdevError>) -> Result<
    Seq<char>,
    DdevErrorView,
> {
    match result {
        Ok(text) => Ok(text@),
        Err(e) => Err(e@),
    }
}

/// The request for a call of the tool that is waited for: the tool with
/// `args`, in the directory of the caller.
pub fn run_ddev_command_async(tool: &DdevTool, args: &Vec<String>) -> (request: SpawnRequest)
    ensures
        request@ == tool_request(tool@, args.deep_view(), None),
{
    tool.request(args, None)
}

/// What a call of the tool that was waited for returns: what the tool
/// wrote to `stdout` after a success; after a failure, what it wrote to
/// `stderr`, as a failed command; where it could not be started, that it
/// is not installed or what the operating system said.
pub fn command_output(outcome: CommandOutcome) -> (result: Result<String, DdevError>)
    ensures
        text_result_view(result) == command_result(outcome),
{
    match outcome {
        CommandOutcome::StartFailed { not_found, reason } => {
            if not_found {
                Err(DdevError::NotInstalled)
            } else {
                Err(DdevError::IoError(reason))
            }
        },
        CommandOutcome::Exited { success, stdout, stderr } => {
            if success {
                Ok(stdout)
            } else {
                Err(DdevError::CommandFailed(stderr))
            }
        },
    }
}

/// The arguments of a call whose answer is wanted as JSON.
pub open spec fn json_args(args: Seq<Seq<char>>) -> Seq<Seq<char>> {
    seq!["--json-output"@] + args
}

/// The request for a call of the tool whose answer is wanted as JSON:
/// `--json-output` stands before `args`.
pub fn run_ddev_json_command_async(tool: &DdevTool, args: &Vec<String>) -> (request: SpawnRequest)
    ensures
        request@ == tool_request(tool@, json_args(args.deep_view()), None),
{
    let mut full: Vec<String> = Vec::new();
    full.push(String::from_str("--json-output"));
    let mut i: usize = 0;
    while i < args.len()
        invariant
            i <= args.len(),
            full.len() == i + 1,
            full[0]@ == "--json-output"@,
            forall|j: int| 0 <= j < i ==> full[j + 1]@ == args[j]@,
        decreases args.len() - i,
    {
        full.push(args[i].clone());
        i = i + 1;
    }
    assert(full.deep_view() =~= json_args(args.deep_view()));
    run_ddev_command_async(tool, &full)
}

} // verus!
