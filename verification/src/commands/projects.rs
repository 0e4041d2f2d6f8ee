//! Listing, describing, starting, stopping and reconfiguring projects.

use vstd::prelude::*;
use vstd::string::*;
use crate::chain::{
    ChainItem, ChainItemView, ChainPhase, ChainStep, ChainStepView, ChainedTask, ChainedTaskView,
    FailurePolicy, FailurePolicyView, chain_started_event,
};
use crate::ddev::{
    CommandOutcome, DdevTool, DdevToolView, Launch, command_launch, entered, json_args,
    run_ddev_command_streaming, run_ddev_json_command_async, tool_request,
};
use crate::error::{DdevError, DdevErrorView};
use crate::events::{
    SpawnRequest, SpawnRequestView, TaskLabels, TaskLabelsView, UiEvent, UiEventView,
    status_event,
};
use crate::process::{
    ProcessIdGenerator, ProcessRegistry, idle_entry, process_id_text, was_issued,
};
use crate::step::command_line;
use crate::text::{
    concat, concat3, contains, contains_text, lowercase_text, same_text, split_lines, text_lines,
    to_lowercase,
};
use crate::types::{CommandOutput, DdevProjectDetails, StatusTag, StreamKind};

verus! {

fn args1(a: &str) -> (args: Vec<String>)
    ensures
        args.deep_view() == seq![a@],
{
    let mut args: Vec<String> = Vec::new();
    args.push(a.to_owned());
    assert(args.deep_view() =~= seq![a@]);
    args
}

fn args2(a: &str, b: &str) -> (args: Vec<String>)
    ensures
        args.deep_view() == seq![a@, b@],
{
    let mut args: Vec<String> = Vec::new();
    args.push(a.to_owned());
    args.push(b.to_owned());
    assert(args.deep_view() =~= seq![a@, b@]);
    args
}

/// The call that lists all projects.
pub fn list_projects(tool: &DdevTool) -> (request: SpawnRequest)
    ensures
        request@ == tool_request(tool@, json_args(seq!["list"@]), None),
{
    run_ddev_json_command_async(tool, &args1("list"))
}

/// The call that describes the project `name`.
pub fn describe_project(tool: &DdevTool, name: &str) -> (request: SpawnRequest)
    ensures
        request@ == tool_request(tool@, json_args(seq!["describe"@, name@]), None),
{
    run_ddev_json_command_async(tool, &args2("describe", name))
}

/// Whether the description of a project is to be completed by asking the
/// running project whether Xdebug is on: the description gives the
/// configured value, which a running project may have left behind.
pub fn needs_xdebug_check(details: &DdevProjectDetails) -> (needed: bool)
    ensures
        needed == (details.status@ == "running"@),
{
    same_text(details.status.as_str(), "running")
}

/// The call that asks a running project whether Xdebug is on.
pub fn check_xdebug_runtime(tool: &DdevTool, approot: &str) -> (request: SpawnRequest)
    ensures
        request@ == tool_request(tool@, seq!["xdebug"@, "status"@], Some(approot@)),
{
    tool.request(&args2("xdebug", "status"), Some(approot.to_owned()))
}

/// Whether a text in lower case reports that Xdebug is on.
pub fn reports_xdebug(lowered: &str) -> (enabled: bool)
    ensures
        enabled == contains_text(lowered@, "xdebug enabled"@),
{
    contains(lowered, "xdebug enabled")
}

/// What the answer to `check_xdebug_runtime` says.
pub open spec fn xdebug_answer(outcome: CommandOutcome) -> Result<bool, DdevErrorView> {
    match outcome {
        CommandOutcome::StartFailed { not_found, reason } => Err(DdevErrorView::IoError(reason@)),
        CommandOutcome::Exited { success, stdout, stderr } => Ok(
            contains_text(lowercase_text(stdout@ + stderr@), "xdebug enabled"@),
        ),
    }
}

/// What the answer to `check_xdebug_runtime` says: Xdebug is on if what
/// the tool wrote, to either pipe and in whatever case, holds the words
/// `xdebug enabled`.
pub fn xdebug_runtime(outcome: CommandOutcome) -> (result: Result<bool, DdevError>)
    ensures
        crate::commands::create::bool_result_view(result) == xdebug_answer(outcome),
{
    match outcome {
        CommandOutcome::StartFailed { not_found, reason } => Err(DdevError::IoError(reason)),
        CommandOutcome::Exited { success, stdout, stderr } => {
            let combined = concat(stdout.as_str(), stderr.as_str());
            let lowered = to_lowercase(combined.as_str());
            Ok(reports_xdebug(lowered.as_str()))
        },
    }
}

/// Completes the description of a project: where the running project has
/// told whether Xdebug is on, that replaces the configured value.
pub fn apply_xdebug_runtime(details: &mut DdevProjectDetails, runtime: Option<bool>)
    ensures
        *final(details) == (DdevProjectDetails {
            xdebug_enabled: match runtime {
                Some(enabled) => enabled,
                None => old(details).xdebug_enabled,
            },
            ..*old(details)
        }),
{
    match runtime {
        Some(enabled) => {
            details.xdebug_enabled = enabled;
        },
        None => {},
    }
}

/// Launches the start of the project `name`.
pub fn start_project<H>(ids: &mut ProcessIdGenerator, registry: &mut ProcessRegistry<H>, tool: &DdevTool, name: &str) -> (launch: Launch)
    ensures
        final(ids).issued() == old(ids).issued() + 1,
        !was_issued(old(ids).issued(), launch@.process_id),
        final(registry)@ == entered(old(registry)@, launch@),
        launch@ == command_launch(
            tool@,
            process_id_text(final(ids).issued()),
            "start"@,
            name@,
            seq!["start"@, name@],
            None,
        ),
{
    run_ddev_command_streaming(ids, registry, tool, "start", name, &args2("start", name))
}

/// Launches the stop of the project `name`.
pub fn stop_project<H>(ids: &mut ProcessIdGenerator, registry: &mut ProcessRegistry<H>, tool: &DdevTool, name: &str) -> (launch: Launch)
    ensures
        final(ids).issued() == old(ids).issued() + 1,
        !was_issued(old(ids).issued(), launch@.process_id),
        final(registry)@ == entered(old(registry)@, launch@),
        launch@ == command_launch(
            tool@,
            process_id_text(final(ids).issued()),
            "stop"@,
            name@,
            seq!["stop"@, name@],
            None,
        ),
{
    run_ddev_command_streaming(ids, registry, tool, "stop", name, &args2("stop", name))
}

/// Launches the restart of the project `name`.
pub fn restart_project<H>(ids: &mut ProcessIdGenerator, registry: &mut ProcessRegistry<H>, tool: &DdevTool, name: &str) -> (launch:
    Launch)
    ensures
        final(ids).issued() == old(ids).issued() + 1,
        !was_issued(old(ids).issued(), launch@.process_id),
        final(registry)@ == entered(old(registry)@, launch@),
        launch@ == command_launch(
            tool@,
            process_id_text(final(ids).issued()),
            "restart"@,
            name@,
            seq!["restart"@, name@],
            None,
        ),
{
    run_ddev_command_streaming(ids, registry, tool, "restart", name, &args2("restart", name))
}

/// Launches the shutdown of all projects.
pub fn poweroff<H>(ids: &mut ProcessIdGenerator, registry: &mut ProcessRegistry<H>, tool: &DdevTool) -> (launch: Launch)
    ensures
        final(ids).issued() == old(ids).issued() + 1,
        !was_issued(old(ids).issued(), launch@.process_id),
        final(registry)@ == entered(old(registry)@, launch@),
        launch@ == command_launch(
            tool@,
            process_id_text(final(ids).issued()),
            "poweroff"@,
            "all"@,
            seq!["poweroff"@],
            None,
        ),
{
    run_ddev_command_streaming(ids, registry, tool, "poweroff", "all", &args1("poweroff"))
}

/// Launches the deletion of the project `name`: its containers and its
/// configuration go, without a snapshot and without a question; its files
/// stay.
pub fn delete_project<H>(ids: &mut ProcessIdGenerator, registry: &mut ProcessRegistry<H>, tool: &DdevTool, name: &str) -> (launch:
    Launch)
    ensures
        final(ids).issued() == old(ids).issued() + 1,
        !was_issued(old(ids).issued(), launch@.process_id),
        final(registry)@ == entered(old(registry)@, launch@),
        launch@ == command_launch(
            tool@,
            process_id_text(final(ids).issued()),
            "delete"@,
            name@,
            seq!["delete"@, "--omit-snapshot"@, "--yes"@, name@],
            None,
        ),
{
    let mut args: Vec<String> = Vec::new();
    args.push("delete".to_owned());
    args.push("--omit-snapshot".to_owned());
    args.push("--yes".to_owned());
    args.push(name.to_owned());
    assert(args.deep_view() =~= seq!["delete"@, "--omit-snapshot"@, "--yes"@, name@]);
    run_ddev_command_streaming(ids, registry, tool, "delete", name, &args)
}

/// The argument that sets the option `flag` of a project to `value`.
pub open spec fn config_flag_arg(flag: Seq<char>, value: Seq<char>) -> Seq<char> {
    "--"@ + flag + "="@ + value
}

/// The message of the `error` event after the option `flag` could not be
/// changed.
pub open spec fn change_failure(flag: Seq<char>) -> Seq<char> {
    "Failed to change "@ + flag
}

/// The message of the `error` event after the project could not be
/// restarted.
pub open spec fn restart_failure() -> Seq<char> {
    "Failed to restart project"@
}

/// The work of changing an option of a project: the tool sets the option
/// and, where `restart` says so, restarts the project.
pub open spec fn change_items(
    tool: DdevToolView,
    approot: Seq<char>,
    flag: Seq<char>,
    value: Seq<char>,
    restart: bool,
) -> Seq<ChainItemView> {
    seq![
        ChainItemView::Run(
            ChainStepView {
                announce: Some("Running: ddev config "@ + config_flag_arg(flag, value)),
                request: SpawnRequestView {
                    program: tool.program,
                    args: seq!["config"@, config_flag_arg(flag, value)],
                    cwd: Some(approot),
                    path: tool.path,
                },
                on_failure: FailurePolicyView::Abort(change_failure(flag)),
            },
        ),
    ] + (if restart {
        seq![
            ChainItemView::Run(
                ChainStepView {
                    announce: Some("Restarting project..."@),
                    request: SpawnRequestView {
                        program: tool.program,
                        args: seq!["restart"@],
                        cwd: Some(approot),
                        path: tool.path,
                    },
                    on_failure: FailurePolicyView::Abort(restart_failure()),
                },
            ),
        ]
    } else {
        Seq::empty()
    })
}

/// The task that changes an option of a project.
pub open spec fn change_task<H>(
    tool: DdevToolView,
    id: Seq<char>,
    name: Seq<char>,
    approot: Seq<char>,
    flag: Seq<char>,
    value: Seq<char>,
    command_name: Seq<char>,
    success_message: Seq<char>,
    restart: bool,
) -> ChainedTaskView<H> {
    ChainedTaskView {
        process_id: id,
        command: command_name,
        project: name,
        items: change_items(tool, approot, flag, value, restart),
        position: 0,
        success_message,
        phase: ChainPhase::Ready,
        current: None,
        jump: None,
    }
}

/// Begins the change of the option `config_flag` of the project `name` to
/// `config_value`, followed by a restart of the project where `restart`
/// says so.
///
/// The task is entered in the registry at once and announced by a
/// `started` event that carries its identifier. A failure of either step
/// ends the task with a message of its own.
pub fn change_project_config<H>(
    ids: &mut ProcessIdGenerator,
    registry: &mut ProcessRegistry<H>,
    tool: &DdevTool,
    name: &str,
    approot: &str,
    config_flag: &str,
    config_value: &str,
    command_name: &str,
    success_message: String,
    restart: bool,
) -> (begun: (ChainedTask<H>, UiEvent))
    ensures
        final(ids).issued() == old(ids).issued() + 1,
        !was_issued(old(ids).issued(), begun.0@.process_id),
        final(registry)@ == old(registry)@.insert(
            begun.0@.process_id,
            idle_entry::<H>(command_name@, name@),
        ),
        begun.0@ == change_task::<H>(
            tool@,
            process_id_text(final(ids).issued()),
            name@,
            approot@,
            config_flag@,
            config_value@,
            command_name@,
            success_message@,
            restart,
        ),
        begun.1@ == chain_started_event(
            command_name@,
            name@,
            "Changing "@ + config_flag@ + " to "@ + config_value@,
            begun.0@.process_id,
        ),
{
    let mut started_message = concat3("Changing ", config_flag, " to ");
    started_message.append(config_value);
    let mut config_arg = concat3("--", config_flag, "=");
    config_arg.append(config_value);
    let config = ChainItem::Run(
        ChainStep {
            announce: Some(concat("Running: ddev config ", config_arg.as_str())),
            request: SpawnRequest {
                program: tool.program.clone(),
                args: args2("config", config_arg.as_str()),
                cwd: Some(approot.to_owned()),
                path: tool.path.clone(),
            },
            on_failure: FailurePolicy::Abort(concat("Failed to change ", config_flag)),
        },
    );
    let mut items: Vec<ChainItem> = Vec::new();
    items.push(config);
    if restart {
        items.push(
            ChainItem::Run(
                ChainStep {
                    announce: Some("Restarting project...".to_owned()),
                    request: SpawnRequest {
                        program: tool.program.clone(),
                        args: args1("restart"),
                        cwd: Some(approot.to_owned()),
                        path: tool.path.clone(),
                    },
                    on_failure: FailurePolicy::Abort("Failed to restart project".to_owned()),
                },
            ),
        );
    }
    assert(items.deep_view() =~= change_items(
        tool@,
        approot@,
        config_flag@,
        config_value@,
        restart,
    ));
    ChainedTask::start(ids, registry, command_name, name, started_message, success_message, items)
}

/// The two steps of a change fail with different messages, whatever the
/// option: the one `error` event of a failed change tells whether the
/// option or the restart went wrong.
pub proof fn lemma_change_failures_distinct(flag: Seq<char>)
    ensures
        change_failure(flag) != restart_failure(),
{
    reveal_strlit("Failed to change ");
    reveal_strlit("Failed to restart project");
    assert(change_failure(flag)[10] == 'c');
    assert(restart_failure()[10] == 'r');
}

/// Begins the change of the PHP version of the project `name`.
pub fn change_php_version<H>(
    ids: &mut ProcessIdGenerator,
    registry: &mut ProcessRegistry<H>,
    tool: &DdevTool,
    name: &str,
    approot: &str,
    php_version: &str,
    restart: bool,
) -> (begun: (ChainedTask<H>, UiEvent))
    ensures
        final(ids).issued() == old(ids).issued() + 1,
        !was_issued(old(ids).issued(), begun.0@.process_id),
        final(registry)@ == old(registry)@.insert(
            begun.0@.process_id,
            idle_entry::<H>("change-php"@, name@),
        ),
        begun.0@ == change_task::<H>(
            tool@,
            process_id_text(final(ids).issued()),
            name@,
            approot@,
            "php-version"@,
            php_version@,
            "change-php"@,
            "PHP version changed to "@ + php_version@ + " successfully"@,
            restart,
        ),
        begun.1@ == chain_started_event(
            "change-php"@,
            name@,
            "Changing "@ + "php-version"@ + " to "@ + php_version@,
            begun.0@.process_id,
        ),
{
    change_project_config(
        ids,
        registry,
        tool,
        name,
        approot,
        "php-version",
        php_version,
        "change-php",
        concat3("PHP version changed to ", php_version, " successfully"),
        restart,
    )
}

/// Begins the change of the Node.js version of the project `name`.
pub fn change_nodejs_version<H>(
    ids: &mut ProcessIdGenerator,
    registry: &mut ProcessRegistry<H>,
    tool: &DdevTool,
    name: &str,
    approot: &str,
    nodejs_version: &str,
    restart: bool,
) -> (begun: (ChainedTask<H>, UiEvent))
    ensures
        final(ids).issued() == old(ids).issued() + 1,
        !was_issued(old(ids).issued(), begun.0@.process_id),
        final(registry)@ == old(registry)@.insert(
            begun.0@.process_id,
            idle_entry::<H>("change-nodejs"@, name@),
        ),
        begun.0@ == change_task::<H>(
            tool@,
            process_id_text(final(ids).issued()),
            name@,
            approot@,
            "nodejs-version"@,
            nodejs_version@,
            "change-nodejs"@,
            "Node.js version changed to "@ + nodejs_version@ + " successfully"@,
            restart,
        ),
        begun.1@ == chain_started_event(
            "change-nodejs"@,
            name@,
            "Changing "@ + "nodejs-version"@ + " to "@ + nodejs_version@,
            begun.0@.process_id,
        ),
{
    change_project_config(
        ids,
        registry,
        tool,
        name,
        approot,
        "nodejs-version",
        nodejs_version,
        "change-nodejs",
        concat3("Node.js version changed to ", nodejs_version, " successfully"),
        restart,
    )
}

/// The word with which a service is switched.
pub open spec fn toggle_action(enable: bool) -> Seq<char> {
    if enable {
        "on"@
    } else {
        "off"@
    }
}

/// The labels under which the switching of a service reports.
pub open spec fn toggle_labels(name: Seq<char>, service: Seq<char>) -> TaskLabelsView {
    TaskLabelsView::Command { command: "toggle-"@ + service, project: name }
}

/// What the tool is asked to do, in words: `ddev`, the service, the action.
pub open spec fn toggle_words(service: Seq<char>, enable: bool) -> Seq<char> {
    "ddev "@ + service + " "@ + toggle_action(enable)
}

fn action_word(enable: bool) -> (word: &'static str)
    ensures
        word@ == toggle_action(enable),
{
    if enable {
        "on"
    } else {
        "off"
    }
}

fn toggle_text(service: &str, enable: bool) -> (words: String)
    ensures
        words@ == toggle_words(service@, enable),
{
    let mut words = concat3("ddev ", service, " ");
    words.append(action_word(enable));
    words
}

/// Begins switching the service `service` of the project `name` on or
/// off: the call to make, in the project's directory, and the `started`
/// event. The call is waited for and cannot be cancelled, so the event
/// carries no identifier.
pub fn toggle_service(tool: &DdevTool, name: &str, approot: &str, service: &str, enable: bool) -> (begun:
    (SpawnRequest, UiEvent))
    ensures
        begun.0@ == tool_request(tool@, seq![service@, toggle_action(enable)], Some(approot@)),
        begun.1@ == status_event(
            toggle_labels(name@, service@),
            StatusTag::Started,
            "Running: "@ + toggle_words(service@, enable),
            None,
        ),
{
    let request = tool.request(&args2(service, action_word(enable)), Some(approot.to_owned()));
    let labels = TaskLabels::command(concat("toggle-", service).as_str(), name);
    let message = concat("Running: ", toggle_text(service, enable).as_str());
    (request, labels.status(StatusTag::Started, message, None))
}

/// The events that report `lines` as read from the pipe `kind`.
pub open spec fn line_events(lines: Seq<Seq<char>>, kind: StreamKind) -> Seq<UiEventView> {
    Seq::new(lines.len(), |i: int| command_line(lines[i], kind))
}

/// The events that report how the switching of a service went: after a
/// failed start one `error` event; otherwise what the tool wrote to
/// `stdout`, line by line, then what it wrote to `stderr`, then one
/// `finished` or `error` event.
pub open spec fn toggle_events(
    name: Seq<char>,
    service: Seq<char>,
    enable: bool,
    outcome: CommandOutcome,
) -> Seq<UiEventView> {
    let labels = toggle_labels(name, service);
    let words = toggle_words(service, enable);
    match outcome {
        CommandOutcome::StartFailed { not_found, reason } => seq![
            status_event(labels, StatusTag::Error, "Failed to run "@ + words, None),
        ],
        CommandOutcome::Exited { success, stdout, stderr } => line_events(
            text_lines(stdout@),
            StreamKind::Stdout,
        ) + line_events(text_lines(stderr@), StreamKind::Stderr) + seq![
            if success {
                status_event(labels, StatusTag::Finished, words + " completed"@, None)
            } else {
                status_event(labels, StatusTag::Error, words + " failed"@, None)
            },
        ],
    }
}

/// What the switching of a service returns.
pub open spec fn toggle_result(service: Seq<char>, enable: bool, outcome: CommandOutcome) -> Result<
    (),
    DdevErrorView,
> {
    match outcome {
        CommandOutcome::StartFailed { not_found, reason } => if not_found {
            Err(DdevErrorView::NotInstalled)
        } else {
            Err(DdevErrorView::IoError(reason@))
        },
        CommandOutcome::Exited { success, stdout, stderr } => if success {
            Ok(())
        } else {
            Err(DdevErrorView::CommandFailed(toggle_words(service, enable) + " failed"@))
        },
    }
}

/// The view of a result without a value.
pub open spec fn unit_result_view(result: Result<(), DdevError>) -> Result<(), DdevErrorView> {
    match result {
        Ok(_) => Ok(()),
        Err(e) => Err(e@),
    }
}

fn push_lines(events: &mut Vec<UiEvent>, lines: &Vec<String>, kind: StreamKind)
    ensures
        final(events).deep_view() == old(events).deep_view() + line_events(lines.deep_view(), kind),
{
    let mut i: usize = 0;
    while i < lines.len()
        invariant
            i <= lines.len(),
            events.deep_view() == old(events).deep_view() + line_events(
                lines.deep_view().take(i as int),
                kind,
            ),
        decreases lines.len() - i,
    {
        let ghost before = events.deep_view();
        let event = UiEvent::CommandOutput(CommandOutput::new(lines[i].clone(), kind));
        events.push(event);
        proof {
            assert(events.deep_view() =~= before.push(event@));
            assert(line_events(lines.deep_view().take(i + 1), kind) =~= line_events(
                lines.deep_view().take(i as int),
                kind,
            ).push(command_line(lines[i as int]@, kind)));
            assert(events.deep_view() =~= old(events).deep_view() + line_events(
                lines.deep_view().take(i + 1),
                kind,
            ));
        }
        i = i + 1;
    }
    assert(lines.deep_view().take(lines.len() as int) =~= lines.deep_view());
}

/// Reports how the switching of a service went: the events to emit, in
/// order, and what to return to the caller.
pub fn toggle_service_report(name: &str, service: &str, enable: bool, outcome: CommandOutcome) -> (report:
    (Vec<UiEvent>, Result<(), DdevError>))
    ensures
        report.0.deep_view() == toggle_events(name@, service@, enable, outcome),
        unit_result_view(report.1) == toggle_result(service@, enable, outcome),
{
    let labels = TaskLabels::command(concat("toggle-", service).as_str(), name);
    let words = toggle_text(service, enable);
    let mut events: Vec<UiEvent> = Vec::new();
    assert(events.deep_view() =~= Seq::<UiEventView>::empty());
    match outcome {
        CommandOutcome::StartFailed { not_found, reason } => {
            let status = labels.status(
                StatusTag::Error,
                concat("Failed to run ", words.as_str()),
                None,
            );
            events.push(status);
            assert(events.deep_view() =~= seq![status@]);
            if not_found {
                (events, Err(DdevError::NotInstalled))
            } else {
                (events, Err(DdevError::IoError(reason)))
            }
        },
        CommandOutcome::Exited { success, stdout, stderr } => {
            push_lines(&mut events, &split_lines(stdout.as_str()), StreamKind::Stdout);
            push_lines(&mut events, &split_lines(stderr.as_str()), StreamKind::Stderr);
            let ghost lines = events.deep_view();
            if success {
                let status = labels.status(
                    StatusTag::Finished,
                    concat(words.as_str(), " completed"),
                    None,
                );
                events.push(status);
                assert(events.deep_view() =~= lines + seq![status@]);
                (events, Ok(()))
            } else {
                let status = labels.status(
                    StatusTag::Error,
                    concat(words.as_str(), " failed"),
                    None,
                );
                events.push(status);
                assert(events.deep_view() =~= lines + seq![status@]);
                (events, Err(DdevError::CommandFailed(concat(words.as_str(), " failed"))))
            }
        },
    }
}

} // verus!
