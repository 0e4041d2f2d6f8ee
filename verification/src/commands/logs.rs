//! The log stream of a service of a project.

use vstd::prelude::*;
use vstd::string::*;
use crate::ddev::{DdevTool, DdevToolView, Launch, LaunchView, entered};
use crate::events::{SpawnRequest, SpawnRequestView, TaskLabels, TaskLabelsView, status_event};
use crate::process::{
    ProcessIdGenerator, ProcessRegistry, create_task_entry, generate_process_id,
    process_id_text, was_issued,
};
use crate::runner::{StreamingTask, StreamingTaskView, TaskPhase, TaskTexts};
use crate::text::{concat3, decimal_text, push_decimal, push_string};
use crate::types::StatusTag;

verus! {

/// The arguments that ask for the log of `service` of `project`: to be
/// followed where `follow` says so, cut to its last `tail` lines where a
/// number is given, and with the time of each line where `timestamps` says
/// so.
pub open spec fn log_args(
    project: Seq<char>,
    service: Seq<char>,
    follow: bool,
    tail: Option<u32>,
    timestamps: bool,
) -> Seq<Seq<char>> {
    seq!["logs"@, "-s"@, service] + (if follow {
        seq!["-f"@]
    } else {
        Seq::empty()
    }) + (match tail {
        Some(n) => seq!["--tail="@ + decimal_text(n as nat)],
        None => Seq::empty(),
    }) + (if timestamps {
        seq!["-t"@]
    } else {
        Seq::empty()
    }) + seq![project]
}

/// The arguments that ask for the log of `service` of `project`.
pub fn log_arguments(project: &str, service: &str, follow: bool, tail: Option<u32>, timestamps: bool) -> (args:
    Vec<String>)
    ensures
        args.deep_view() == log_args(project@, service@, follow, tail, timestamps),
{
    let mut args: Vec<String> = Vec::new();
    args.push(String::from_str("logs"));
    args.push(String::from_str("-s"));
    args.push(String::from_str(service));
    assert(args.deep_view() =~= seq!["logs"@, "-s"@, service@]);
    let ghost none = Seq::<Seq<char>>::empty();
    if follow {
        push_string(&mut args, String::from_str("-f"));
    } else {
        assert(args.deep_view() =~= args.deep_view() + none);
    }
    match tail {
        Some(n) => {
            let mut flag = String::from_str("--tail=");
            push_decimal(&mut flag, n as u64);
            push_string(&mut args, flag);
        },
        None => {
            assert(args.deep_view() =~= args.deep_view() + none);
        },
    }
    if timestamps {
        push_string(&mut args, String::from_str("-t"));
    } else {
        assert(args.deep_view() =~= args.deep_view() + none);
    }
    push_string(&mut args, String::from_str(project));
    args
}

/// The launch of a log stream under the identifier `id`.
pub open spec fn logs_launch(
    tool: DdevToolView,
    id: Seq<char>,
    project: Seq<char>,
    service: Seq<char>,
    follow: bool,
    tail: Option<u32>,
    timestamps: bool,
) -> LaunchView {
    let labels = TaskLabelsView::Logs { project, service };
    LaunchView {
        process_id: id,
        started: status_event(
            labels,
            StatusTag::Started,
            "Getting logs for "@ + project + " ("@ + service + ")"@,
            Some(id),
        ),
        task: StreamingTaskView {
            process_id: id,
            labels,
            request: SpawnRequestView {
                program: tool.program,
                args: log_args(project, service, follow, tail, timestamps),
                cwd: None,
                path: tool.path,
            },
            spawn_failure: "Failed to get logs: "@,
            finished: "Log streaming completed"@,
            failed: "Log streaming failed"@,
            phase: TaskPhase::Ready,
        },
    }
}

/// Launches the log stream of `service` of `project` as a task that can be
/// cancelled, which is how a followed log is stopped. The task reports on
/// the channels for logs, and is entered in the registry as the command
/// `logs`.
pub fn get_logs<H>(
    ids: &mut ProcessIdGenerator,
    registry: &mut ProcessRegistry<H>,
    tool: &DdevTool,
    project: &str,
    service: &str,
    follow: bool,
    tail: Option<u32>,
    timestamps: bool,
) -> (launch: Launch)
    ensures
        final(ids).issued() == old(ids).issued() + 1,
        !was_issued(old(ids).issued(), launch@.process_id),
        final(registry)@ == entered(old(registry)@, launch@),
        launch@ == logs_launch(
            tool@,
            process_id_text(final(ids).issued()),
            project@,
            service@,
            follow,
            tail,
            timestamps,
        ),
{
    let process_id = generate_process_id(ids);
    let labels = TaskLabels::logs(project, service);
    let mut message = concat3("Getting logs for ", project, " (");
    message.append(service);
    message.append(")");
    let started = labels.status(StatusTag::Started, message, Some(process_id.clone()));
    let request = SpawnRequest {
        program: tool.program.clone(),
        args: log_arguments(project, service, follow, tail, timestamps),
        cwd: None,
        path: tool.path.clone(),
    };
    let texts = TaskTexts {
        spawn_failure: String::from_str("Failed to get logs: "),
        finished: String::from_str("Log streaming completed"),
        failed: String::from_str("Log streaming failed"),
    };
    create_task_entry(registry, process_id.as_str(), "logs", project);
    let task = StreamingTask::new(process_id.clone(), labels, texts, request);
    Launch { process_id, started, task }
}

} // verus!
