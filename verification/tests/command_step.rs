use ddev_manager::events::{Reaction, RunnerAction, RunnerEvent, SpawnRequest, TaskEnd, UiEvent};
use ddev_manager::process::{
    cancel_command, create_task_entry, is_process_cancelled, take_child_process, ProcessRegistry,
};
use ddev_manager::runner::TaskPhase;
use ddev_manager::step::{run_streaming_command, StreamingCommand};
use ddev_manager::text::strings;
use ddev_manager::types::{CommandOutput, StreamKind};

fn step_line(line: &str, stream: &str) -> UiEvent {
    UiEvent::CommandOutput(CommandOutput {
        line: line.to_string(),
        stream: stream.to_string(),
    })
}

fn begin_step(
    registry: &ProcessRegistry<u32>,
    id: Option<&str>,
) -> (StreamingCommand<u32>, Reaction<u32>) {
    run_streaming_command(
        registry,
        "composer",
        &strings(&["install"]),
        "/srv/shop",
        "/usr/bin",
        id,
        "config",
        "shop",
    )
}

fn composer_request() -> SpawnRequest {
    SpawnRequest {
        program: "composer".to_string(),
        args: strings(&["install"]),
        cwd: Some("/srv/shop".to_string()),
        path: "/usr/bin".to_string(),
    }
}

#[test]
fn a_step_of_a_cancelled_task_does_not_start() {
    let registry: ProcessRegistry<u32> = ProcessRegistry::new();
    let (command, first) = begin_step(&registry, Some("proc_1"));
    assert_eq!(
        first,
        Reaction { emit: vec![], action: RunnerAction::Finish(TaskEnd::Cancelled) }
    );
    assert_eq!(command.phase(), TaskPhase::Done(TaskEnd::Cancelled));
}

#[test]
fn a_step_of_a_live_task_asks_for_its_process() {
    let mut registry: ProcessRegistry<u32> = ProcessRegistry::new();
    create_task_entry(&mut registry, "proc_1", "config", "shop");
    let (command, first) = begin_step(&registry, Some("proc_1"));
    assert_eq!(
        first,
        Reaction { emit: vec![], action: RunnerAction::Spawn(composer_request()) }
    );
    assert_eq!(command.phase(), TaskPhase::Spawning);
}

#[test]
fn a_step_registers_its_process_and_takes_it_back() {
    let mut registry: ProcessRegistry<u32> = ProcessRegistry::new();
    create_task_entry(&mut registry, "proc_1", "config", "shop");
    let (mut command, _first) = begin_step(&registry, Some("proc_1"));
    let spawned = command.advance(&mut registry, RunnerEvent::Spawned(12));
    assert_eq!(spawned.action, RunnerAction::Stream);
    let line = command.advance(
        &mut registry,
        RunnerEvent::Line(StreamKind::Stdout, "Installing".to_string()),
    );
    assert_eq!(
        line,
        Reaction { emit: vec![step_line("Installing", "stdout")], action: RunnerAction::Stream }
    );
    let drained = command.advance(&mut registry, RunnerEvent::Drained);
    assert_eq!(drained.action, RunnerAction::Wait(12));
    assert!(!is_process_cancelled(&registry, "proc_1"));
    assert_eq!(take_child_process(&mut registry, "proc_1"), None);
    let exited = command.advance(&mut registry, RunnerEvent::Exited(true));
    assert_eq!(
        exited,
        Reaction { emit: vec![], action: RunnerAction::Finish(TaskEnd::Succeeded) }
    );
    assert_eq!(command.phase(), TaskPhase::Done(TaskEnd::Succeeded));
    assert!(!is_process_cancelled(&registry, "proc_1"));
}

#[test]
fn a_step_tells_failure_from_success() {
    let mut registry: ProcessRegistry<u32> = ProcessRegistry::new();
    create_task_entry(&mut registry, "proc_1", "config", "shop");
    let (mut command, _first) = begin_step(&registry, Some("proc_1"));
    command.advance(&mut registry, RunnerEvent::Spawned(12));
    command.advance(&mut registry, RunnerEvent::Drained);
    let exited = command.advance(&mut registry, RunnerEvent::Exited(false));
    assert_eq!(exited.action, RunnerAction::Finish(TaskEnd::Failed));

    let (mut other, _first) = begin_step(&registry, Some("proc_1"));
    other.advance(&mut registry, RunnerEvent::Spawned(13));
    other.advance(&mut registry, RunnerEvent::Drained);
    let failed = other.advance(&mut registry, RunnerEvent::WaitFailed);
    assert_eq!(failed.action, RunnerAction::Finish(TaskEnd::Failed));
}

#[test]
fn a_step_that_cannot_start_reports_a_line() {
    let mut registry: ProcessRegistry<u32> = ProcessRegistry::new();
    create_task_entry(&mut registry, "proc_1", "config", "shop");
    let (mut command, _first) = begin_step(&registry, Some("proc_1"));
    let failed = command.advance(
        &mut registry,
        RunnerEvent::SpawnFailed("No such file or directory (os error 2)".to_string()),
    );
    assert_eq!(
        failed,
        Reaction {
            emit: vec![step_line(
                "Failed to start composer: No such file or directory (os error 2)",
                "stderr"
            )],
            action: RunnerAction::Finish(TaskEnd::SpawnFailed),
        }
    );
    assert_eq!(command.phase(), TaskPhase::Done(TaskEnd::SpawnFailed));
    assert!(!is_process_cancelled(&registry, "proc_1"));
}

#[test]
fn a_step_tells_a_failed_start_from_a_failed_run() {
    let mut registry: ProcessRegistry<u32> = ProcessRegistry::new();
    create_task_entry(&mut registry, "proc_1", "config", "shop");
    let (mut unstarted, _first) = begin_step(&registry, Some("proc_1"));
    let no_start = unstarted.advance(&mut registry, RunnerEvent::SpawnFailed("gone".to_string()));
    let (mut failing, _first) = begin_step(&registry, Some("proc_1"));
    failing.advance(&mut registry, RunnerEvent::Spawned(3));
    failing.advance(&mut registry, RunnerEvent::Drained);
    let no_success = failing.advance(&mut registry, RunnerEvent::Exited(false));
    assert_eq!(no_start.action, RunnerAction::Finish(TaskEnd::SpawnFailed));
    assert_eq!(no_success.action, RunnerAction::Finish(TaskEnd::Failed));
    assert_ne!(no_start.action, no_success.action);
    assert_ne!(unstarted.phase(), failing.phase());
}

#[test]
fn a_step_cancelled_while_its_process_is_being_started() {
    let mut registry: ProcessRegistry<u32> = ProcessRegistry::new();
    create_task_entry(&mut registry, "proc_1", "config", "shop");
    let (mut command, _first) = begin_step(&registry, Some("proc_1"));
    cancel_command(&mut registry, "proc_1".to_string()).unwrap();
    let spawned = command.advance(&mut registry, RunnerEvent::Spawned(12));
    assert_eq!(spawned, Reaction { emit: vec![], action: RunnerAction::Reap(12) });
    assert_eq!(command.phase(), TaskPhase::Done(TaskEnd::Cancelled));
    assert!(is_process_cancelled(&registry, "proc_1"));

    create_task_entry(&mut registry, "proc_2", "config", "shop");
    let (mut other, _first) = begin_step(&registry, Some("proc_2"));
    cancel_command(&mut registry, "proc_2".to_string()).unwrap();
    let failed = other.advance(&mut registry, RunnerEvent::SpawnFailed("gone".to_string()));
    assert_eq!(
        failed,
        Reaction { emit: vec![], action: RunnerAction::Finish(TaskEnd::Cancelled) }
    );
}

#[test]
fn a_step_cancelled_while_running_ends_as_cancelled() {
    let mut registry: ProcessRegistry<u32> = ProcessRegistry::new();
    create_task_entry(&mut registry, "proc_1", "config", "shop");
    let (mut command, _first) = begin_step(&registry, Some("proc_1"));
    command.advance(&mut registry, RunnerEvent::Spawned(12));
    let cancelled = cancel_command(&mut registry, "proc_1".to_string()).unwrap();
    assert_eq!(cancelled.child, Some(12));
    let drained = command.advance(&mut registry, RunnerEvent::Drained);
    assert_eq!(
        drained,
        Reaction { emit: vec![], action: RunnerAction::Finish(TaskEnd::Cancelled) }
    );
}

#[test]
fn a_step_whose_process_was_taken_counts_as_done() {
    let mut registry: ProcessRegistry<u32> = ProcessRegistry::new();
    create_task_entry(&mut registry, "proc_1", "config", "shop");
    let (mut command, _first) = begin_step(&registry, Some("proc_1"));
    command.advance(&mut registry, RunnerEvent::Spawned(12));
    assert_eq!(take_child_process(&mut registry, "proc_1"), Some(12));
    let drained = command.advance(&mut registry, RunnerEvent::Drained);
    assert_eq!(
        drained,
        Reaction { emit: vec![], action: RunnerAction::Finish(TaskEnd::Succeeded) }
    );
}

#[test]
fn a_step_without_a_task_holds_its_process_itself() {
    let mut registry: ProcessRegistry<u32> = ProcessRegistry::new();
    let (mut command, first) = begin_step(&registry, None);
    assert_eq!(first.action, RunnerAction::Spawn(composer_request()));
    command.advance(&mut registry, RunnerEvent::Spawned(5));
    assert_eq!(registry.len(), 0);
    let drained = command.advance(&mut registry, RunnerEvent::Drained);
    assert_eq!(drained.action, RunnerAction::Wait(5));
    let exited = command.advance(&mut registry, RunnerEvent::Exited(false));
    assert_eq!(exited.action, RunnerAction::Finish(TaskEnd::Failed));
}

#[test]
fn a_step_hands_back_events_out_of_turn() {
    let mut registry: ProcessRegistry<u32> = ProcessRegistry::new();
    create_task_entry(&mut registry, "proc_1", "config", "shop");
    let (mut command, _first) = begin_step(&registry, Some("proc_1"));
    let early = command.advance(&mut registry, RunnerEvent::Drained);
    assert_eq!(early.action, RunnerAction::Rejected(RunnerEvent::Drained));
    let probe = command.advance(&mut registry, RunnerEvent::Probed(true));
    assert_eq!(probe.action, RunnerAction::Rejected(RunnerEvent::Probed(true)));
    assert_eq!(command.phase(), TaskPhase::Spawning);
}
