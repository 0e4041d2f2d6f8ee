//! Snapshots of a project's database: listing, taking, restoring and
//! removing them.

use vstd::prelude::*;
use vstd::string::*;
use crate::ddev::{
    DdevTool, Launch, command_launch, entered, run_ddev_command_async,
    run_ddev_command_streaming, run_ddev_command_streaming_in_dir, tool_request,
};
use crate::events::SpawnRequest;
use crate::process::{ProcessIdGenerator, ProcessRegistry, process_id_text, was_issued};
use crate::text::strings;

verus! {

/// The call that lists the snapshots of `project`, as JSON.
pub fn list_snapshots(tool: &DdevTool, project: &str) -> (request: SpawnRequest)
    ensures
        request@ == tool_request(
            tool@,
            seq!["snapshot"@, "--list"@, "--json-output"@, project@],
            None,
        ),
{
    let args = strings(&["snapshot", "--list", "--json-output", project]);
    assert(args.deep_view() =~= seq!["snapshot"@, "--list"@, "--json-output"@, project@]);
    run_ddev_command_async(tool, &args)
}

/// The arguments that take a snapshot of `project`, under `name` where one
/// is given.
pub open spec fn snapshot_args(project: Seq<char>, name: Option<Seq<char>>) -> Seq<Seq<char>> {
    match name {
        Some(name) => seq!["snapshot"@, "--name"@, name, project],
        None => seq!["snapshot"@, project],
    }
}

/// Launches the taking of a snapshot of `project`.
pub fn create_snapshot<H>(
    ids: &mut ProcessIdGenerator,
    registry: &mut ProcessRegistry<H>,
    tool: &DdevTool,
    project: &str,
    name: Option<&str>,
) -> (launch: Launch)
    ensures
        final(ids).issued() == old(ids).issued() + 1,
        !was_issued(old(ids).issued(), launch@.process_id),
        final(registry)@ == entered(old(registry)@, launch@),
        launch@ == command_launch(
            tool@,
            process_id_text(final(ids).issued()),
            "snapshot"@,
            project@,
            snapshot_args(project@, name.deep_view()),
            None,
        ),
{
    let args = match name {
        Some(name) => {
            let args = strings(&["snapshot", "--name", name, project]);
            assert(args.deep_view() =~= seq!["snapshot"@, "--name"@, name@, project@]);
            args
        },
        None => {
            let args = strings(&["snapshot", project]);
            assert(args.deep_view() =~= seq!["snapshot"@, project@]);
            args
        },
    };
    run_ddev_command_streaming(ids, registry, tool, "snapshot", project, &args)
}

/// Launches the restoring of the snapshot `snapshot` of `project`. The
/// tool takes no project name here, so it runs in the project's own
/// directory, `approot`.
pub fn restore_snapshot<H>(
    ids: &mut ProcessIdGenerator,
    registry: &mut ProcessRegistry<H>,
    tool: &DdevTool,
    project: &str,
    snapshot: &str,
    approot: &str,
) -> (launch: Launch)
    ensures
        final(ids).issued() == old(ids).issued() + 1,
        !was_issued(old(ids).issued(), launch@.process_id),
        final(registry)@ == entered(old(registry)@, launch@),
        launch@ == command_launch(
            tool@,
            process_id_text(final(ids).issued()),
            "snapshot-restore"@,
            project@,
            seq!["snapshot"@, "restore"@, snapshot@],
            Some(approot@),
        ),
{
    let args = strings(&["snapshot", "restore", snapshot]);
    assert(args.deep_view() =~= seq!["snapshot"@, "restore"@, snapshot@]);
    run_ddev_command_streaming_in_dir(ids, registry, tool, "snapshot-restore", project, &args, approot)
}

/// Launches the removal of the snapshot `snapshot` of `project`.
pub fn delete_snapshot<H>(
    ids: &mut ProcessIdGenerator,
    registry: &mut ProcessRegistry<H>,
    tool: &DdevTool,
    project: &str,
    snapshot: &str,
) -> (launch: Launch)
    ensures
        final(ids).issued() == old(ids).issued() + 1,
        !was_issued(old(ids).issued(), launch@.process_id),
        final(registry)@ == entered(old(registry)@, launch@),
        launch@ == command_launch(
            tool@,
            process_id_text(final(ids).issued()),
            "snapshot-delete"@,
            project@,
            seq!["snapshot"@, "--cleanup"@, "--name"@, snapshot@, "-y"@, project@],
            None,
        ),
{
    let args = strings(&["snapshot", "--cleanup", "--name", snapshot, "-y", project]);
    assert(args.deep_view() =~= seq![
        "snapshot"@,
        "--cleanup"@,
        "--name"@,
        snapshot@,
        "-y"@,
        project@,
    ]);
    run_ddev_command_streaming(ids, registry, tool, "snapshot-delete", project, &args)
}

/// Launches the removal of all snapshots of `project`.
pub fn cleanup_snapshots<H>(ids: &mut ProcessIdGenerator, registry: &mut ProcessRegistry<H>, tool: &DdevTool, project: &str) -> (launch:
    Launch)
    ensures
        final(ids).issued() == old(ids).issued() + 1,
        !was_issued(old(ids).issued(), launch@.process_id),
        final(registry)@ == entered(old(registry)@, launch@),
        launch@ == command_launch(
            tool@,
            process_id_text(final(ids).issued()),
            "snapshot-cleanup"@,
            project@,
            seq!["snapshot"@, "--cleanup"@, "-y"@, project@],
            None,
        ),
{
    let args = strings(&["snapshot", "--cleanup", "-y", project]);
    assert(args.deep_view() =~= seq!["snapshot"@, "--cleanup"@, "-y"@, project@]);
    run_ddev_command_streaming(ids, registry, tool, "snapshot-cleanup", project, &args)
}

} // verus!
