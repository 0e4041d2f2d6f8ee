//! The add-ons of a project, and the registry that offers them.

use vstd::prelude::*;
use vstd::string::*;
use crate::ddev::{
    DdevTool, Launch, command_launch, entered, run_ddev_command_async,
    run_ddev_command_streaming, tool_request,
};
use crate::error::{DdevError, DdevErrorView};
use crate::events::SpawnRequest;
use crate::process::{ProcessIdGenerator, ProcessRegistry, process_id_text, was_issued};
use crate::text::{concat, strings};
use crate::types::InstalledAddon;

verus! {

/// The call that lists the add-ons installed in `project`, as JSON.
pub fn list_installed_addons(tool: &DdevTool, project: &str) -> (request: SpawnRequest)
    ensures
        request@ == tool_request(
            tool@,
            seq!["--json-output"@, "add-on"@, "list"@, "--installed"@, "--project"@, project@],
            None,
        ),
{
    let args = strings(&["--json-output", "add-on", "list", "--installed", "--project", project]);
    assert(args.deep_view() =~= seq![
        "--json-output"@,
        "add-on"@,
        "list"@,
        "--installed"@,
        "--project"@,
        project@,
    ]);
    run_ddev_command_async(tool, &args)
}

/// The add-ons that an answer to `list_installed_addons` tells of: those
/// it lists, and none where the answer could not be read as a list, which
/// is how the tool says that nothing is installed.
pub fn installed_addons(parsed: Option<Vec<InstalledAddon>>) -> (addons: Vec<InstalledAddon>)
    ensures
        match parsed {
            Some(list) => addons == list,
            None => addons@.len() == 0,
        },
{
    match parsed {
        Some(list) => list,
        None => Vec::new(),
    }
}

/// Where the registry of add-ons is fetched from.
pub fn addon_registry_url() -> (url: &'static str)
    ensures
        url@ == "https://addons.ddev.com/addons.json"@,
{
    "https://addons.ddev.com/addons.json"
}

/// What went wrong while the registry of add-ons was fetched. Each holds
/// the words of whoever noticed.
#[derive(Debug)]
pub enum RegistryFailure {
    /// The request could not be sent.
    Request(String),
    /// The server answered with a status that is no success.
    Status(String),
    /// The answer could not be read to its end.
    Body(String),
    /// The answer is not the expected JSON.
    Json(String),
}

/// The error that a failed fetch of the registry is reported as.
pub open spec fn registry_error(failure: RegistryFailure) -> DdevErrorView {
    match failure {
        RegistryFailure::Request(e) => DdevErrorView::IoError("Failed to fetch registry: "@ + e@),
        RegistryFailure::Status(s) => DdevErrorView::CommandFailed(
            "Registry returned status "@ + s@,
        ),
        RegistryFailure::Body(e) => DdevErrorView::IoError("Failed to read response: "@ + e@),
        RegistryFailure::Json(e) => DdevErrorView::ParseError(
            "Failed to parse registry JSON: "@ + e@,
        ),
    }
}

/// The error that a failed fetch of the registry is reported as.
pub fn fetch_addon_registry(failure: RegistryFailure) -> (error: DdevError)
    ensures
        error@ == registry_error(failure),
{
    match failure {
        RegistryFailure::Request(e) => DdevError::IoError(
            concat("Failed to fetch registry: ", e.as_str()),
        ),
        RegistryFailure::Status(s) => DdevError::CommandFailed(
            concat("Registry returned status ", s.as_str()),
        ),
        RegistryFailure::Body(e) => DdevError::IoError(
            concat("Failed to read response: ", e.as_str()),
        ),
        RegistryFailure::Json(e) => DdevError::ParseError(
            concat("Failed to parse registry JSON: ", e.as_str()),
        ),
    }
}

/// Launches the installation of the add-on `addon` into `project`.
pub fn install_addon<H>(ids: &mut ProcessIdGenerator, registry: &mut ProcessRegistry<H>, tool: &DdevTool, project: &str, addon: &str) -> (launch:
    Launch)
    ensures
        final(ids).issued() == old(ids).issued() + 1,
        !was_issued(old(ids).issued(), launch@.process_id),
        final(registry)@ == entered(old(registry)@, launch@),
        launch@ == command_launch(
            tool@,
            process_id_text(final(ids).issued()),
            "addon-install"@,
            project@,
            seq!["add-on"@, "get"@, addon@, "--project"@, project@],
            None,
        ),
{
    let args = strings(&["add-on", "get", addon, "--project", project]);
    assert(args.deep_view() =~= seq!["add-on"@, "get"@, addon@, "--project"@, project@]);
    run_ddev_command_streaming(ids, registry, tool, "addon-install", project, &args)
}

/// Launches the removal of the add-on `addon` from `project`.
pub fn remove_addon<H>(ids: &mut ProcessIdGenerator, registry: &mut ProcessRegistry<H>, tool: &DdevTool, project: &str, addon: &str) -> (launch:
    Launch)
    ensures
        final(ids).issued() == old(ids).issued() + 1,
        !was_issued(old(ids).issued(), launch@.process_id),
        final(registry)@ == entered(old(registry)@, launch@),
        launch@ == command_launch(
            tool@,
            process_id_text(final(ids).issued()),
            "addon-remove"@,
            project@,
            seq!["add-on"@, "remove"@, addon@, "--project"@, project@],
            None,
        ),
{
    let args = strings(&["add-on", "remove", addon, "--project", project]);
    assert(args.deep_view() =~= seq!["add-on"@, "remove"@, addon@, "--project"@, project@]);
    run_ddev_command_streaming(ids, registry, tool, "addon-remove", project, &args)
}

} // verus!
