//! Small services: whether the tool is there, and opening what belongs to
//! a project in the programs of the desktop.

use vstd::prelude::*;
use vstd::string::*;
use crate::ddev::{DdevTool, run_ddev_command_async, tool_request};
use crate::error::{DdevError, DdevErrorView};
use crate::events::SpawnRequest;
use crate::text::{same_text, strings};

verus! {

/// The call that shows whether the tool is installed.
pub fn check_ddev_installed(tool: &DdevTool) -> (request: SpawnRequest)
    ensures
        request@ == tool_request(tool@, seq!["version"@], None),
{
    let args = strings(&["version"]);
    assert(args.deep_view() =~= seq!["version"@]);
    run_ddev_command_async(tool, &args)
}

/// The call that asks the tool for its version.
pub fn get_ddev_version(tool: &DdevTool) -> (request: SpawnRequest)
    ensures
        request@ == tool_request(tool@, seq!["version"@], None),
{
    let args = strings(&["version"]);
    assert(args.deep_view() =~= seq!["version"@]);
    run_ddev_command_async(tool, &args)
}

/// The kind of desktop that the application runs on.
#[derive(Clone, Copy, Debug, PartialEq, Eq, Structural)]
pub enum Platform {
    MacOs,
    Windows,
    Linux,
    /// A system on which nothing can be opened.
    Other,
}

/// A program of the desktop and its arguments.
#[derive(Clone, Debug, PartialEq, Eq)]
pub struct DesktopCommand {
    pub program: String,
    pub args: Vec<String>,
}

/// What a `DesktopCommand` holds, with every text as a sequence of characters.
pub struct DesktopCommandView {
    pub program: Seq<char>,
    pub args: Seq<Seq<char>>,
}

impl View for DesktopCommand {
    type V = DesktopCommandView;

    open spec fn view(&self) -> DesktopCommandView {
        DesktopCommandView { program: self.program@, args: self.args.deep_view() }
    }
}

/// The view of a desktop command that may be absent.
pub open spec fn desktop_view(command: Option<DesktopCommand>) -> Option<DesktopCommandView> {
    match command {
        Some(c) => Some(c@),
        None => None,
    }
}

/// The program that opens an address in the browser.
pub open spec fn url_opener(platform: Platform, url: Seq<char>) -> Option<DesktopCommandView> {
    match platform {
        Platform::MacOs => Some(DesktopCommandView { program: "open"@, args: seq![url] }),
        Platform::Windows => Some(
            DesktopCommandView { program: "cmd"@, args: seq!["/C"@, "start"@, url] },
        ),
        Platform::Linux => Some(DesktopCommandView { program: "xdg-open"@, args: seq![url] }),
        Platform::Other => None,
    }
}

/// The program that opens a folder in the file manager.
pub open spec fn folder_opener(platform: Platform, path: Seq<char>) -> Option<DesktopCommandView> {
    match platform {
        Platform::MacOs => Some(DesktopCommandView { program: "open"@, args: seq![path] }),
        Platform::Windows => Some(DesktopCommandView { program: "explorer"@, args: seq![path] }),
        Platform::Linux => Some(DesktopCommandView { program: "xdg-open"@, args: seq![path] }),
        Platform::Other => None,
    }
}

fn desktop(program: &str, args: Vec<String>) -> (command: Option<DesktopCommand>)
    ensures
        desktop_view(command) == Some(
            DesktopCommandView { program: program@, args: args.deep_view() },
        ),
{
    Some(DesktopCommand { program: String::from_str(program), args })
}

/// The program to start so that `url` opens in the user's browser; none on
/// a system that has no such program.
pub fn open_project_url(platform: Platform, url: &str) -> (command: Option<DesktopCommand>)
    ensures
        desktop_view(command) == url_opener(platform, url@),
{
    match platform {
        Platform::MacOs => desktop("open", one(url)),
        Platform::Windows => {
            let args = strings(&["/C", "start", url]);
            assert(args.deep_view() =~= seq!["/C"@, "start"@, url@]);
            desktop("cmd", args)
        },
        Platform::Linux => desktop("xdg-open", one(url)),
        Platform::Other => None,
    }
}

/// The program to start so that the folder `path` opens in the user's
/// file manager; none on a system that has no such program.
pub fn open_project_folder(platform: Platform, path: &str) -> (command: Option<DesktopCommand>)
    ensures
        desktop_view(command) == folder_opener(platform, path@),
{
    match platform {
        Platform::MacOs => desktop("open", one(path)),
        Platform::Windows => desktop("explorer", one(path)),
        Platform::Linux => desktop("xdg-open", one(path)),
        Platform::Other => None,
    }
}

fn one(arg: &str) -> (args: Vec<String>)
    ensures
        args.deep_view() == seq![arg@],
{
    let args = strings(&[arg]);
    assert(args.deep_view() =~= seq![arg@]);
    args
}

/// The error that a desktop program which could not be started is
/// reported as: what the operating system said.
pub fn open_failure(reason: String) -> (error: DdevError)
    ensures
        error@ == DdevErrorView::IoError(reason@),
{
    DdevError::IoError(reason)
}

/// Whether the application runs from an AppImage: on Linux, if the
/// variable `APPIMAGE` is set in its environment; elsewhere never.
pub fn is_appimage(platform: Platform, appimage_is_set: bool) -> (answer: bool)
    ensures
        answer == (platform == Platform::Linux && appimage_is_set),
{
    match platform {
        Platform::Linux => appimage_is_set,
        _ => false,
    }
}

/// Which entries of the theme menu carry a check mark.
#[derive(Clone, Copy, Debug, PartialEq, Eq, Structural)]
pub struct ThemeChecks {
    pub light: bool,
    pub dark: bool,
    pub high_contrast: bool,
    pub system: bool,
}

/// The check marks of the theme menu while `theme` is in use: one on the
/// entry of that theme, and none at all for a theme the menu does not
/// know.
pub fn sync_theme_menu(theme: &str) -> (checks: ThemeChecks)
    ensures
        checks == (ThemeChecks {
            light: theme@ == "light"@,
            dark: theme@ == "dark"@,
            high_contrast: theme@ == "high-contrast"@,
            system: theme@ == "system"@,
        }),
{
    ThemeChecks {
        light: same_text(theme, "light"),
        dark: same_text(theme, "dark"),
        high_contrast: same_text(theme, "high-contrast"),
        system: same_text(theme, "system"),
    }
}

} // verus!
