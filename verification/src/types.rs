//! The payloads that travel to the user interface, and the plain records
//! that describe what the `ddev` tool reports.

use vstd::prelude::*;
use vstd::string::*;

verus! {

/// The pipe of a child process that a line was read from.
#[derive(Clone, Copy, Debug, PartialEq, Eq, Structural)]
pub enum StreamKind {
    Stdout,
    Stderr,
}

/// The name under which a pipe is reported.
pub open spec fn stream_name(kind: StreamKind) -> Seq<char> {
    match kind {
        StreamKind::Stdout => "stdout"@,
        StreamKind::Stderr => "stderr"@,
    }
}

impl StreamKind {
    /// The name under which this pipe is reported: `stdout` or `stderr`.
    pub fn name(&self) -> (s: &'static str)
        ensures
            s@ == stream_name(*self),
    {
        match self {
            StreamKind::Stdout => "stdout",
            StreamKind::Stderr => "stderr",
        }
    }
}

/// The stage of a task that a status event reports.
#[derive(Clone, Copy, Debug, PartialEq, Eq, Structural)]
pub enum StatusTag {
    Started,
    Finished,
    Error,
    Cancelled,
}

/// The word under which a stage is reported.
pub open spec fn status_word(tag: StatusTag) -> Seq<char> {
    match tag {
        StatusTag::Started => "started"@,
        StatusTag::Finished => "finished"@,
        StatusTag::Error => "error"@,
        StatusTag::Cancelled => "cancelled"@,
    }
}

/// Whether a status word ends a task's stream of events.
pub open spec fn is_terminal_word(word: Seq<char>) -> bool {
    word == "finished"@ || word == "error"@ || word == "cancelled"@
}

impl StatusTag {
    /// The word under which this stage is reported.
    pub fn word(&self) -> (s: &'static str)
        ensures
            s@ == status_word(*self),
    {
        match self {
            StatusTag::Started => "started",
            StatusTag::Finished => "finished",
            StatusTag::Error => "error",
            StatusTag::Cancelled => "cancelled",
        }
    }
}

/// The four status words are four different words, and only the last three
/// end a task.
pub proof fn lemma_status_words_distinct()
    ensures
        forall|a: StatusTag, b: StatusTag| status_word(a) == status_word(b) ==> a == b,
        forall|a: StatusTag| is_terminal_word(#[trigger] status_word(a)) <==> a != StatusTag::Started,
{
    reveal_strlit("started");
    reveal_strlit("finished");
    reveal_strlit("error");
    reveal_strlit("cancelled");
    assert("started"@.len() == 7);
    assert("finished"@.len() == 8);
    assert("error"@.len() == 5);
    assert("cancelled"@.len() == 9);
    assert forall|a: StatusTag, b: StatusTag| status_word(a) == status_word(b) implies a == b by {
        assert(status_word(a).len() == status_word(b).len());
    }
    assert forall|a: StatusTag| is_terminal_word(#[trigger] status_word(a)) <==> a
        != StatusTag::Started by {
        if a == StatusTag::Started {
            assert(status_word(a).len() == 7);
        }
    }
}

/// One line that a child process wrote.
#[derive(Clone, Debug, PartialEq, Eq)]
pub struct CommandOutput {
    pub line: String,
    /// `stdout` or `stderr`.
    pub stream: String,
}

/// What a `CommandOutput` holds, with every text as a sequence of characters.
pub struct CommandOutputView {
    pub line: Seq<char>,
    pub stream: Seq<char>,
}

impl View for CommandOutput {
    type V = CommandOutputView;

    open spec fn view(&self) -> CommandOutputView {
        CommandOutputView { line: self.line@, stream: self.stream@ }
    }
}

impl CommandOutput {
    /// The event for `line`, read from the pipe `kind`.
    pub fn new(line: String, kind: StreamKind) -> (event: CommandOutput)
        ensures
            event@ == (CommandOutputView { line: line@, stream: stream_name(kind) }),
    {
        CommandOutput { line, stream: String::from_str(kind.name()) }
    }
}

/// A change in the state of a task.
#[derive(Clone, Debug, PartialEq, Eq)]
pub struct CommandStatus {
    pub command: String,
    pub project: String,
    /// `started`, `finished`, `error` or `cancelled`.
    pub status: String,
    pub message: Option<String>,
    /// The task's identifier, where the receiver needs it to cancel the task.
    pub process_id: Option<String>,
}

/// What a `CommandStatus` holds, with every text as a sequence of characters.
pub struct CommandStatusView {
    pub command: Seq<char>,
    pub project: Seq<char>,
    pub status: Seq<char>,
    pub message: Option<Seq<char>>,
    pub process_id: Option<Seq<char>>,
}

impl View for CommandStatus {
    type V = CommandStatusView;

    open spec fn view(&self) -> CommandStatusView {
        CommandStatusView {
            command: self.command@,
            project: self.project@,
            status: self.status@,
            message: self.message.deep_view(),
            process_id: self.process_id.deep_view(),
        }
    }
}

impl CommandStatus {
    /// The status event of the task `command` on `project` at stage `tag`.
    pub fn new(
        command: &str,
        project: &str,
        tag: StatusTag,
        message: String,
        process_id: Option<String>,
    ) -> (event: CommandStatus)
        ensures
            event@ == (CommandStatusView {
                command: command@,
                project: project@,
                status: status_word(tag),
                message: Some(message@),
                process_id: process_id.deep_view(),
            }),
    {
        CommandStatus {
            command: String::from_str(command),
            project: String::from_str(project),
            status: String::from_str(tag.word()),
            message: Some(message),
            process_id,
        }
    }
}

/// One line of a container's log.
#[derive(Clone, Debug, PartialEq, Eq)]
pub struct LogOutput {
    pub line: String,
    /// `stdout` or `stderr`.
    pub stream: String,
    pub project: String,
    pub service: String,
}

/// What a `LogOutput` holds, with every text as a sequence of characters.
pub struct LogOutputView {
    pub line: Seq<char>,
    pub stream: Seq<char>,
    pub project: Seq<char>,
    pub service: Seq<char>,
}

impl View for LogOutput {
    type V = LogOutputView;

    open spec fn view(&self) -> LogOutputView {
        LogOutputView {
            line: self.line@,
            stream: self.stream@,
            project: self.project@,
            service: self.service@,
        }
    }
}

/// A change in the state of a log stream.
#[derive(Clone, Debug, PartialEq, Eq)]
pub struct LogStatus {
    pub project: String,
    pub service: String,
    /// `started`, `finished`, `error` or `cancelled`.
    pub status: String,
    pub message: Option<String>,
    pub process_id: Option<String>,
}

/// What a `LogStatus` holds, with every text as a sequence of characters.
pub struct LogStatusView {
    pub project: Seq<char>,
    pub service: Seq<char>,
    pub status: Seq<char>,
    pub message: Option<Seq<char>>,
    pub process_id: Option<Seq<char>>,
}

impl View for LogStatus {
    type V = LogStatusView;

    open spec fn view(&self) -> LogStatusView {
        LogStatusView {
            project: self.project@,
            service: self.service@,
            status: self.status@,
            message: self.message.deep_view(),
            process_id: self.process_id.deep_view(),
        }
    }
}

/// A change in the state of a screenshot capture.
#[derive(Clone, Debug, PartialEq, Eq)]
pub struct ScreenshotStatus {
    pub project: String,
    /// `started`, `capturing`, `finished` or `error`.
    pub status: String,
    pub path: Option<String>,
    pub message: Option<String>,
}

/// What a `ScreenshotStatus` holds, with every text as a sequence of characters.
pub struct ScreenshotStatusView {
    pub project: Seq<char>,
    pub status: Seq<char>,
    pub path: Option<Seq<char>>,
    pub message: Option<Seq<char>>,
}

impl View for ScreenshotStatus {
    type V = ScreenshotStatusView;

    open spec fn view(&self) -> ScreenshotStatusView {
        ScreenshotStatusView {
            project: self.project@,
            status: self.status@,
            path: self.path.deep_view(),
            message: self.message.deep_view(),
        }
    }
}

/// How the files of a content management system are to be brought into a
/// new project.
#[derive(Clone, Debug, PartialEq, Eq)]
pub struct CmsInstall {
    /// `composer` or `wordpress`.
    pub install_type: String,
    /// The composer package, where the type is `composer`.
    pub package: Option<String>,
}

/// A project as the tool lists it.
#[derive(Clone, Debug)]
pub struct DdevProjectBasic {
    pub name: String,
    pub status: String,
    pub status_desc: String,
    pub project_type: String,
    pub approot: String,
    pub shortroot: String,
    pub docroot: String,
    pub primary_url: String,
    pub httpurl: String,
    pub httpsurl: String,
    pub mailpit_url: String,
    pub mailpit_https_url: String,
    pub xhgui_url: String,
    pub xhgui_https_url: String,
    pub router: String,
    pub router_disabled: bool,
    pub mutagen_enabled: bool,
    pub nodejs_version: String,
}

/// A port of a service and the port of the host that it is mapped to.
#[derive(Clone, Debug)]
pub struct HostPortMapping {
    pub exposed_port: String,
    pub host_port: String,
}

/// A service of a project.
#[derive(Clone, Debug)]
pub struct DdevService {
    pub short_name: String,
    pub full_name: String,
    pub image: String,
    pub status: String,
    pub exposed_ports: String,
    pub host_ports: String,
    pub host_ports_mapping: Vec<HostPortMapping>,
    pub http_url: Option<String>,
    pub https_url: Option<String>,
    pub host_http_url: Option<String>,
    pub host_https_url: Option<String>,
    pub virtual_host: Option<String>,
}

/// How the database of a project is reached.
#[derive(Clone, Debug)]
pub struct DdevDatabaseInfo {
    pub database_type: String,
    pub database_version: String,
    pub host: String,
    pub db_port: String,
    pub dbname: String,
    pub username: String,
    pub password: String,
    pub published_port: i32,
}

/// A project as the tool describes it.
#[derive(Clone, Debug)]
pub struct DdevProjectDetails {
    pub name: String,
    pub status: String,
    pub status_desc: String,
    pub project_type: String,
    pub approot: String,
    pub shortroot: String,
    pub docroot: String,
    pub primary_url: String,
    pub httpurl: String,
    pub httpsurl: String,
    pub hostname: String,
    pub hostnames: Vec<String>,
    pub http_urls: Vec<String>,
    pub https_urls: Vec<String>,
    pub urls: Vec<String>,
    pub php_version: Option<String>,
    pub webserver_type: Option<String>,
    pub database_type: Option<String>,
    pub database_version: Option<String>,
    pub performance_mode: Option<String>,
    pub webimg: Option<String>,
    pub dbimg: Option<String>,
    pub router_http_port: Option<String>,
    pub router_https_port: Option<String>,
    pub router_status: Option<String>,
    pub router_status_log: Option<String>,
    pub ssh_agent_status: Option<String>,
    pub xdebug_enabled: bool,
    pub xhgui_status: Option<String>,
    pub xhprof_mode: Option<String>,
    pub fail_on_hook_fail: bool,
    pub mailpit_url: String,
    pub mailpit_https_url: String,
    pub xhgui_url: String,
    pub xhgui_https_url: String,
    pub router: String,
    pub router_disabled: bool,
    pub mutagen_enabled: bool,
    pub nodejs_version: String,
    pub dbinfo: Option<DdevDatabaseInfo>,
    /// The services of the project, each under the name it goes by.
    pub services: std::collections::HashMap<String, DdevService>,
}

/// The envelope in which the tool answers when asked for JSON.
#[derive(Debug)]
pub struct DdevJsonResponse<T> {
    pub level: String,
    pub msg: String,
    pub raw: T,
    pub time: String,
}

/// An add-on that is installed in a project.
#[derive(Clone, Debug)]
pub struct InstalledAddon {
    pub name: String,
    pub repository: String,
    pub version: Option<String>,
}

/// An add-on that the registry of add-ons offers.
#[derive(Clone, Debug)]
pub struct RegistryAddon {
    pub title: String,
    pub github_url: String,
    pub description: String,
    pub user: String,
    pub repo: String,
    pub repo_id: i64,
    pub default_branch: String,
    pub tag_name: Option<String>,
    pub ddev_version_constraint: String,
    pub dependencies: Vec<String>,
    pub addon_type: String,
    pub created_at: String,
    pub updated_at: String,
    pub workflow_status: Option<String>,
    pub stars: i32,
}

/// What the registry of add-ons answers.
#[derive(Clone, Debug)]
pub struct AddonRegistry {
    pub updated_datetime: String,
    pub total_addons_count: i32,
    pub official_addons_count: i32,
    pub contrib_addons_count: i32,
    pub addons: Vec<RegistryAddon>,
}

} // verus!
