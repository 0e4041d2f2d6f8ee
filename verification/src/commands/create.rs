//! Creating a project: the directory, the files of a content management
//! system if one is asked for, the project's configuration, and its first
//! start.

use vstd::prelude::*;
use vstd::string::*;
use crate::chain::{
    ChainItem, ChainItemView, ChainPhase, ChainStep, ChainStepView, ChainedTask, ChainedTaskView,
    FailurePolicy, FailurePolicyView, chain_started_event,
};
use crate::ddev::{CommandOutcome, DdevTool, DdevToolView};
use crate::error::{DdevError, DdevErrorView};
use crate::events::{SpawnRequest, SpawnRequestView, UiEvent};
use crate::process::{
    ProcessIdGenerator, ProcessRegistry, idle_entry, process_id_text, was_issued,
};
use crate::text::{concat, concat3, join, join_text, same_text};
use crate::types::CmsInstall;

verus! {

/// What a look at a folder found.
#[derive(Debug)]
pub enum FolderProbe {
    /// Nothing is there.
    Missing,
    /// Something is there that is no directory.
    NotADirectory,
    /// A directory is there that could not be read; the text says why.
    Unreadable(String),
    /// A directory is there, with or without entries.
    Directory { has_entries: bool },
}

/// Whether a folder counts as empty.
pub open spec fn folder_empty(probe: FolderProbe) -> Result<bool, DdevErrorView> {
    match probe {
        FolderProbe::Missing => Ok(true),
        FolderProbe::NotADirectory => Err(
            DdevErrorView::CommandFailed("Path is not a directory"@),
        ),
        FolderProbe::Unreadable(reason) => Err(DdevErrorView::IoError(reason@)),
        FolderProbe::Directory { has_entries } => Ok(!has_entries),
    }
}

/// The view of the answer to a yes-or-no question.
pub open spec fn bool_result_view(result: Result<bool, DdevError>) -> Result<bool, DdevErrorView> {
    match result {
        Ok(b) => Ok(b),
        Err(e) => Err(e@),
    }
}

/// Whether a folder can take a new project: a folder that does not exist
/// can, since it will be made; a directory can if it holds nothing at all.
/// Anything that is no directory is refused.
pub fn check_folder_empty(probe: FolderProbe) -> (result: Result<bool, DdevError>)
    ensures
        bool_result_view(result) == folder_empty(probe),
{
    match probe {
        FolderProbe::Missing => Ok(true),
        FolderProbe::NotADirectory => Err(
            DdevError::CommandFailed(String::from_str("Path is not a directory")),
        ),
        FolderProbe::Unreadable(reason) => Err(DdevError::IoError(reason)),
        FolderProbe::Directory { has_entries } => Ok(!has_entries),
    }
}

/// The request that asks `program` for its version.
pub open spec fn version_request(program: Seq<char>, search_path: Seq<char>) -> SpawnRequestView {
    SpawnRequestView { program, args: seq!["--version"@], cwd: None, path: search_path }
}

fn version_probe(program: &str, search_path: &str) -> (request: SpawnRequest)
    ensures
        request@ == version_request(program@, search_path@),
{
    let mut args: Vec<String> = Vec::new();
    args.push(String::from_str("--version"));
    assert(args.deep_view() =~= seq!["--version"@]);
    SpawnRequest {
        program: String::from_str(program),
        args,
        cwd: None,
        path: String::from_str(search_path),
    }
}

/// The call that shows whether Composer is installed.
pub fn check_composer_installed(search_path: &str) -> (request: SpawnRequest)
    ensures
        request@ == version_request("composer"@, search_path@),
{
    version_probe("composer", search_path)
}

/// The call that shows whether WP-CLI is installed.
pub fn check_wpcli_installed(search_path: &str) -> (request: SpawnRequest)
    ensures
        request@ == version_request("wp"@, search_path@),
{
    version_probe("wp", search_path)
}

/// Whether a call that asked a program for its version shows that the
/// program is installed: it is if the call ran and succeeded.
pub fn is_installed(outcome: &CommandOutcome) -> (installed: bool)
    ensures
        installed == (*outcome matches CommandOutcome::Exited { success, .. } && success),
{
    match outcome {
        CommandOutcome::Exited { success, stdout, stderr } => *success,
        _ => false,
    }
}

/// The message with which a failed installation ends the task.
pub open spec fn cms_failure() -> Seq<char> {
    "CMS installation failed"@
}

/// The archive into which WordPress is downloaded.
pub open spec fn wordpress_archive(path: Seq<char>) -> Seq<char> {
    path + "/wordpress-latest.zip"@
}

/// The shell command that moves the unpacked files into the project.
pub open spec fn wordpress_move_script() -> Seq<char> {
    "mv wordpress/* . && mv wordpress/.[!.]* . 2>/dev/null; rmdir wordpress"@
}

/// A step of an installation: `program` with `args` in the project's
/// directory, announced by `announce`.
pub open spec fn cms_step(
    announce: Seq<char>,
    program: Seq<char>,
    args: Seq<Seq<char>>,
    path: Seq<char>,
    search_path: Seq<char>,
    on_failure: FailurePolicyView,
) -> ChainStepView {
    ChainStepView {
        announce: Some(announce),
        request: SpawnRequestView { program, args, cwd: Some(path), path: search_path },
        on_failure,
    }
}

/// The steps that bring WordPress into a project without WP-CLI: download
/// the archive, unpack it, move the files out of the directory they come
/// in if it is there, and remove the archive.
pub open spec fn wordpress_download_items(path: Seq<char>, search_path: Seq<char>) -> Seq<
    ChainItemView,
> {
    seq![
        ChainItemView::Run(
            cms_step(
                "Downloading WordPress from wordpress.org..."@,
                "curl"@,
                seq!["-L"@, "-o"@, wordpress_archive(path), "https://wordpress.org/latest.zip"@],
                path,
                search_path,
                FailurePolicyView::Abort(cms_failure()),
            ),
        ),
        ChainItemView::Run(
            cms_step(
                "Extracting WordPress..."@,
                "unzip"@,
                seq!["-q"@, wordpress_archive(path)],
                path,
                search_path,
                FailurePolicyView::Abort(cms_failure()),
            ),
        ),
        ChainItemView::RunIfExists(
            path + "/wordpress"@,
            cms_step(
                "Moving WordPress files to project root..."@,
                "sh"@,
                seq!["-c"@, wordpress_move_script()],
                path,
                search_path,
                FailurePolicyView::Warn("Warning: Could not move some WordPress files"@),
            ),
        ),
        ChainItemView::RemoveFile(wordpress_archive(path)),
    ]
}

/// The steps that bring WordPress into a project: the task asks WP-CLI
/// for its version; where it answers, WP-CLI downloads WordPress, and
/// where it does not, see `wordpress_download_items`.
pub open spec fn wordpress_items(path: Seq<char>, search_path: Seq<char>) -> Seq<ChainItemView> {
    seq![
        ChainItemView::Check { probe: version_request("wp"@, search_path), hit: 1, miss: 4 },
        ChainItemView::Run(
            cms_step(
                "Installing WordPress via WP-CLI..."@,
                "wp"@,
                seq!["core"@, "download"@],
                path,
                search_path,
                FailurePolicyView::Abort(cms_failure()),
            ),
        ),
    ] + wordpress_download_items(path, search_path)
}

/// The steps that install a content management system into `path`.
///
/// - `composer` with a package: Composer creates the project.
/// - `composer` without a package: the installation fails at once.
/// - `wordpress`: see `wordpress_items`.
/// - any other type: the installation fails at once.
pub open spec fn cms_items(
    install_type: Seq<char>,
    package: Option<Seq<char>>,
    path: Seq<char>,
    search_path: Seq<char>,
) -> Seq<ChainItemView> {
    if install_type == "composer"@ {
        match package {
            Some(package) => seq![
                ChainItemView::Run(
                    cms_step(
                        "Installing "@ + package + " via Composer..."@,
                        "composer"@,
                        seq!["create-project"@, package, "."@],
                        path,
                        search_path,
                        FailurePolicyView::Abort(cms_failure()),
                    ),
                ),
            ],
            None => seq![
                ChainItemView::Fail {
                    report: "Error: No composer package specified"@,
                    message: cms_failure(),
                },
            ],
        }
    } else if install_type == "wordpress"@ {
        wordpress_items(path, search_path)
    } else {
        seq![
            ChainItemView::Fail {
                report: "Unknown installation type: "@ + install_type,
                message: cms_failure(),
            },
        ]
    }
}

fn make_step(
    announce: String,
    program: &str,
    args: Vec<String>,
    path: &str,
    search_path: &str,
    on_failure: FailurePolicy,
) -> (step: ChainStep)
    ensures
        step@ == cms_step(
            announce@,
            program@,
            args.deep_view(),
            path@,
            search_path@,
            on_failure@,
        ),
{
    ChainStep {
        announce: Some(announce),
        request: SpawnRequest {
            program: program.to_owned(),
            args,
            cwd: Some(path.to_owned()),
            path: search_path.to_owned(),
        },
        on_failure,
    }
}

fn one_item(item: ChainItem) -> (items: Vec<ChainItem>)
    ensures
        items.deep_view() == seq![item@],
{
    let mut items: Vec<ChainItem> = Vec::new();
    items.push(item);
    assert(items.deep_view() =~= seq![item@]);
    items
}

fn abort_cms() -> (policy: FailurePolicy)
    ensures
        policy@ == FailurePolicyView::Abort(cms_failure()),
{
    FailurePolicy::Abort("CMS installation failed".to_owned())
}

fn wordpress_download(path: &str, search_path: &str) -> (items: Vec<ChainItem>)
    ensures
        items.deep_view() == wordpress_download_items(path@, search_path@),
{
    let archive = concat(path, "/wordpress-latest.zip");
    let mut fetch: Vec<String> = Vec::new();
    fetch.push("-L".to_owned());
    fetch.push("-o".to_owned());
    fetch.push(archive.clone());
    fetch.push("https://wordpress.org/latest.zip".to_owned());
    assert(fetch.deep_view() =~= seq![
        "-L"@,
        "-o"@,
        wordpress_archive(path@),
        "https://wordpress.org/latest.zip"@,
    ]);
    let mut unpack: Vec<String> = Vec::new();
    unpack.push("-q".to_owned());
    unpack.push(archive.clone());
    assert(unpack.deep_view() =~= seq!["-q"@, wordpress_archive(path@)]);
    let mut shell: Vec<String> = Vec::new();
    shell.push("-c".to_owned());
    shell.push("mv wordpress/* . && mv wordpress/.[!.]* . 2>/dev/null; rmdir wordpress".to_owned());
    assert(shell.deep_view() =~= seq!["-c"@, wordpress_move_script()]);
    let mut items: Vec<ChainItem> = Vec::new();
    items.push(
        ChainItem::Run(
            make_step(
                "Downloading WordPress from wordpress.org...".to_owned(),
                "curl",
                fetch,
                path,
                search_path,
                abort_cms(),
            ),
        ),
    );
    items.push(
        ChainItem::Run(
            make_step(
                "Extracting WordPress...".to_owned(),
                "unzip",
                unpack,
                path,
                search_path,
                abort_cms(),
            ),
        ),
    );
    items.push(
        ChainItem::RunIfExists(
            concat(path, "/wordpress"),
            make_step(
                "Moving WordPress files to project root...".to_owned(),
                "sh",
                shell,
                path,
                search_path,
                FailurePolicy::Warn("Warning: Could not move some WordPress files".to_owned()),
            ),
        ),
    );
    items.push(ChainItem::RemoveFile(archive));
    assert(items.deep_view() =~= wordpress_download_items(path@, search_path@));
    items
}

/// The steps that install the content management system `cms` into the
/// directory `path`, with `enhanced_path` as the search path of every
/// process.
pub fn install_cms(cms: &CmsInstall, path: &str, enhanced_path: &str) -> (items: Vec<ChainItem>)
    ensures
        items.deep_view() == cms_items(
            cms.install_type@,
            cms.package.deep_view(),
            path@,
            enhanced_path@,
        ),
{
    if same_text(cms.install_type.as_str(), "composer") {
        match &cms.package {
            Some(package) => {
                let mut args: Vec<String> = Vec::new();
                args.push("create-project".to_owned());
                args.push(package.clone());
                args.push(".".to_owned());
                assert(args.deep_view() =~= seq!["create-project"@, package@, "."@]);
                one_item(
                    ChainItem::Run(
                        make_step(
                            concat3("Installing ", package.as_str(), " via Composer..."),
                            "composer",
                            args,
                            path,
                            enhanced_path,
                            abort_cms(),
                        ),
                    ),
                )
            },
            None => one_item(
                ChainItem::Fail {
                    report: "Error: No composer package specified".to_owned(),
                    message: "CMS installation failed".to_owned(),
                },
            ),
        }
    } else if same_text(cms.install_type.as_str(), "wordpress") {
        let mut args: Vec<String> = Vec::new();
        args.push("core".to_owned());
        args.push("download".to_owned());
        assert(args.deep_view() =~= seq!["core"@, "download"@]);
        let mut items: Vec<ChainItem> = Vec::new();
        items.push(
            ChainItem::Check { probe: check_wpcli_installed(enhanced_path), hit: 1, miss: 4 },
        );
        items.push(
            ChainItem::Run(
                make_step(
                    "Installing WordPress via WP-CLI...".to_owned(),
                    "wp",
                    args,
                    path,
                    enhanced_path,
                    abort_cms(),
                ),
            ),
        );
        append_items(&mut items, wordpress_download(path, enhanced_path));
        assert(items.deep_view() =~= wordpress_items(path@, enhanced_path@));
        items
    } else {
        one_item(
            ChainItem::Fail {
                report: concat("Unknown installation type: ", cms.install_type.as_str()),
                message: "CMS installation failed".to_owned(),
            },
        )
    }
}

/// A flag of the configuration command, present where its value is given
/// and not empty.
pub open spec fn optional_flag(flag: Seq<char>, value: Option<Seq<char>>) -> Seq<Seq<char>> {
    match value {
        Some(v) => if v.len() > 0 {
            seq![flag + v]
        } else {
            Seq::empty()
        },
        None => Seq::empty(),
    }
}

/// The settings of a new project. A setting that is absent or empty is
/// left for the tool to choose.
#[derive(Debug)]
pub struct ProjectSettings {
    pub project_type: Option<String>,
    pub php_version: Option<String>,
    pub database: Option<String>,
    pub webserver: Option<String>,
    pub docroot: Option<String>,
}

/// What a `ProjectSettings` holds, with every text as a sequence of characters.
pub struct ProjectSettingsView {
    pub project_type: Option<Seq<char>>,
    pub php_version: Option<Seq<char>>,
    pub database: Option<Seq<char>>,
    pub webserver: Option<Seq<char>>,
    pub docroot: Option<Seq<char>>,
}

impl View for ProjectSettings {
    type V = ProjectSettingsView;

    open spec fn view(&self) -> ProjectSettingsView {
        ProjectSettingsView {
            project_type: self.project_type.deep_view(),
            php_version: self.php_version.deep_view(),
            database: self.database.deep_view(),
            webserver: self.webserver.deep_view(),
            docroot: self.docroot.deep_view(),
        }
    }
}

/// The arguments with which the tool configures a new project.
pub open spec fn config_args(name: Seq<char>, settings: ProjectSettingsView) -> Seq<Seq<char>> {
    seq!["config"@, "--project-name="@ + name, "--create-docroot"@] + optional_flag(
        "--project-type="@,
        settings.project_type,
    ) + optional_flag("--php-version="@, settings.php_version) + optional_flag(
        "--database="@,
        settings.database,
    ) + optional_flag("--webserver-type="@, settings.webserver) + optional_flag(
        "--docroot="@,
        settings.docroot,
    )
}

fn push_flag(args: &mut Vec<String>, flag: &str, value: &Option<String>)
    ensures
        final(args).deep_view() == old(args).deep_view() + optional_flag(flag@, value.deep_view()),
{
    match value {
        Some(v) => {
            if !v.as_str().is_empty() {
                args.push(concat(flag, v.as_str()));
                assert(args.deep_view() =~= old(args).deep_view() + seq![flag@ + v@]);
                return ;
            }
        },
        None => {},
    }
    assert(args.deep_view() =~= old(args).deep_view() + Seq::<Seq<char>>::empty());
}

/// The arguments with which the tool configures the project `name`.
pub fn project_config_args(name: &str, settings: &ProjectSettings) -> (args: Vec<String>)
    ensures
        args.deep_view() == config_args(name@, settings@),
{
    let mut args: Vec<String> = Vec::new();
    args.push("config".to_owned());
    args.push(concat("--project-name=", name));
    args.push("--create-docroot".to_owned());
    assert(args.deep_view() =~= seq!["config"@, "--project-name="@ + name@, "--create-docroot"@]);
    push_flag(&mut args, "--project-type=", &settings.project_type);
    push_flag(&mut args, "--php-version=", &settings.php_version);
    push_flag(&mut args, "--database=", &settings.database);
    push_flag(&mut args, "--webserver-type=", &settings.webserver);
    push_flag(&mut args, "--docroot=", &settings.docroot);
    args
}

/// The step that configures the project.
pub open spec fn config_item(
    tool: DdevToolView,
    path: Seq<char>,
    name: Seq<char>,
    settings: ProjectSettingsView,
) -> ChainItemView {
    ChainItemView::Run(
        ChainStepView {
            announce: None,
            request: SpawnRequestView {
                program: tool.program,
                args: config_args(name, settings),
                cwd: Some(path),
                path: tool.path,
            },
            on_failure: FailurePolicyView::Abort("Failed to create project"@),
        },
    )
}

/// The step that starts the new project.
pub open spec fn start_item(tool: DdevToolView, path: Seq<char>) -> ChainItemView {
    ChainItemView::Run(
        ChainStepView {
            announce: Some("Starting project..."@),
            request: SpawnRequestView {
                program: tool.program,
                args: seq!["start"@],
                cwd: Some(path),
                path: tool.path,
            },
            on_failure: FailurePolicyView::Abort("Failed to start project"@),
        },
    )
}

/// The work of creating a project, in order: make sure of the directory;
/// install the content management system, if one is asked for; configure
/// the project; start it, if asked to. Whether WP-CLI is there is asked
/// when the installation is reached, as one item of the work.
pub open spec fn create_items(
    tool: DdevToolView,
    path: Seq<char>,
    name: Seq<char>,
    settings: ProjectSettingsView,
    auto_start: bool,
    cms: Seq<ChainItemView>,
) -> Seq<ChainItemView> {
    seq![ChainItemView::EnsureDir(path)] + cms + seq![config_item(tool, path, name, settings)] + (
    if auto_start {
        seq![start_item(tool, path)]
    } else {
        Seq::empty()
    })
}

/// The steps of the installation that `cms_install` asks for; none where
/// it asks for none.
pub open spec fn requested_cms_items(
    cms_install: Option<CmsInstall>,
    path: Seq<char>,
    search_path: Seq<char>,
) -> Seq<ChainItemView> {
    match cms_install {
        Some(cms) => cms_items(cms.install_type@, cms.package.deep_view(), path, search_path),
        None => Seq::empty(),
    }
}

fn append_items(items: &mut Vec<ChainItem>, more: Vec<ChainItem>)
    ensures
        final(items).deep_view() == old(items).deep_view() + more.deep_view(),
{
    let mut more = more;
    let ghost added = more.deep_view();
    items.append(&mut more);
    assert(items.deep_view() =~= old(items).deep_view() + added);
}

/// The settings of a new project, from the values given for them.
pub open spec fn settings_of(
    project_type: Option<String>,
    php_version: Option<String>,
    database: Option<String>,
    webserver: Option<String>,
    docroot: Option<String>,
) -> ProjectSettingsView {
    ProjectSettingsView {
        project_type: project_type.deep_view(),
        php_version: php_version.deep_view(),
        database: database.deep_view(),
        webserver: webserver.deep_view(),
        docroot: docroot.deep_view(),
    }
}

/// The message with which the creation of a project is announced.
pub open spec fn creating_message(args: Seq<Seq<char>>) -> Seq<char> {
    "Creating project: ddev "@ + join_text(args, " "@)
}

/// Begins the creation of the project `name` in the directory `path`. A
/// setting that is absent or empty is left for the tool to choose.
///
/// The task is entered in the registry at once, so that it can be
/// cancelled before its first process runs, and announced by a `started`
/// event that carries its identifier. Its work is `create_items`; each
/// step that fails ends the task with a message of its own.
pub fn create_project<H>(
    ids: &mut ProcessIdGenerator,
    registry: &mut ProcessRegistry<H>,
    tool: &DdevTool,
    path: &str,
    name: &str,
    project_type: Option<String>,
    php_version: Option<String>,
    database: Option<String>,
    webserver: Option<String>,
    docroot: Option<String>,
    auto_start: bool,
    cms_install: Option<CmsInstall>,
) -> (begun: (ChainedTask<H>, UiEvent))
    ensures
        final(ids).issued() == old(ids).issued() + 1,
        !was_issued(old(ids).issued(), begun.0@.process_id),
        final(registry)@ == old(registry)@.insert(
            begun.0@.process_id,
            idle_entry::<H>("config"@, name@),
        ),
        begun.0@ == (ChainedTaskView::<H> {
            process_id: process_id_text(final(ids).issued()),
            command: "config"@,
            project: name@,
            items: create_items(
                tool@,
                path@,
                name@,
                settings_of(project_type, php_version, database, webserver, docroot),
                auto_start,
                requested_cms_items(cms_install, path@, tool@.path),
            ),
            position: 0,
            success_message: "Project created successfully"@,
            phase: ChainPhase::Ready,
            current: None,
            jump: None,
        }),
        begun.1@ == chain_started_event(
            "config"@,
            name@,
            creating_message(
                config_args(
                    name@,
                    settings_of(project_type, php_version, database, webserver, docroot),
                ),
            ),
            begun.0@.process_id,
        ),
{
    let settings = ProjectSettings { project_type, php_version, database, webserver, docroot };
    let args = project_config_args(name, &settings);
    let started_message = concat("Creating project: ddev ", join(&args, " ").as_str());
    let mut items: Vec<ChainItem> = Vec::new();
    items.push(ChainItem::EnsureDir(path.to_owned()));
    assert(items.deep_view() =~= seq![ChainItemView::EnsureDir(path@)]);
    match &cms_install {
        Some(cms) => {
            let cms_steps = install_cms(cms, path, tool.path.as_str());
            append_items(&mut items, cms_steps);
        },
        None => {
            assert(items.deep_view() =~= items.deep_view() + Seq::<ChainItemView>::empty());
        },
    }
    let config = ChainItem::Run(
        ChainStep {
            announce: None,
            request: SpawnRequest {
                program: tool.program.clone(),
                args,
                cwd: Some(path.to_owned()),
                path: tool.path.clone(),
            },
            on_failure: FailurePolicy::Abort("Failed to create project".to_owned()),
        },
    );
    append_items(&mut items, one_item(config));
    if auto_start {
        let mut start_args: Vec<String> = Vec::new();
        start_args.push("start".to_owned());
        assert(start_args.deep_view() =~= seq!["start"@]);
        let start = ChainItem::Run(
            ChainStep {
                announce: Some("Starting project...".to_owned()),
                request: SpawnRequest {
                    program: tool.program.clone(),
                    args: start_args,
                    cwd: Some(path.to_owned()),
                    path: tool.path.clone(),
                },
                on_failure: FailurePolicy::Abort("Failed to start project".to_owned()),
            },
        );
        append_items(&mut items, one_item(start));
    } else {
        assert(items.deep_view() =~= items.deep_view() + Seq::<ChainItemView>::empty());
    }
    ChainedTask::start(
        ids,
        registry,
        "config",
        name,
        started_message,
        "Project created successfully".to_owned(),
        items,
    )
}

/// The messages with which the steps of a creation fail are four different
/// texts, so that the one `error` event of a failed creation tells which
/// step it was.
pub proof fn lemma_create_failures_distinct()
    ensures
        cms_failure() != "Failed to create project"@,
        cms_failure() != "Failed to start project"@,
        "Failed to create project"@ != "Failed to start project"@,
        forall|reason: Seq<char>| #[trigger]
            crate::chain::directory_failure(reason) != "Failed to create project"@,
        forall|reason: Seq<char>| #[trigger]
            crate::chain::directory_failure(reason) != "Failed to start project"@,
        forall|reason: Seq<char>| #[trigger] crate::chain::directory_failure(reason) != cms_failure(),
{
    reveal_strlit("CMS installation failed");
    reveal_strlit("Failed to create project");
    reveal_strlit("Failed to start project");
    reveal_strlit("Failed to create directory: ");
    assert("CMS installation failed"@[0] == 'C');
    assert("Failed to create project"@[0] == 'F');
    assert("Failed to start project"@[0] == 'F');
    assert("Failed to create project"@[10] == 'c');
    assert("Failed to start project"@[10] == 's');
    assert forall|reason: Seq<char>| #[trigger]
        crate::chain::directory_failure(reason) != "Failed to create project"@ by {
        let d = crate::chain::directory_failure(reason);
        assert(d[17] == 'd');
        assert("Failed to create project"@[17] == 'p');
    }
    assert forall|reason: Seq<char>| #[trigger]
        crate::chain::directory_failure(reason) != "Failed to start project"@ by {
        let d = crate::chain::directory_failure(reason);
        assert(d[10] == 'c');
    }
    assert forall|reason: Seq<char>| #[trigger]
        crate::chain::directory_failure(reason) != cms_failure() by {
        let d = crate::chain::directory_failure(reason);
        assert(d[0] == 'F');
    }
}

} // verus!
