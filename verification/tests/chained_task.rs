use ddev_manager::chain::{ChainItem, ChainPhase, ChainStep, ChainedTask, FailurePolicy};
use ddev_manager::commands::create::{create_project, install_cms};
use ddev_manager::commands::projects::{
    change_nodejs_version, change_php_version, change_project_config,
};
use ddev_manager::ddev::DdevTool;
use ddev_manager::events::{Reaction, RunnerAction, RunnerEvent, SpawnRequest, TaskEnd, UiEvent};
use ddev_manager::process::{
    cancel_command, is_process_cancelled, ProcessIdGenerator, ProcessRegistry,
};
use ddev_manager::text::strings;
use ddev_manager::types::{CmsInstall, CommandOutput, CommandStatus, StreamKind};

fn chain_tool() -> DdevTool {
    DdevTool {
        program: "ddev".to_string(),
        base_args: Vec::new(),
        path: "/usr/local/bin".to_string(),
    }
}

fn chain_status(command: &str, project: &str, status: &str, message: &str, id: Option<&str>) -> UiEvent {
    UiEvent::CommandStatus(CommandStatus {
        command: command.to_string(),
        project: project.to_string(),
        status: status.to_string(),
        message: Some(message.to_string()),
        process_id: id.map(|s| s.to_string()),
    })
}

fn chain_line(line: &str, stream: &str) -> UiEvent {
    UiEvent::CommandOutput(CommandOutput {
        line: line.to_string(),
        stream: stream.to_string(),
    })
}

fn request_in(program: &str, args: &[&str], cwd: &str) -> SpawnRequest {
    SpawnRequest {
        program: program.to_string(),
        args: strings(args),
        cwd: Some(cwd.to_string()),
        path: "/usr/local/bin".to_string(),
    }
}

fn begin_change(
    ids: &mut ProcessIdGenerator,
    registry: &mut ProcessRegistry<u32>,
    restart: bool,
) -> (ChainedTask<u32>, UiEvent) {
    change_php_version(ids, registry, &chain_tool(), "shop", "/home/me/shop", "8.3", restart)
}

fn run_to_exit(
    task: &mut ChainedTask<u32>,
    registry: &mut ProcessRegistry<u32>,
    child: u32,
    success: bool,
) -> Reaction<u32> {
    let spawned = task.advance(registry, RunnerEvent::Spawned(child));
    assert_eq!(spawned.action, RunnerAction::Stream);
    let drained = task.advance(registry, RunnerEvent::Drained);
    assert_eq!(drained.action, RunnerAction::Wait(child));
    task.advance(registry, RunnerEvent::Exited(success))
}

#[test]
fn change_of_php_version_with_restart() {
    let mut ids = ProcessIdGenerator::new();
    let mut registry: ProcessRegistry<u32> = ProcessRegistry::new();
    let (mut task, started) = begin_change(&mut ids, &mut registry, true);
    assert_eq!(
        started,
        chain_status("change-php", "shop", "started", "Changing php-version to 8.3", Some("proc_1"))
    );
    assert_eq!(task.process_id(), "proc_1");
    assert_eq!(task.phase(), ChainPhase::Ready);
    assert!(!is_process_cancelled(&registry, "proc_1"));

    let first = task.advance(&mut registry, RunnerEvent::Begin);
    assert_eq!(
        first,
        Reaction {
            emit: vec![chain_line("Running: ddev config --php-version=8.3", "stdout")],
            action: RunnerAction::Spawn(request_in(
                "ddev",
                &["config", "--php-version=8.3"],
                "/home/me/shop"
            )),
        }
    );
    assert_eq!(task.phase(), ChainPhase::Running);

    let second = run_to_exit(&mut task, &mut registry, 1, true);
    assert_eq!(
        second,
        Reaction {
            emit: vec![chain_line("Restarting project...", "stdout")],
            action: RunnerAction::Spawn(request_in("ddev", &["restart"], "/home/me/shop")),
        }
    );
    assert_eq!(task.position(), 1);
    assert!(!is_process_cancelled(&registry, "proc_1"));

    let end = run_to_exit(&mut task, &mut registry, 2, true);
    assert_eq!(
        end,
        Reaction {
            emit: vec![chain_status(
                "change-php",
                "shop",
                "finished",
                "PHP version changed to 8.3 successfully",
                None
            )],
            action: RunnerAction::Finish(TaskEnd::Succeeded),
        }
    );
    assert_eq!(task.phase(), ChainPhase::Done(TaskEnd::Succeeded));
    assert!(is_process_cancelled(&registry, "proc_1"));
}

#[test]
fn change_without_restart_is_one_step() {
    let mut ids = ProcessIdGenerator::new();
    let mut registry: ProcessRegistry<u32> = ProcessRegistry::new();
    let (mut task, started) = change_nodejs_version(
        &mut ids,
        &mut registry,
        &chain_tool(),
        "blog",
        "/srv/blog",
        "22",
        false,
    );
    assert_eq!(
        started,
        chain_status("change-nodejs", "blog", "started", "Changing nodejs-version to 22", Some("proc_1"))
    );
    let first = task.advance(&mut registry, RunnerEvent::Begin);
    assert_eq!(
        first.action,
        RunnerAction::Spawn(request_in("ddev", &["config", "--nodejs-version=22"], "/srv/blog"))
    );
    let end = run_to_exit(&mut task, &mut registry, 1, true);
    assert_eq!(
        end.emit,
        vec![chain_status(
            "change-nodejs",
            "blog",
            "finished",
            "Node.js version changed to 22 successfully",
            None
        )]
    );
}

#[test]
fn second_step_failing_gives_one_error_of_its_own() {
    let mut ids = ProcessIdGenerator::new();
    let mut registry: ProcessRegistry<u32> = ProcessRegistry::new();
    let (mut task, started) = begin_change(&mut ids, &mut registry, true);
    let mut seen = vec![started];
    seen.extend(task.advance(&mut registry, RunnerEvent::Begin).emit);
    seen.extend(run_to_exit(&mut task, &mut registry, 1, true).emit);
    let failed = run_to_exit(&mut task, &mut registry, 2, false);
    assert_eq!(failed.action, RunnerAction::Finish(TaskEnd::Failed));
    seen.extend(failed.emit);
    seen.extend(task.advance(&mut registry, RunnerEvent::Exited(false)).emit);
    seen.extend(task.advance(&mut registry, RunnerEvent::Begin).emit);
    assert_eq!(
        seen,
        vec![
            chain_status("change-php", "shop", "started", "Changing php-version to 8.3", Some("proc_1")),
            chain_line("Running: ddev config --php-version=8.3", "stdout"),
            chain_line("Restarting project...", "stdout"),
            chain_status("change-php", "shop", "error", "Failed to restart project", None),
        ]
    );
    assert!(is_process_cancelled(&registry, "proc_1"));
    assert_eq!(task.phase(), ChainPhase::Done(TaskEnd::Failed));
}

#[test]
fn first_step_failing_stops_the_chain() {
    let mut ids = ProcessIdGenerator::new();
    let mut registry: ProcessRegistry<u32> = ProcessRegistry::new();
    let (mut task, _started) = begin_change(&mut ids, &mut registry, true);
    task.advance(&mut registry, RunnerEvent::Begin);
    let failed = run_to_exit(&mut task, &mut registry, 1, false);
    assert_eq!(
        failed,
        Reaction {
            emit: vec![chain_status("change-php", "shop", "error", "Failed to change php-version", None)],
            action: RunnerAction::Finish(TaskEnd::Failed),
        }
    );
    assert_eq!(task.position(), 0);
    assert!(is_process_cancelled(&registry, "proc_1"));
}

#[test]
fn a_step_that_cannot_start_fails_the_chain() {
    let mut ids = ProcessIdGenerator::new();
    let mut registry: ProcessRegistry<u32> = ProcessRegistry::new();
    let (mut task, _started) = begin_change(&mut ids, &mut registry, false);
    task.advance(&mut registry, RunnerEvent::Begin);
    let failed = task.advance(&mut registry, RunnerEvent::SpawnFailed("not found".to_string()));
    assert_eq!(
        failed.emit,
        vec![
            chain_line("Failed to start ddev: not found", "stderr"),
            chain_status("change-php", "shop", "error", "Failed to change php-version", None),
        ]
    );
    assert_eq!(failed.action, RunnerAction::Finish(TaskEnd::Failed));
}

#[test]
fn cancel_before_the_first_process_keeps_the_task_silent() {
    let mut ids = ProcessIdGenerator::new();
    let mut registry: ProcessRegistry<u32> = ProcessRegistry::new();
    let (mut task, started) = begin_change(&mut ids, &mut registry, true);
    let mut seen = vec![started];
    let cancelled = cancel_command(&mut registry, "proc_1".to_string()).unwrap();
    assert_eq!(cancelled.child, None);
    seen.push(UiEvent::CommandStatus(cancelled.status));
    let begin = task.advance(&mut registry, RunnerEvent::Begin);
    assert_eq!(begin.action, RunnerAction::Finish(TaskEnd::Cancelled));
    seen.extend(begin.emit);
    seen.extend(task.advance(&mut registry, RunnerEvent::Spawned(1)).emit);
    seen.extend(
        task.advance(&mut registry, RunnerEvent::Line(StreamKind::Stdout, "x".to_string()))
            .emit,
    );
    assert_eq!(
        seen,
        vec![
            chain_status("change-php", "shop", "started", "Changing php-version to 8.3", Some("proc_1")),
            chain_status("change-php", "shop", "cancelled", "Command was cancelled by user", Some("proc_1")),
        ]
    );
    assert_eq!(task.phase(), ChainPhase::Done(TaskEnd::Cancelled));
    assert_eq!(registry.len(), 0);
}

#[test]
fn cancel_between_steps_stops_before_the_next() {
    let mut ids = ProcessIdGenerator::new();
    let mut registry: ProcessRegistry<u32> = ProcessRegistry::new();
    let (mut task, _started) = begin_change(&mut ids, &mut registry, true);
    task.advance(&mut registry, RunnerEvent::Begin);
    task.advance(&mut registry, RunnerEvent::Spawned(1));
    let drained = task.advance(&mut registry, RunnerEvent::Drained);
    assert_eq!(drained.action, RunnerAction::Wait(1));
    let cancelled = cancel_command(&mut registry, "proc_1".to_string()).unwrap();
    assert_eq!(cancelled.child, None);
    let exited = task.advance(&mut registry, RunnerEvent::Exited(true));
    assert_eq!(
        exited,
        Reaction { emit: vec![], action: RunnerAction::Finish(TaskEnd::Cancelled) }
    );
}

#[test]
fn cancel_while_a_step_runs_hands_out_its_process() {
    let mut ids = ProcessIdGenerator::new();
    let mut registry: ProcessRegistry<u32> = ProcessRegistry::new();
    let (mut task, _started) = begin_change(&mut ids, &mut registry, true);
    task.advance(&mut registry, RunnerEvent::Begin);
    task.advance(&mut registry, RunnerEvent::Spawned(31));
    let line = task.advance(&mut registry, RunnerEvent::Line(StreamKind::Stdout, "working".to_string()));
    assert_eq!(line.emit, vec![chain_line("working", "stdout")]);
    let cancelled = cancel_command(&mut registry, "proc_1".to_string()).unwrap();
    assert_eq!(cancelled.child, Some(31));
    let drained = task.advance(&mut registry, RunnerEvent::Drained);
    assert_eq!(
        drained,
        Reaction { emit: vec![], action: RunnerAction::Finish(TaskEnd::Cancelled) }
    );
    assert_eq!(task.phase(), ChainPhase::Done(TaskEnd::Cancelled));
}

#[test]
fn create_project_with_every_setting() {
    let mut ids = ProcessIdGenerator::new();
    let mut registry: ProcessRegistry<u32> = ProcessRegistry::new();
    let (mut task, started) = create_project(
        &mut ids,
        &mut registry,
        &chain_tool(),
        "/home/me/shop",
        "shop",
        Some("drupal".to_string()),
        Some("8.3".to_string()),
        Some("mariadb:10.11".to_string()),
        Some("nginx-fpm".to_string()),
        Some("web".to_string()),
        true,
        None,
    );
    assert_eq!(
        started,
        chain_status(
            "config",
            "shop",
            "started",
            "Creating project: ddev config --project-name=shop --create-docroot --project-type=drupal --php-version=8.3 --database=mariadb:10.11 --webserver-type=nginx-fpm --docroot=web",
            Some("proc_1")
        )
    );
    let begin = task.advance(&mut registry, RunnerEvent::Begin);
    assert_eq!(
        begin,
        Reaction { emit: vec![], action: RunnerAction::EnsureDir("/home/me/shop".to_string()) }
    );
    assert_eq!(task.phase(), ChainPhase::PreparingDir);
    let config = task.advance(&mut registry, RunnerEvent::DirReady);
    assert_eq!(
        config,
        Reaction {
            emit: vec![],
            action: RunnerAction::Spawn(request_in(
                "ddev",
                &[
                    "config",
                    "--project-name=shop",
                    "--create-docroot",
                    "--project-type=drupal",
                    "--php-version=8.3",
                    "--database=mariadb:10.11",
                    "--webserver-type=nginx-fpm",
                    "--docroot=web"
                ],
                "/home/me/shop"
            )),
        }
    );
    let start = run_to_exit(&mut task, &mut registry, 1, true);
    assert_eq!(
        start,
        Reaction {
            emit: vec![chain_line("Starting project...", "stdout")],
            action: RunnerAction::Spawn(request_in("ddev", &["start"], "/home/me/shop")),
        }
    );
    let end = run_to_exit(&mut task, &mut registry, 2, true);
    assert_eq!(
        end,
        Reaction {
            emit: vec![chain_status("config", "shop", "finished", "Project created successfully", None)],
            action: RunnerAction::Finish(TaskEnd::Succeeded),
        }
    );
    assert!(is_process_cancelled(&registry, "proc_1"));
}

#[test]
fn create_project_leaves_empty_settings_out() {
    let mut ids = ProcessIdGenerator::new();
    let mut registry: ProcessRegistry<u32> = ProcessRegistry::new();
    let (mut task, started) = create_project(
        &mut ids,
        &mut registry,
        &chain_tool(),
        "/srv/site",
        "site",
        Some(String::new()),
        None,
        Some(String::new()),
        None,
        Some("public".to_string()),
        false,
        None,
    );
    assert_eq!(
        started,
        chain_status(
            "config",
            "site",
            "started",
            "Creating project: ddev config --project-name=site --create-docroot --docroot=public",
            Some("proc_1")
        )
    );
    task.advance(&mut registry, RunnerEvent::Begin);
    task.advance(&mut registry, RunnerEvent::DirReady);
    let end = run_to_exit(&mut task, &mut registry, 1, true);
    assert_eq!(
        end.emit,
        vec![chain_status("config", "site", "finished", "Project created successfully", None)]
    );
}

#[test]
fn create_project_fails_where_the_directory_cannot_be_made() {
    let mut ids = ProcessIdGenerator::new();
    let mut registry: ProcessRegistry<u32> = ProcessRegistry::new();
    let (mut task, _started) = create_project(
        &mut ids,
        &mut registry,
        &chain_tool(),
        "/root/shop",
        "shop",
        None,
        None,
        None,
        None,
        None,
        true,
        None,
    );
    task.advance(&mut registry, RunnerEvent::Begin);
    let failed = task.advance(
        &mut registry,
        RunnerEvent::DirFailed("Permission denied (os error 13)".to_string()),
    );
    assert_eq!(
        failed,
        Reaction {
            emit: vec![chain_status(
                "config",
                "shop",
                "error",
                "Failed to create directory: Permission denied (os error 13)",
                None
            )],
            action: RunnerAction::Finish(TaskEnd::Failed),
        }
    );
    assert!(is_process_cancelled(&registry, "proc_1"));
}

#[test]
fn create_project_reports_a_failed_configuration_and_a_failed_start_apart() {
    let mut ids = ProcessIdGenerator::new();
    let mut registry: ProcessRegistry<u32> = ProcessRegistry::new();
    let (mut task, _started) = create_project(
        &mut ids,
        &mut registry,
        &chain_tool(),
        "/srv/a",
        "a",
        None,
        None,
        None,
        None,
        None,
        true,
        None,
    );
    task.advance(&mut registry, RunnerEvent::Begin);
    task.advance(&mut registry, RunnerEvent::DirReady);
    let failed = run_to_exit(&mut task, &mut registry, 1, false);
    assert_eq!(
        failed.emit,
        vec![chain_status("config", "a", "error", "Failed to create project", None)]
    );

    let (mut other, _started) = create_project(
        &mut ids,
        &mut registry,
        &chain_tool(),
        "/srv/b",
        "b",
        None,
        None,
        None,
        None,
        None,
        true,
        None,
    );
    other.advance(&mut registry, RunnerEvent::Begin);
    other.advance(&mut registry, RunnerEvent::DirReady);
    run_to_exit(&mut other, &mut registry, 1, true);
    let failed_start = run_to_exit(&mut other, &mut registry, 2, false);
    assert_eq!(
        failed_start.emit,
        vec![chain_status("config", "b", "error", "Failed to start project", None)]
    );
}

#[test]
fn composer_installation_comes_before_the_configuration() {
    let mut ids = ProcessIdGenerator::new();
    let mut registry: ProcessRegistry<u32> = ProcessRegistry::new();
    let cms = CmsInstall {
        install_type: "composer".to_string(),
        package: Some("drupal/recommended-project".to_string()),
    };
    let (mut task, _started) = create_project(
        &mut ids,
        &mut registry,
        &chain_tool(),
        "/srv/d",
        "d",
        None,
        None,
        None,
        None,
        None,
        false,
        Some(cms),
    );
    task.advance(&mut registry, RunnerEvent::Begin);
    let composer = task.advance(&mut registry, RunnerEvent::DirReady);
    assert_eq!(
        composer,
        Reaction {
            emit: vec![chain_line("Installing drupal/recommended-project via Composer...", "stdout")],
            action: RunnerAction::Spawn(request_in(
                "composer",
                &["create-project", "drupal/recommended-project", "."],
                "/srv/d"
            )),
        }
    );
    let config = run_to_exit(&mut task, &mut registry, 1, true);
    assert_eq!(
        config.action,
        RunnerAction::Spawn(request_in(
            "ddev",
            &["config", "--project-name=d", "--create-docroot"],
            "/srv/d"
        ))
    );
}

#[test]
fn composer_installation_failing_ends_the_creation() {
    let mut ids = ProcessIdGenerator::new();
    let mut registry: ProcessRegistry<u32> = ProcessRegistry::new();
    let cms = CmsInstall {
        install_type: "composer".to_string(),
        package: Some("x/y".to_string()),
    };
    let (mut task, _started) = create_project(
        &mut ids,
        &mut registry,
        &chain_tool(),
        "/srv/d",
        "d",
        None,
        None,
        None,
        None,
        None,
        false,
        Some(cms),
    );
    task.advance(&mut registry, RunnerEvent::Begin);
    task.advance(&mut registry, RunnerEvent::DirReady);
    let failed = run_to_exit(&mut task, &mut registry, 1, false);
    assert_eq!(
        failed,
        Reaction {
            emit: vec![chain_status("config", "d", "error", "CMS installation failed", None)],
            action: RunnerAction::Finish(TaskEnd::Failed),
        }
    );
}

#[test]
fn composer_without_a_package_fails_at_once() {
    let cms = CmsInstall { install_type: "composer".to_string(), package: None };
    assert_eq!(
        install_cms(&cms, "/srv/d", "/usr/bin"),
        vec![ChainItem::Fail {
            report: "Error: No composer package specified".to_string(),
            message: "CMS installation failed".to_string(),
        }]
    );
    let mut ids = ProcessIdGenerator::new();
    let mut registry: ProcessRegistry<u32> = ProcessRegistry::new();
    let (mut task, _started) = create_project(
        &mut ids,
        &mut registry,
        &chain_tool(),
        "/srv/d",
        "d",
        None,
        None,
        None,
        None,
        None,
        false,
        Some(cms),
    );
    task.advance(&mut registry, RunnerEvent::Begin);
    let failed = task.advance(&mut registry, RunnerEvent::DirReady);
    assert_eq!(
        failed,
        Reaction {
            emit: vec![
                chain_line("Error: No composer package specified", "stderr"),
                chain_status("config", "d", "error", "CMS installation failed", None),
            ],
            action: RunnerAction::Finish(TaskEnd::Failed),
        }
    );
}

#[test]
fn unknown_installation_type_fails_at_once() {
    let cms = CmsInstall { install_type: "joomla".to_string(), package: None };
    assert_eq!(
        install_cms(&cms, "/srv/d", "/usr/bin"),
        vec![ChainItem::Fail {
            report: "Unknown installation type: joomla".to_string(),
            message: "CMS installation failed".to_string(),
        }]
    );
}

#[test]
fn wordpress_asks_for_wp_cli_and_holds_both_ways() {
    let cms = CmsInstall { install_type: "wordpress".to_string(), package: None };
    let items = install_cms(&cms, "/srv/w", "/usr/bin");
    let step = |announce: &str, program: &str, args: &[&str], on_failure: FailurePolicy| ChainStep {
        announce: Some(announce.to_string()),
        request: SpawnRequest {
            program: program.to_string(),
            args: strings(args),
            cwd: Some("/srv/w".to_string()),
            path: "/usr/bin".to_string(),
        },
        on_failure,
    };
    let abort = || FailurePolicy::Abort("CMS installation failed".to_string());
    assert_eq!(
        items,
        vec![
            ChainItem::Check {
                probe: SpawnRequest {
                    program: "wp".to_string(),
                    args: strings(&["--version"]),
                    cwd: None,
                    path: "/usr/bin".to_string(),
                },
                hit: 1,
                miss: 4,
            },
            ChainItem::Run(step(
                "Installing WordPress via WP-CLI...",
                "wp",
                &["core", "download"],
                abort()
            )),
            ChainItem::Run(step(
                "Downloading WordPress from wordpress.org...",
                "curl",
                &["-L", "-o", "/srv/w/wordpress-latest.zip", "https://wordpress.org/latest.zip"],
                abort()
            )),
            ChainItem::Run(step(
                "Extracting WordPress...",
                "unzip",
                &["-q", "/srv/w/wordpress-latest.zip"],
                abort()
            )),
            ChainItem::RunIfExists(
                "/srv/w/wordpress".to_string(),
                step(
                    "Moving WordPress files to project root...",
                    "sh",
                    &["-c", "mv wordpress/* . && mv wordpress/.[!.]* . 2>/dev/null; rmdir wordpress"],
                    FailurePolicy::Warn("Warning: Could not move some WordPress files".to_string())
                )
            ),
            ChainItem::RemoveFile("/srv/w/wordpress-latest.zip".to_string()),
        ]
    );
}

fn begin_wordpress(
    ids: &mut ProcessIdGenerator,
    registry: &mut ProcessRegistry<u32>,
    auto_start: bool,
) -> ChainedTask<u32> {
    let cms = CmsInstall { install_type: "wordpress".to_string(), package: None };
    let (mut task, _started) = create_project(
        ids,
        registry,
        &chain_tool(),
        "/srv/w",
        "w",
        None,
        None,
        None,
        None,
        None,
        auto_start,
        Some(cms),
    );
    task.advance(registry, RunnerEvent::Begin);
    let check = task.advance(registry, RunnerEvent::DirReady);
    assert_eq!(
        check,
        Reaction {
            emit: vec![],
            action: RunnerAction::Check(SpawnRequest {
                program: "wp".to_string(),
                args: strings(&["--version"]),
                cwd: None,
                path: "/usr/local/bin".to_string(),
            }),
        }
    );
    assert_eq!(task.phase(), ChainPhase::Checking);
    task
}

#[test]
fn wordpress_with_wp_cli_is_downloaded_by_it() {
    let mut ids = ProcessIdGenerator::new();
    let mut registry: ProcessRegistry<u32> = ProcessRegistry::new();
    let mut task = begin_wordpress(&mut ids, &mut registry, false);
    let download = task.advance(&mut registry, RunnerEvent::Checked(true));
    assert_eq!(
        download,
        Reaction {
            emit: vec![chain_line("Installing WordPress via WP-CLI...", "stdout")],
            action: RunnerAction::Spawn(request_in("wp", &["core", "download"], "/srv/w")),
        }
    );
    assert_eq!(task.position(), 2);
    let config = run_to_exit(&mut task, &mut registry, 1, true);
    assert_eq!(
        config,
        Reaction {
            emit: vec![],
            action: RunnerAction::Spawn(request_in(
                "ddev",
                &["config", "--project-name=w", "--create-docroot"],
                "/srv/w"
            )),
        }
    );
    assert_eq!(task.position(), 7);
    let end = run_to_exit(&mut task, &mut registry, 2, true);
    assert_eq!(end.action, RunnerAction::Finish(TaskEnd::Succeeded));
}

#[test]
fn wordpress_with_wp_cli_failing_ends_the_creation() {
    let mut ids = ProcessIdGenerator::new();
    let mut registry: ProcessRegistry<u32> = ProcessRegistry::new();
    let mut task = begin_wordpress(&mut ids, &mut registry, true);
    task.advance(&mut registry, RunnerEvent::Checked(true));
    let failed = run_to_exit(&mut task, &mut registry, 1, false);
    assert_eq!(
        failed,
        Reaction {
            emit: vec![chain_status("config", "w", "error", "CMS installation failed", None)],
            action: RunnerAction::Finish(TaskEnd::Failed),
        }
    );
}

#[test]
fn a_check_is_answered_once() {
    let mut ids = ProcessIdGenerator::new();
    let mut registry: ProcessRegistry<u32> = ProcessRegistry::new();
    let mut task = begin_wordpress(&mut ids, &mut registry, false);
    let wrong = task.advance(&mut registry, RunnerEvent::Probed(true));
    assert_eq!(wrong.action, RunnerAction::Rejected(RunnerEvent::Probed(true)));
    task.advance(&mut registry, RunnerEvent::Checked(false));
    let late = task.advance(&mut registry, RunnerEvent::Checked(true));
    assert_eq!(late.action, RunnerAction::Rejected(RunnerEvent::Checked(true)));
}

#[test]
fn a_check_of_a_cancelled_task_chooses_nothing() {
    let mut ids = ProcessIdGenerator::new();
    let mut registry: ProcessRegistry<u32> = ProcessRegistry::new();
    let mut task = begin_wordpress(&mut ids, &mut registry, false);
    cancel_command(&mut registry, "proc_1".to_string()).unwrap();
    let answer = task.advance(&mut registry, RunnerEvent::Checked(true));
    assert_eq!(
        answer,
        Reaction { emit: vec![], action: RunnerAction::Finish(TaskEnd::Cancelled) }
    );
}

#[test]
fn wordpress_download_runs_to_the_configuration() {
    let mut ids = ProcessIdGenerator::new();
    let mut registry: ProcessRegistry<u32> = ProcessRegistry::new();
    let cms = CmsInstall { install_type: "wordpress".to_string(), package: None };
    let (mut task, _started) = create_project(
        &mut ids,
        &mut registry,
        &chain_tool(),
        "/srv/w",
        "w",
        None,
        None,
        None,
        None,
        None,
        false,
        Some(cms),
    );
    task.advance(&mut registry, RunnerEvent::Begin);
    let check = task.advance(&mut registry, RunnerEvent::DirReady);
    assert!(matches!(check.action, RunnerAction::Check(_)));
    let curl = task.advance(&mut registry, RunnerEvent::Checked(false));
    assert_eq!(curl.emit, vec![chain_line("Downloading WordPress from wordpress.org...", "stdout")]);
    assert_eq!(task.position(), 3);
    let unzip = run_to_exit(&mut task, &mut registry, 1, true);
    assert_eq!(unzip.emit, vec![chain_line("Extracting WordPress...", "stdout")]);
    let probe = run_to_exit(&mut task, &mut registry, 2, true);
    assert_eq!(
        probe,
        Reaction { emit: vec![], action: RunnerAction::Probe("/srv/w/wordpress".to_string()) }
    );
    assert_eq!(task.phase(), ChainPhase::Probing);
    let moving = task.advance(&mut registry, RunnerEvent::Probed(true));
    assert_eq!(moving.emit, vec![chain_line("Moving WordPress files to project root...", "stdout")]);
    let cleanup = run_to_exit(&mut task, &mut registry, 3, false);
    assert_eq!(
        cleanup,
        Reaction {
            emit: vec![chain_line("Warning: Could not move some WordPress files", "stderr")],
            action: RunnerAction::RemoveFile("/srv/w/wordpress-latest.zip".to_string()),
        }
    );
    assert_eq!(task.phase(), ChainPhase::Removing);
    let config = task.advance(&mut registry, RunnerEvent::Removed);
    assert_eq!(
        config.action,
        RunnerAction::Spawn(request_in(
            "ddev",
            &["config", "--project-name=w", "--create-docroot"],
            "/srv/w"
        ))
    );
    let end = run_to_exit(&mut task, &mut registry, 4, true);
    assert_eq!(end.action, RunnerAction::Finish(TaskEnd::Succeeded));
}

#[test]
fn wordpress_directory_missing_skips_the_move() {
    let mut ids = ProcessIdGenerator::new();
    let mut registry: ProcessRegistry<u32> = ProcessRegistry::new();
    let cms = CmsInstall { install_type: "wordpress".to_string(), package: None };
    let (mut task, _started) = create_project(
        &mut ids,
        &mut registry,
        &chain_tool(),
        "/srv/w",
        "w",
        None,
        None,
        None,
        None,
        None,
        false,
        Some(cms),
    );
    task.advance(&mut registry, RunnerEvent::Begin);
    task.advance(&mut registry, RunnerEvent::DirReady);
    task.advance(&mut registry, RunnerEvent::Checked(false));
    run_to_exit(&mut task, &mut registry, 1, true);
    run_to_exit(&mut task, &mut registry, 2, true);
    let skipped = task.advance(&mut registry, RunnerEvent::Probed(false));
    assert_eq!(
        skipped,
        Reaction {
            emit: vec![],
            action: RunnerAction::RemoveFile("/srv/w/wordpress-latest.zip".to_string()),
        }
    );
}

#[test]
fn a_chain_of_no_steps_finishes_at_once() {
    let mut ids = ProcessIdGenerator::new();
    let mut registry: ProcessRegistry<u32> = ProcessRegistry::new();
    let (mut task, started) = ChainedTask::start(
        &mut ids,
        &mut registry,
        "noop",
        "p",
        "Starting".to_string(),
        "Done".to_string(),
        Vec::new(),
    );
    assert_eq!(started, chain_status("noop", "p", "started", "Starting", Some("proc_1")));
    let end = task.advance(&mut registry, RunnerEvent::Begin);
    assert_eq!(
        end,
        Reaction {
            emit: vec![chain_status("noop", "p", "finished", "Done", None)],
            action: RunnerAction::Finish(TaskEnd::Succeeded),
        }
    );
}

#[test]
fn change_of_any_option_names_it_in_its_messages() {
    let mut ids = ProcessIdGenerator::new();
    let mut registry: ProcessRegistry<u32> = ProcessRegistry::new();
    let (mut task, started) = change_project_config(
        &mut ids,
        &mut registry,
        &chain_tool(),
        "shop",
        "/srv/shop",
        "webserver-type",
        "apache-fpm",
        "change-webserver",
        "Web server changed".to_string(),
        false,
    );
    assert_eq!(
        started,
        chain_status(
            "change-webserver",
            "shop",
            "started",
            "Changing webserver-type to apache-fpm",
            Some("proc_1")
        )
    );
    task.advance(&mut registry, RunnerEvent::Begin);
    let failed = run_to_exit(&mut task, &mut registry, 1, false);
    assert_eq!(
        failed.emit,
        vec![chain_status("change-webserver", "shop", "error", "Failed to change webserver-type", None)]
    );
}

#[test]
fn chain_events_out_of_turn_are_handed_back() {
    let mut ids = ProcessIdGenerator::new();
    let mut registry: ProcessRegistry<u32> = ProcessRegistry::new();
    let (mut task, _started) = begin_change(&mut ids, &mut registry, true);
    let early = task.advance(&mut registry, RunnerEvent::Spawned(4));
    assert_eq!(
        early,
        Reaction { emit: vec![], action: RunnerAction::Rejected(RunnerEvent::Spawned(4)) }
    );
    assert_eq!(task.phase(), ChainPhase::Ready);
    task.advance(&mut registry, RunnerEvent::Begin);
    let wrong = task.advance(&mut registry, RunnerEvent::DirReady);
    assert_eq!(wrong.action, RunnerAction::Rejected(RunnerEvent::DirReady));
    let again = task.advance(&mut registry, RunnerEvent::Begin);
    assert_eq!(again.action, RunnerAction::Rejected(RunnerEvent::Begin));
    assert_eq!(task.phase(), ChainPhase::Running);
}

#[test]
fn a_cancelled_task_reports_no_failure_of_its_directory() {
    let mut ids = ProcessIdGenerator::new();
    let mut registry: ProcessRegistry<u32> = ProcessRegistry::new();
    let (mut task, _started) = create_project(
        &mut ids,
        &mut registry,
        &chain_tool(),
        "/root/shop",
        "shop",
        None,
        None,
        None,
        None,
        None,
        true,
        None,
    );
    task.advance(&mut registry, RunnerEvent::Begin);
    cancel_command(&mut registry, "proc_1".to_string()).unwrap();
    let failed = task.advance(&mut registry, RunnerEvent::DirFailed("denied".to_string()));
    assert_eq!(
        failed,
        Reaction { emit: vec![], action: RunnerAction::Finish(TaskEnd::Cancelled) }
    );
    assert_eq!(task.phase(), ChainPhase::Done(TaskEnd::Cancelled));
}

#[test]
fn a_task_cancelled_during_the_wait_reports_no_failure() {
    let mut ids = ProcessIdGenerator::new();
    let mut registry: ProcessRegistry<u32> = ProcessRegistry::new();
    let (mut task, _started) = begin_change(&mut ids, &mut registry, true);
    task.advance(&mut registry, RunnerEvent::Begin);
    task.advance(&mut registry, RunnerEvent::Spawned(1));
    task.advance(&mut registry, RunnerEvent::Drained);
    let cancelled = cancel_command(&mut registry, "proc_1".to_string()).unwrap();
    assert_eq!(cancelled.child, None);
    let exited = task.advance(&mut registry, RunnerEvent::Exited(false));
    assert_eq!(
        exited,
        Reaction { emit: vec![], action: RunnerAction::Finish(TaskEnd::Cancelled) }
    );
}

#[test]
fn a_task_cancelled_while_a_process_is_being_started_gets_no_entry_back() {
    let mut ids = ProcessIdGenerator::new();
    let mut registry: ProcessRegistry<u32> = ProcessRegistry::new();
    let (mut task, _started) = begin_change(&mut ids, &mut registry, true);
    let first = task.advance(&mut registry, RunnerEvent::Begin);
    assert!(matches!(first.action, RunnerAction::Spawn(_)));
    cancel_command(&mut registry, "proc_1".to_string()).unwrap();
    let spawned = task.advance(&mut registry, RunnerEvent::Spawned(21));
    assert_eq!(spawned, Reaction { emit: vec![], action: RunnerAction::Reap(21) });
    assert_eq!(task.phase(), ChainPhase::Done(TaskEnd::Cancelled));
    assert!(is_process_cancelled(&registry, "proc_1"));
    assert_eq!(registry.len(), 0);
    let late = task.advance(&mut registry, RunnerEvent::Drained);
    assert!(late.emit.is_empty());
    assert_eq!(late.action, RunnerAction::Rejected(RunnerEvent::Drained));

    let (mut other, _started) = begin_change(&mut ids, &mut registry, true);
    other.advance(&mut registry, RunnerEvent::Begin);
    cancel_command(&mut registry, "proc_2".to_string()).unwrap();
    let failed = other.advance(&mut registry, RunnerEvent::SpawnFailed("gone".to_string()));
    assert_eq!(
        failed,
        Reaction { emit: vec![], action: RunnerAction::Finish(TaskEnd::Cancelled) }
    );
}
