use ddev_manager::commands::addons::{
    addon_registry_url, fetch_addon_registry, install_addon, installed_addons,
    list_installed_addons, remove_addon, RegistryFailure,
};
use ddev_manager::commands::create::{
    check_composer_installed, check_folder_empty, check_wpcli_installed, is_installed,
    project_config_args, FolderProbe, ProjectSettings,
};
use ddev_manager::commands::database::{export_db, import_db};
use ddev_manager::commands::logs::log_arguments;
use ddev_manager::commands::projects::{
    apply_xdebug_runtime, check_xdebug_runtime, delete_project, describe_project, list_projects,
    needs_xdebug_check, poweroff, reports_xdebug, restart_project, stop_project, toggle_service,
    toggle_service_report, xdebug_runtime,
};
use ddev_manager::commands::snapshots::{
    cleanup_snapshots, create_snapshot, delete_snapshot, list_snapshots, restore_snapshot,
};
use ddev_manager::commands::utils::{
    check_ddev_installed, get_ddev_version, is_appimage, open_failure, open_project_folder,
    open_project_url, sync_theme_menu, DesktopCommand, Platform, ThemeChecks,
};
use ddev_manager::ddev::{
    command_output, run_ddev_command_async, run_ddev_json_command_async, CommandOutcome, DdevTool,
};
use ddev_manager::error::DdevError;
use ddev_manager::events::{SpawnRequest, UiEvent};
use ddev_manager::process::{ProcessIdGenerator, ProcessRegistry};
use ddev_manager::text::strings;
use ddev_manager::types::{
    CommandOutput, CommandStatus, DdevProjectDetails, InstalledAddon,
};
use std::collections::HashMap;

fn direct_tool() -> DdevTool {
    DdevTool {
        program: "ddev".to_string(),
        base_args: Vec::new(),
        path: "/usr/bin".to_string(),
    }
}

fn wsl_tool() -> DdevTool {
    DdevTool {
        program: "wsl".to_string(),
        base_args: strings(&["ddev"]),
        path: "C:\\ddev".to_string(),
    }
}

fn plain_request(args: &[&str]) -> SpawnRequest {
    SpawnRequest {
        program: "ddev".to_string(),
        args: strings(args),
        cwd: None,
        path: "/usr/bin".to_string(),
    }
}

fn toggle_status(status: &str, message: &str) -> UiEvent {
    UiEvent::CommandStatus(CommandStatus {
        command: "toggle-xdebug".to_string(),
        project: "shop".to_string(),
        status: status.to_string(),
        message: Some(message.to_string()),
        process_id: None,
    })
}

fn details_with(status: &str, xdebug: bool) -> DdevProjectDetails {
    DdevProjectDetails {
        name: "shop".to_string(),
        status: status.to_string(),
        status_desc: String::new(),
        project_type: "php".to_string(),
        approot: "/srv/shop".to_string(),
        shortroot: "~/shop".to_string(),
        docroot: String::new(),
        primary_url: String::new(),
        httpurl: String::new(),
        httpsurl: String::new(),
        hostname: String::new(),
        hostnames: Vec::new(),
        http_urls: Vec::new(),
        https_urls: Vec::new(),
        urls: Vec::new(),
        php_version: None,
        webserver_type: None,
        database_type: None,
        database_version: None,
        performance_mode: None,
        webimg: None,
        dbimg: None,
        router_http_port: None,
        router_https_port: None,
        router_status: None,
        router_status_log: None,
        ssh_agent_status: None,
        xdebug_enabled: xdebug,
        xhgui_status: None,
        xhprof_mode: None,
        fail_on_hook_fail: false,
        mailpit_url: String::new(),
        mailpit_https_url: String::new(),
        xhgui_url: String::new(),
        xhgui_https_url: String::new(),
        router: String::new(),
        router_disabled: false,
        mutagen_enabled: false,
        nodejs_version: String::new(),
        dbinfo: None,
        services: HashMap::new(),
    }
}

#[test]
fn queries_ask_for_json() {
    assert_eq!(list_projects(&direct_tool()), plain_request(&["--json-output", "list"]));
    assert_eq!(
        describe_project(&direct_tool(), "shop"),
        plain_request(&["--json-output", "describe", "shop"])
    );
    assert_eq!(
        run_ddev_json_command_async(&wsl_tool(), &strings(&["list"])).args,
        strings(&["ddev", "--json-output", "list"])
    );
    assert_eq!(
        run_ddev_command_async(&wsl_tool(), &strings(&["version"])),
        SpawnRequest {
            program: "wsl".to_string(),
            args: strings(&["ddev", "version"]),
            cwd: None,
            path: "C:\\ddev".to_string(),
        }
    );
    assert_eq!(check_ddev_installed(&direct_tool()), plain_request(&["version"]));
    assert_eq!(get_ddev_version(&direct_tool()), plain_request(&["version"]));
    assert_eq!(
        list_snapshots(&direct_tool(), "shop"),
        plain_request(&["snapshot", "--list", "--json-output", "shop"])
    );
    assert_eq!(
        list_installed_addons(&direct_tool(), "shop"),
        plain_request(&["--json-output", "add-on", "list", "--installed", "--project", "shop"])
    );
}

#[test]
fn the_answer_of_a_call_becomes_text_or_error() {
    assert_eq!(
        command_output(CommandOutcome::Exited {
            success: true,
            stdout: "v1.23".to_string(),
            stderr: "warning".to_string(),
        }),
        Ok("v1.23".to_string())
    );
    assert_eq!(
        command_output(CommandOutcome::Exited {
            success: false,
            stdout: "partial".to_string(),
            stderr: "no project".to_string(),
        }),
        Err(DdevError::CommandFailed("no project".to_string()))
    );
    assert_eq!(
        command_output(CommandOutcome::StartFailed {
            not_found: true,
            reason: "No such file".to_string(),
        }),
        Err(DdevError::NotInstalled)
    );
    assert_eq!(
        command_output(CommandOutcome::StartFailed {
            not_found: false,
            reason: "Permission denied".to_string(),
        }),
        Err(DdevError::IoError("Permission denied".to_string()))
    );
}

#[test]
fn project_commands_name_their_arguments() {
    let mut ids = ProcessIdGenerator::new();
    let mut registry: ProcessRegistry<u32> = ProcessRegistry::new();
    let tool = direct_tool();
    let stop = stop_project(&mut ids, &mut registry, &tool, "shop");
    assert_eq!(stop.task.request().clone(), plain_request(&["stop", "shop"]));
    assert_eq!(stop.process_id, "proc_1");
    let restart = restart_project(&mut ids, &mut registry, &tool, "shop");
    assert_eq!(restart.task.request().clone(), plain_request(&["restart", "shop"]));
    assert_eq!(restart.process_id, "proc_2");
    let off = poweroff(&mut ids, &mut registry, &tool);
    assert_eq!(off.task.request().clone(), plain_request(&["poweroff"]));
    assert_eq!(
        off.started,
        UiEvent::CommandStatus(CommandStatus {
            command: "poweroff".to_string(),
            project: "all".to_string(),
            status: "started".to_string(),
            message: Some("Running: ddev poweroff".to_string()),
            process_id: Some("proc_3".to_string()),
        })
    );
    let delete = delete_project(&mut ids, &mut registry, &tool, "shop");
    assert_eq!(
        delete.task.request().clone(),
        plain_request(&["delete", "--omit-snapshot", "--yes", "shop"])
    );
    assert_eq!(
        delete.started,
        UiEvent::CommandStatus(CommandStatus {
            command: "delete".to_string(),
            project: "shop".to_string(),
            status: "started".to_string(),
            message: Some("Running: ddev delete --omit-snapshot --yes shop".to_string()),
            process_id: Some("proc_4".to_string()),
        })
    );
}

#[test]
fn snapshot_commands_name_their_arguments() {
    let mut ids = ProcessIdGenerator::new();
    let mut registry: ProcessRegistry<u32> = ProcessRegistry::new();
    let tool = direct_tool();
    assert_eq!(
        create_snapshot(&mut ids, &mut registry, &tool, "shop", Some("monday")).task.request().clone(),
        plain_request(&["snapshot", "--name", "monday", "shop"])
    );
    assert_eq!(
        create_snapshot(&mut ids, &mut registry, &tool, "shop", None).task.request().clone(),
        plain_request(&["snapshot", "shop"])
    );
    let restore = restore_snapshot(&mut ids, &mut registry, &tool, "shop", "monday", "/srv/shop");
    assert_eq!(
        restore.task.request().clone(),
        SpawnRequest {
            program: "ddev".to_string(),
            args: strings(&["snapshot", "restore", "monday"]),
            cwd: Some("/srv/shop".to_string()),
            path: "/usr/bin".to_string(),
        }
    );
    assert_eq!(
        restore.started,
        UiEvent::CommandStatus(CommandStatus {
            command: "snapshot-restore".to_string(),
            project: "shop".to_string(),
            status: "started".to_string(),
            message: Some("Running: ddev snapshot restore monday".to_string()),
            process_id: Some("proc_3".to_string()),
        })
    );
    assert_eq!(
        delete_snapshot(&mut ids, &mut registry, &tool, "shop", "monday").task.request().clone(),
        plain_request(&["snapshot", "--cleanup", "--name", "monday", "-y", "shop"])
    );
    assert_eq!(
        cleanup_snapshots(&mut ids, &mut registry, &tool, "shop").task.request().clone(),
        plain_request(&["snapshot", "--cleanup", "-y", "shop"])
    );
}

#[test]
fn database_commands_name_their_arguments() {
    let mut ids = ProcessIdGenerator::new();
    let mut registry: ProcessRegistry<u32> = ProcessRegistry::new();
    let tool = direct_tool();
    assert_eq!(
        import_db(&mut ids, &mut registry, &tool, "shop", "/tmp/db.sql.gz", None, None).task.request().clone(),
        plain_request(&["import-db", "--file=/tmp/db.sql.gz", "shop"])
    );
    assert_eq!(
        import_db(&mut ids, &mut registry, &tool, "shop", "/tmp/db.sql", Some("legacy"), Some(true)).task.request().clone(),
        plain_request(&["import-db", "--file=/tmp/db.sql", "--database=legacy", "--no-drop", "shop"])
    );
    assert_eq!(
        import_db(&mut ids, &mut registry, &tool, "shop", "/tmp/db.sql", Some(""), Some(false)).task.request().clone(),
        plain_request(&["import-db", "--file=/tmp/db.sql", "shop"])
    );
    assert_eq!(
        export_db(&mut ids, &mut registry, &tool, "shop", "/tmp/out.sql.gz", None, None).task.request().clone(),
        plain_request(&["export-db", "--file=/tmp/out.sql.gz", "shop"])
    );
    assert_eq!(
        export_db(&mut ids, &mut registry, &tool, "shop", "/tmp/out.sql.bz2", Some("legacy"), Some("bzip2")).task.request().clone(),
        plain_request(&["export-db", "--file=/tmp/out.sql.bz2", "--database=legacy", "--bzip2", "shop"])
    );
    assert_eq!(
        export_db(&mut ids, &mut registry, &tool, "shop", "/tmp/out.sql.xz", None, Some("xz")).task.request().clone(),
        plain_request(&["export-db", "--file=/tmp/out.sql.xz", "--xz", "shop"])
    );
    assert_eq!(
        export_db(&mut ids, &mut registry, &tool, "shop", "/tmp/out.sql.gz", None, Some("gzip")).task.request().clone(),
        plain_request(&["export-db", "--file=/tmp/out.sql.gz", "shop"])
    );
    assert_eq!(
        import_db(&mut ids, &mut registry, &tool, "shop", "/tmp/db.sql", None, None).started,
        UiEvent::CommandStatus(CommandStatus {
            command: "import-db".to_string(),
            project: "shop".to_string(),
            status: "started".to_string(),
            message: Some("Running: ddev import-db --file=/tmp/db.sql shop".to_string()),
            process_id: Some("proc_8".to_string()),
        })
    );
}

#[test]
fn addon_commands_name_their_arguments() {
    let mut ids = ProcessIdGenerator::new();
    let mut registry: ProcessRegistry<u32> = ProcessRegistry::new();
    let tool = direct_tool();
    let install = install_addon(&mut ids, &mut registry, &tool, "shop", "ddev/ddev-redis");
    assert_eq!(
        install.task.request().clone(),
        plain_request(&["add-on", "get", "ddev/ddev-redis", "--project", "shop"])
    );
    assert_eq!(
        install.started,
        UiEvent::CommandStatus(CommandStatus {
            command: "addon-install".to_string(),
            project: "shop".to_string(),
            status: "started".to_string(),
            message: Some("Running: ddev add-on get ddev/ddev-redis --project shop".to_string()),
            process_id: Some("proc_1".to_string()),
        })
    );
    let remove = remove_addon(&mut ids, &mut registry, &tool, "shop", "redis");
    assert_eq!(
        remove.task.request().clone(),
        plain_request(&["add-on", "remove", "redis", "--project", "shop"])
    );
    assert_eq!(addon_registry_url(), "https://addons.ddev.com/addons.json");
}

#[test]
fn unreadable_addon_list_means_no_addons() {
    assert!(installed_addons(None).is_empty());
    let listed = installed_addons(Some(vec![InstalledAddon {
        name: "redis".to_string(),
        repository: "ddev/ddev-redis".to_string(),
        version: Some("v1.2".to_string()),
    }]));
    assert_eq!(listed.len(), 1);
    assert_eq!(listed[0].name, "redis");
    assert_eq!(listed[0].version, Some("v1.2".to_string()));
}

#[test]
fn registry_failures_become_errors() {
    assert_eq!(
        fetch_addon_registry(RegistryFailure::Request("timeout".to_string())),
        DdevError::IoError("Failed to fetch registry: timeout".to_string())
    );
    assert_eq!(
        fetch_addon_registry(RegistryFailure::Status("503 Service Unavailable".to_string())),
        DdevError::CommandFailed("Registry returned status 503 Service Unavailable".to_string())
    );
    assert_eq!(
        fetch_addon_registry(RegistryFailure::Body("reset".to_string())),
        DdevError::IoError("Failed to read response: reset".to_string())
    );
    assert_eq!(
        fetch_addon_registry(RegistryFailure::Json("EOF".to_string())),
        DdevError::ParseError("Failed to parse registry JSON: EOF".to_string())
    );
}

#[test]
fn log_arguments_follow_the_options() {
    assert_eq!(
        log_arguments("shop", "web", false, None, false),
        strings(&["logs", "-s", "web", "shop"])
    );
    assert_eq!(
        log_arguments("shop", "web", true, None, false),
        strings(&["logs", "-s", "web", "-f", "shop"])
    );
    assert_eq!(
        log_arguments("shop", "db", false, Some(4294967295), true),
        strings(&["logs", "-s", "db", "--tail=4294967295", "-t", "shop"])
    );
}

#[test]
fn folder_emptiness() {
    assert_eq!(check_folder_empty(FolderProbe::Missing), Ok(true));
    assert_eq!(check_folder_empty(FolderProbe::Directory { has_entries: false }), Ok(true));
    assert_eq!(check_folder_empty(FolderProbe::Directory { has_entries: true }), Ok(false));
    assert_eq!(
        check_folder_empty(FolderProbe::NotADirectory),
        Err(DdevError::CommandFailed("Path is not a directory".to_string()))
    );
    assert_eq!(
        check_folder_empty(FolderProbe::Unreadable("denied".to_string())),
        Err(DdevError::IoError("denied".to_string()))
    );
}

#[test]
fn version_probes() {
    assert_eq!(
        check_composer_installed("/usr/bin:/bin"),
        SpawnRequest {
            program: "composer".to_string(),
            args: strings(&["--version"]),
            cwd: None,
            path: "/usr/bin:/bin".to_string(),
        }
    );
    assert_eq!(check_wpcli_installed("/usr/bin").program, "wp");
    assert_eq!(check_wpcli_installed("/usr/bin").args, strings(&["--version"]));
    assert!(is_installed(&CommandOutcome::Exited {
        success: true,
        stdout: String::new(),
        stderr: String::new(),
    }));
    assert!(!is_installed(&CommandOutcome::Exited {
        success: false,
        stdout: String::new(),
        stderr: String::new(),
    }));
    assert!(!is_installed(&CommandOutcome::StartFailed {
        not_found: true,
        reason: String::new(),
    }));
}

#[test]
fn configuration_arguments_in_their_order() {
    let settings = ProjectSettings {
        project_type: None,
        php_version: Some("8.2".to_string()),
        database: None,
        webserver: Some("apache-fpm".to_string()),
        docroot: None,
    };
    assert_eq!(
        project_config_args("shop", &settings),
        strings(&[
            "config",
            "--project-name=shop",
            "--create-docroot",
            "--php-version=8.2",
            "--webserver-type=apache-fpm"
        ])
    );
}

#[test]
fn xdebug_is_read_from_what_the_tool_wrote() {
    assert_eq!(
        check_xdebug_runtime(&direct_tool(), "/srv/shop"),
        SpawnRequest {
            program: "ddev".to_string(),
            args: strings(&["xdebug", "status"]),
            cwd: Some("/srv/shop".to_string()),
            path: "/usr/bin".to_string(),
        }
    );
    assert!(reports_xdebug("xdebug enabled"));
    assert!(reports_xdebug("status: xdebug enabled\n"));
    assert!(!reports_xdebug("xdebug disabled"));
    assert!(!reports_xdebug("Xdebug Enabled"));
    assert!(!reports_xdebug(""));
    let exited = |stdout: &str, stderr: &str, success: bool| CommandOutcome::Exited {
        success,
        stdout: stdout.to_string(),
        stderr: stderr.to_string(),
    };
    assert_eq!(xdebug_runtime(exited("Xdebug Enabled\n", "", true)), Ok(true));
    assert_eq!(xdebug_runtime(exited("", "XDEBUG ENABLED", false)), Ok(true));
    assert_eq!(xdebug_runtime(exited("xdebug ", "enabled", true)), Ok(true));
    assert_eq!(xdebug_runtime(exited("xdebug disabled\n", "", true)), Ok(false));
    assert_eq!(
        xdebug_runtime(CommandOutcome::StartFailed {
            not_found: true,
            reason: "No such file".to_string(),
        }),
        Err(DdevError::IoError("No such file".to_string()))
    );
}

#[test]
fn xdebug_of_a_running_project_comes_from_the_project() {
    let mut running = details_with("running", false);
    assert!(needs_xdebug_check(&running));
    apply_xdebug_runtime(&mut running, Some(true));
    assert!(running.xdebug_enabled);
    apply_xdebug_runtime(&mut running, None);
    assert!(running.xdebug_enabled);
    apply_xdebug_runtime(&mut running, Some(false));
    assert!(!running.xdebug_enabled);
    assert_eq!(running.name, "shop");
    let stopped = details_with("stopped", true);
    assert!(!needs_xdebug_check(&stopped));
}

#[test]
fn toggling_a_service_on() {
    let (request, started) = toggle_service(&direct_tool(), "shop", "/srv/shop", "xdebug", true);
    assert_eq!(
        request,
        SpawnRequest {
            program: "ddev".to_string(),
            args: strings(&["xdebug", "on"]),
            cwd: Some("/srv/shop".to_string()),
            path: "/usr/bin".to_string(),
        }
    );
    assert_eq!(started, toggle_status("started", "Running: ddev xdebug on"));
    let (events, result) = toggle_service_report(
        "shop",
        "xdebug",
        true,
        CommandOutcome::Exited {
            success: true,
            stdout: "Enabled xdebug\r\ndone\n".to_string(),
            stderr: "warning: slow".to_string(),
        },
    );
    assert_eq!(result, Ok(()));
    let line = |text: &str, stream: &str| {
        UiEvent::CommandOutput(CommandOutput { line: text.to_string(), stream: stream.to_string() })
    };
    assert_eq!(
        events,
        vec![
            line("Enabled xdebug", "stdout"),
            line("done", "stdout"),
            line("warning: slow", "stderr"),
            toggle_status("finished", "ddev xdebug on completed"),
        ]
    );
}

#[test]
fn toggling_a_service_off_and_failing() {
    let (request, started) = toggle_service(&wsl_tool(), "shop", "/srv/shop", "xdebug", false);
    assert_eq!(request.args, strings(&["ddev", "xdebug", "off"]));
    assert_eq!(started, toggle_status("started", "Running: ddev xdebug off"));
    let (events, result) = toggle_service_report(
        "shop",
        "xdebug",
        false,
        CommandOutcome::Exited { success: false, stdout: String::new(), stderr: String::new() },
    );
    assert_eq!(events, vec![toggle_status("error", "ddev xdebug off failed")]);
    assert_eq!(
        result,
        Err(DdevError::CommandFailed("ddev xdebug off failed".to_string()))
    );
    let (events, result) = toggle_service_report(
        "shop",
        "xdebug",
        false,
        CommandOutcome::StartFailed { not_found: true, reason: "gone".to_string() },
    );
    assert_eq!(events, vec![toggle_status("error", "Failed to run ddev xdebug off")]);
    assert_eq!(result, Err(DdevError::NotInstalled));
    let (_events, result) = toggle_service_report(
        "shop",
        "xdebug",
        true,
        CommandOutcome::StartFailed { not_found: false, reason: "denied".to_string() },
    );
    assert_eq!(result, Err(DdevError::IoError("denied".to_string())));
}

#[test]
fn desktop_programs_by_platform() {
    let command = |program: &str, args: &[&str]| {
        Some(DesktopCommand { program: program.to_string(), args: strings(args) })
    };
    let url = "https://shop.ddev.site";
    assert_eq!(open_project_url(Platform::MacOs, url), command("open", &[url]));
    assert_eq!(open_project_url(Platform::Windows, url), command("cmd", &["/C", "start", url]));
    assert_eq!(open_project_url(Platform::Linux, url), command("xdg-open", &[url]));
    assert_eq!(open_project_url(Platform::Other, url), None);
    assert_eq!(open_project_folder(Platform::MacOs, "/srv"), command("open", &["/srv"]));
    assert_eq!(open_project_folder(Platform::Windows, "C:\\srv"), command("explorer", &["C:\\srv"]));
    assert_eq!(open_project_folder(Platform::Linux, "/srv"), command("xdg-open", &["/srv"]));
    assert_eq!(open_project_folder(Platform::Other, "/srv"), None);
    assert_eq!(
        open_failure("not found".to_string()),
        DdevError::IoError("not found".to_string())
    );
}

#[test]
fn appimage_only_on_linux() {
    assert!(is_appimage(Platform::Linux, true));
    assert!(!is_appimage(Platform::Linux, false));
    assert!(!is_appimage(Platform::MacOs, true));
    assert!(!is_appimage(Platform::Windows, true));
    assert!(!is_appimage(Platform::Other, true));
}

#[test]
fn theme_menu_checks_one_entry() {
    let none = ThemeChecks { light: false, dark: false, high_contrast: false, system: false };
    assert_eq!(sync_theme_menu("light"), ThemeChecks { light: true, ..none });
    assert_eq!(sync_theme_menu("dark"), ThemeChecks { dark: true, ..none });
    assert_eq!(sync_theme_menu("high-contrast"), ThemeChecks { high_contrast: true, ..none });
    assert_eq!(sync_theme_menu("system"), ThemeChecks { system: true, ..none });
    assert_eq!(sync_theme_menu("solarized"), none);
}
