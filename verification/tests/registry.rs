use ddev_manager::error::DdevError;
use ddev_manager::process::{
    cancel_command, create_task_entry, is_process_cancelled, register_child_process,
    remove_task_entry, take_child_process, ProcessRegistry,
};
use ddev_manager::types::CommandStatus;

fn cancelled_event(command: &str, project: &str, id: &str) -> CommandStatus {
    CommandStatus {
        command: command.to_string(),
        project: project.to_string(),
        status: "cancelled".to_string(),
        message: Some("Command was cancelled by user".to_string()),
        process_id: Some(id.to_string()),
    }
}

#[test]
fn a_new_registry_holds_no_task() {
    let registry: ProcessRegistry<u32> = ProcessRegistry::new();
    assert_eq!(registry.len(), 0);
    assert!(is_process_cancelled(&registry, "proc_1"));
}

#[test]
fn cancel_unknown_task_is_not_found() {
    let mut registry: ProcessRegistry<u32> = ProcessRegistry::new();
    create_task_entry(&mut registry, "proc_1", "config", "shop");
    let result = cancel_command(&mut registry, "proc_999".to_string());
    assert_eq!(
        result.err(),
        Some(DdevError::CommandFailed(
            "Process proc_999 not found or already completed".to_string()
        ))
    );
    assert_eq!(registry.len(), 1);
    assert!(!is_process_cancelled(&registry, "proc_1"));
}

#[test]
fn take_leaves_the_entry() {
    let mut registry: ProcessRegistry<u32> = ProcessRegistry::new();
    create_task_entry(&mut registry, "proc_1", "config", "shop");
    assert!(!is_process_cancelled(&registry, "proc_1"));
    assert_eq!(take_child_process(&mut registry, "proc_1"), None);
    register_child_process(&mut registry, "proc_1", 7, "config", "shop");
    assert_eq!(registry.len(), 1);
    assert_eq!(take_child_process(&mut registry, "proc_1"), Some(7));
    assert_eq!(take_child_process(&mut registry, "proc_1"), None);
    assert!(!is_process_cancelled(&registry, "proc_1"));
    remove_task_entry(&mut registry, "proc_1");
    assert!(is_process_cancelled(&registry, "proc_1"));
    assert_eq!(registry.len(), 0);
}

#[test]
fn take_from_an_unknown_task_gives_nothing() {
    let mut registry: ProcessRegistry<u32> = ProcessRegistry::new();
    assert_eq!(take_child_process(&mut registry, "proc_4"), None);
    assert_eq!(registry.len(), 0);
}

#[test]
fn cancel_hands_out_the_live_process_once() {
    let mut registry: ProcessRegistry<u32> = ProcessRegistry::new();
    register_child_process(&mut registry, "proc_2", 41, "start", "shop");
    let first = cancel_command(&mut registry, "proc_2".to_string()).unwrap();
    assert_eq!(first.child, Some(41));
    assert_eq!(first.status, cancelled_event("start", "shop", "proc_2"));
    assert!(is_process_cancelled(&registry, "proc_2"));
    let second = cancel_command(&mut registry, "proc_2".to_string());
    assert_eq!(
        second.err(),
        Some(DdevError::CommandFailed(
            "Process proc_2 not found or already completed".to_string()
        ))
    );
}

#[test]
fn cancel_between_steps_finds_no_process() {
    let mut registry: ProcessRegistry<u32> = ProcessRegistry::new();
    create_task_entry(&mut registry, "proc_3", "change-php", "blog");
    let cancelled = cancel_command(&mut registry, "proc_3".to_string()).unwrap();
    assert_eq!(cancelled.child, None);
    assert_eq!(cancelled.status, cancelled_event("change-php", "blog", "proc_3"));
}

#[test]
fn registering_again_replaces_the_entry() {
    let mut registry: ProcessRegistry<u32> = ProcessRegistry::new();
    create_task_entry(&mut registry, "proc_1", "config", "shop");
    register_child_process(&mut registry, "proc_1", 5, "config", "shop");
    register_child_process(&mut registry, "proc_1", 6, "restart", "shop");
    assert_eq!(registry.len(), 1);
    let cancelled = cancel_command(&mut registry, "proc_1".to_string()).unwrap();
    assert_eq!(cancelled.child, Some(6));
    assert_eq!(cancelled.status.command, "restart");
}

#[test]
fn tasks_do_not_touch_each_other() {
    let mut registry: ProcessRegistry<u32> = ProcessRegistry::new();
    register_child_process(&mut registry, "proc_1", 11, "start", "one");
    register_child_process(&mut registry, "proc_2", 22, "start", "two");
    register_child_process(&mut registry, "proc_3", 33, "start", "three");
    create_task_entry(&mut registry, "proc_10", "config", "ten");
    assert_eq!(registry.len(), 4);
    let cancelled = cancel_command(&mut registry, "proc_2".to_string()).unwrap();
    assert_eq!(cancelled.child, Some(22));
    assert_eq!(cancelled.status.project, "two");
    assert_eq!(registry.len(), 3);
    assert!(!is_process_cancelled(&registry, "proc_1"));
    assert!(!is_process_cancelled(&registry, "proc_3"));
    assert!(!is_process_cancelled(&registry, "proc_10"));
    assert_eq!(take_child_process(&mut registry, "proc_1"), Some(11));
    assert_eq!(take_child_process(&mut registry, "proc_3"), Some(33));
    remove_task_entry(&mut registry, "proc_1");
    assert!(!is_process_cancelled(&registry, "proc_3"));
    assert!(is_process_cancelled(&registry, "proc_1"));
}

#[test]
fn identifiers_are_told_apart_by_every_character() {
    let mut registry: ProcessRegistry<u32> = ProcessRegistry::new();
    create_task_entry(&mut registry, "proc_1", "config", "shop");
    assert!(is_process_cancelled(&registry, "proc_10"));
    assert!(is_process_cancelled(&registry, "proc_"));
    assert!(is_process_cancelled(&registry, "Proc_1"));
    assert!(is_process_cancelled(&registry, ""));
}

#[test]
fn error_messages_name_the_kind_of_failure() {
    assert_eq!(
        DdevError::CommandFailed("boom".to_string()).message(),
        "DDEV command failed: boom"
    );
    assert_eq!(
        DdevError::ParseError("bad json".to_string()).message(),
        "Failed to parse DDEV output: bad json"
    );
    assert_eq!(
        DdevError::NotInstalled.message(),
        "DDEV is not installed or not in PATH"
    );
    assert_eq!(
        DdevError::IoError("denied".to_string()).message(),
        "IO error: denied"
    );
}
