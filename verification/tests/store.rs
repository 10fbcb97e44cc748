use local_memory_mcp::store::{next_remove_step, RemoveOutcome, RemoveStep, MAX_REMOVE_ATTEMPTS};
use local_memory_mcp::error::MemoryError;
use local_memory_mcp::store::{
    check_home_setting, check_resolved_home, collect_store_infos, has_bad_prefix,
    should_retry_remove, store_file_name, validate_name, HomeSource, StoreFileEntry,
    StoreSelection, SwitchAction, SwitchStep,
};

fn entry(file_name: &str, len: u64) -> StoreFileEntry {
    StoreFileEntry {
        file_name: file_name.to_string(),
        is_symlink: false,
        is_file: true,
        len,
        wal_len: None,
        shm_len: None,
    }
}

#[test]
fn test_validate_name_invalid() {
    assert!(validate_name("").is_err());
    assert!(validate_name("-bad").is_err());
    assert!(validate_name("_bad").is_err());
    assert!(validate_name(&"a".repeat(65)).is_err());
    assert!(validate_name("CON").is_err());
    assert!(validate_name("nul").is_err());
    assert!(validate_name("com1").is_err());
}

#[test]
fn store_names_accepted_and_rejected() {
    assert!(validate_name("default").is_ok());
    assert!(validate_name("project-alpha_2").is_ok());
    assert!(validate_name(&"a".repeat(64)).is_ok());
    assert!(validate_name("com10").is_ok());
    assert!(matches!(
        validate_name("../evil"),
        Err(MemoryError::InvalidName(n)) if n == "../evil"
    ));
    assert!(validate_name("a.b").is_err());
    assert!(validate_name("naïve").is_err());
    assert_eq!(store_file_name("work"), "work.db");
}

#[test]
fn test_env_var_relative_rejected() {
    let err = check_home_setting(Some("relative/path")).unwrap_err();
    assert!(matches!(err, MemoryError::InvalidPath(_)));
    assert_eq!(
        err.message(),
        "Invalid path: LOCAL_MEMORY_HOME must be absolute: relative/path"
    );
}

#[test]
fn home_setting_checks() {
    assert_eq!(check_home_setting(None).unwrap(), HomeSource::Default);
    assert_eq!(check_home_setting(Some("")).unwrap(), HomeSource::Default);
    assert_eq!(
        check_home_setting(Some("/home/u/.mem")).unwrap(),
        HomeSource::Configured
    );
    assert!(check_home_setting(Some("/home/../etc")).is_err());
    assert!(check_home_setting(Some("/home/u/..")).is_err());
    assert!(check_home_setting(Some("/home/u/..x")).is_ok());
    assert!(check_home_setting(Some("/proc/self")).is_err());
    assert!(check_resolved_home("/sys/kernel").is_err());
    assert!(check_resolved_home("/var/lib/mem").is_ok());
    assert!(has_bad_prefix("/dev/shm"));
    assert!(!has_bad_prefix("/devices"));
}

#[test]
fn active_store_is_pinned() {
    let mut sel: StoreSelection<u32> = StoreSelection::new();
    assert_eq!(sel.active_name(), None);
    assert!(matches!(sel.db(), Err(MemoryError::Disconnected)));
    assert!(sel.check_delete("default").is_ok());
    sel.opened("default", 7);
    assert_eq!(sel.active_name(), Some("default"));
    assert_eq!(sel.db().ok(), Some(&7));
    assert!(sel.is_active("default"));
    assert_eq!(sel.plan_switch("default").unwrap(), SwitchStep::Stay);
    assert_eq!(sel.plan_switch("work").unwrap(), SwitchStep::Reopen);
    assert!(matches!(
        sel.check_delete("default"),
        Err(MemoryError::ActiveStoreDeletion(n)) if n == "default"
    ));
    assert!(sel.check_delete("temp").is_ok());
    assert!(matches!(sel.plan_switch("../evil"), Err(MemoryError::InvalidName(_))));
    assert_eq!(sel.next_switch_action("default"), SwitchAction::Finished);
    assert_eq!(sel.next_switch_action("work"), SwitchAction::CloseActive);
    assert_eq!(sel.closed(), Some(7));
    assert_eq!(sel.next_switch_action("work"), SwitchAction::OpenTarget);
    assert_eq!(sel.active_name(), None);
    assert!(sel.db().is_err());
    assert_eq!(sel.closed(), None);
    assert_eq!(sel.plan_switch("default").unwrap(), SwitchStep::Reopen);
}

#[test]
fn removal_retry_decision() {
    assert!(should_retry_remove(true, None));
    assert!(should_retry_remove(false, Some(32)));
    assert!(!should_retry_remove(false, Some(2)));
    assert!(!should_retry_remove(false, None));
}

#[test]
fn store_listing_filters_sizes_and_sorts() {
    let mut work = entry("work.db", 100);
    work.wal_len = Some(20);
    work.shm_len = Some(3);
    let mut link = entry("evil.db", 1);
    link.is_symlink = true;
    let mut dir = entry("dir.db", 0);
    dir.is_file = false;
    let entries = vec![
        work,
        entry("default.db", 4096),
        entry("notes.txt", 5),
        link,
        dir,
        entry("work.db-wal", 20),
        entry("Alpha.db", 1),
    ];
    let infos = collect_store_infos(&entries);
    let names: Vec<&str> = infos.iter().map(|i| i.name.as_str()).collect();
    assert_eq!(names, vec!["Alpha", "default", "work"]);
    assert_eq!(infos[2].size_bytes, 123);
    assert_eq!(infos[1].size_bytes, 4096);
    let mut huge = entry("big.db", u64::MAX);
    huge.wal_len = Some(10);
    assert_eq!(collect_store_infos(&vec![huge])[0].size_bytes, u64::MAX);
}

#[test]
fn removal_loop_steps() {
    let busy = RemoveOutcome::Failed {
        permission_denied: true,
        raw_os_error: None,
    };
    let missing = RemoveOutcome::Failed {
        permission_denied: false,
        raw_os_error: Some(2),
    };
    assert_eq!(next_remove_step(1, RemoveOutcome::Removed), RemoveStep::Done);
    assert_eq!(next_remove_step(1, busy), RemoveStep::PauseAndRetry);
    assert_eq!(next_remove_step(2, busy), RemoveStep::PauseAndRetry);
    assert_eq!(next_remove_step(MAX_REMOVE_ATTEMPTS, busy), RemoveStep::GiveUp);
    assert_eq!(next_remove_step(1, missing), RemoveStep::GiveUp);
}
