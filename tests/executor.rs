use libmask::{
    child_search_path, collect_status, exit_code, haxe_exec, join, program_path, ExecError, Host,
    Platform, Probe, EXIT_FAILURE, EXIT_TERMINATED,
};

fn host(search_path: Option<&str>, platform: Platform) -> Host {
    Host {
        home: Some("/home/u".to_string()),
        search_path: search_path.map(|s| s.to_string()),
        platform,
    }
}

#[test]
fn join_inserts_one_separator() {
    assert_eq!(join("/a", "b", Platform::Posix), "/a/b");
    assert_eq!(join("/a/", "b", Platform::Posix), "/a/b");
    assert_eq!(join("", "b", Platform::Posix), "b");
    assert_eq!(join("C:\\a", "b", Platform::Windows), "C:\\a\\b");
}

#[test]
fn program_path_defaults_to_haxe() {
    let h = host(None, Platform::Posix);
    assert_eq!(program_path("/home/u/.haxe/4.3.7", &None, &h), "/home/u/.haxe/4.3.7/haxe");
    assert_eq!(
        program_path("/home/u/.haxe/4.3.7", &Some("haxelib".to_string()), &h),
        "/home/u/.haxe/4.3.7/haxelib"
    );
}

#[test]
fn search_path_prefixed_on_posix() {
    let h = host(Some("/usr/bin:/bin"), Platform::Posix);
    assert_eq!(child_search_path("/home/u/.haxe/4.3.7", &h), "/home/u/.haxe/4.3.7:/usr/bin:/bin");
}

#[test]
fn search_path_prefixed_on_windows() {
    let h = host(Some("C:\\Windows;C:\\bin"), Platform::Windows);
    assert_eq!(child_search_path("C:\\haxe\\4.3.7", &h), "C:\\haxe\\4.3.7;C:\\Windows;C:\\bin");
}

#[test]
fn search_path_unset() {
    let h = host(None, Platform::Posix);
    assert_eq!(child_search_path("/home/u/.haxe/4.3.7", &h), "/home/u/.haxe/4.3.7:");
}

#[test]
fn search_path_keeps_entries_in_order() {
    let h = host(Some("/a:/b::/c"), Platform::Posix);
    let path = child_search_path("/home/u/.haxe/4.3.7", &h);
    let entries: Vec<&str> = path.split(':').collect();
    assert_eq!(entries, vec!["/home/u/.haxe/4.3.7", "/a", "/b", "", "/c"]);
}

#[test]
fn exec_present_program_is_planned() {
    let h = host(Some("/usr/bin"), Platform::Posix);
    let r = haxe_exec(
        vec!["--version".to_string()],
        "/home/u/.haxe/4.3.7",
        Some("haxe".to_string()),
        Probe::Present,
        &h,
    )
    .unwrap();
    assert_eq!(r.program, "/home/u/.haxe/4.3.7/haxe");
    assert_eq!(r.args, vec!["--version".to_string()]);
    assert_eq!(r.search_path, "/home/u/.haxe/4.3.7:/usr/bin");
}

#[test]
fn exec_missing_program_is_not_spawned() {
    let h = host(Some("/usr/bin"), Platform::Posix);
    let r = haxe_exec(
        vec!["--version".to_string()],
        "/home/u/.haxe/4.3.7",
        Some("nope".to_string()),
        Probe::Absent,
        &h,
    );
    assert_eq!(
        r,
        Err(ExecError::ExecutableNotFound { path: "/home/u/.haxe/4.3.7/nope".to_string() })
    );
}

#[test]
fn exec_probe_failure() {
    let h = host(None, Platform::Posix);
    let r = haxe_exec(Vec::new(), "/i", None, Probe::Failed("denied".to_string()), &h);
    assert_eq!(r, Err(ExecError::ExistenceCheckFailed("denied".to_string())));
}

#[test]
fn status_of_finished_child() {
    assert_eq!(collect_status(Ok(Some(0))), Ok(0));
    assert_eq!(collect_status(Ok(Some(3))), Ok(3));
}

#[test]
fn status_of_signalled_child() {
    assert_eq!(collect_status(Ok(None)), Err(ExecError::Terminated));
}

#[test]
fn status_of_unstartable_child() {
    assert_eq!(
        collect_status(Err("exec format error".to_string())),
        Err(ExecError::SpawnFailed("exec format error".to_string()))
    );
}

#[test]
fn exit_codes_of_launches() {
    assert_eq!(exit_code(&Ok(0)), 0);
    assert_eq!(exit_code(&Ok(7)), 7);
    assert_eq!(exit_code(&Err(ExecError::Terminated)), EXIT_TERMINATED);
    assert_eq!(EXIT_TERMINATED, 143);
    assert_eq!(exit_code(&Err(ExecError::SpawnFailed("x".to_string()))), EXIT_FAILURE);
    assert_eq!(
        exit_code(&Err(ExecError::ExecutableNotFound { path: "p".to_string() })),
        EXIT_FAILURE
    );
    assert_eq!(exit_code(&Err(ExecError::ExistenceCheckFailed("e".to_string()))), EXIT_FAILURE);
}
