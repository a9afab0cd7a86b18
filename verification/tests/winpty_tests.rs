use pty_core::error::PtyError;
use pty_core::winpty::{
    winpty_start_process, winpty_start_request, winpty_start_result, WinptyRegistry,
    SPAWN_FLAG_AUTO_SHUTDOWN,
};

/// An unresolvable executable fails, before anything else is planned, with
/// a file-not-found error that names the requested file.
#[test]
fn start_request_unresolved() {
    let r = winpty_start_request(
        &"cmd.exe".to_string(),
        None,
        &"cmd.exe /c dir".to_string(),
        &vec![],
        &"C:\\".to_string(),
        80,
        24,
        false,
    );
    let e = r.unwrap_err();
    assert_eq!(e, PtyError::FileNotFound("cmd.exe".to_string()));
    assert_eq!(e.message(), "File not found: cmd.exe");
}

/// A resolved executable yields the full agent plan: spawn configuration
/// with auto-shutdown, the environment block, the initial size, and the
/// debug toggle.
#[test]
fn start_request_fields() {
    let env = vec![("A".to_string(), "B".to_string())];
    let q = winpty_start_request(
        &"cmd.exe".to_string(),
        Some("C:\\tools\\cmd.exe".to_string()),
        &"cmd.exe /c dir".to_string(),
        &env,
        &"C:\\work".to_string(),
        120,
        40,
        true,
    )
    .unwrap();
    assert_eq!(q.file, "C:\\tools\\cmd.exe");
    assert_eq!(q.command_line, "cmd.exe /c dir");
    assert_eq!(q.cwd, "C:\\work");
    assert_eq!(q.env_block, "A=B\0\0");
    assert_eq!((q.cols, q.rows), (120, 40));
    assert_eq!(q.debug_variable, "WINPTYDBG");
    assert!(q.debug);
    assert_eq!(q.agent_config_flags, 0);
    assert_eq!(q.spawn_flags, SPAWN_FLAG_AUTO_SHUTDOWN);
}

/// The path search really resolves an existing executable and really
/// refuses a nonexistent one.
#[test]
fn start_process_resolves_on_path() {
    let ok = winpty_start_process(
        &"sh".to_string(),
        &"sh -c true".to_string(),
        &vec![],
        &String::new(),
        80,
        24,
        false,
    );
    let q = ok.expect("sh must resolve on the search path");
    assert!(q.file.ends_with("/sh"));
    assert!(q.file.starts_with('/'));

    let missing = winpty_start_process(
        &"no-such-binary-heptagon-quux".to_string(),
        &String::new(),
        &vec![],
        &String::new(),
        80,
        24,
        false,
    );
    assert_eq!(
        missing.unwrap_err(),
        PtyError::FileNotFound("no-such-binary-heptagon-quux".to_string())
    );
}

/// The start result keys the session by the agent's process id.
#[test]
fn start_result_fields() {
    let r = winpty_start_result(555, 777, 12345, "in-name".to_string(), "out-name".to_string());
    assert_eq!(r.pid, 555);
    assert_eq!(r.pty, 555);
    assert_eq!(r.fd, -1);
    assert_eq!(r.inner_pid, 777);
    assert_eq!(r.inner_pid_handle, 12345);
    assert_eq!(r.conin, "in-name");
    assert_eq!(r.conout, "out-name");
}

/// Registry lifecycle: registered agents answer resize and process-list
/// lookups; a kill removes the entry; later operations and a second kill
/// report not-found.
#[test]
fn registry_lifecycle() {
    let mut reg = WinptyRegistry::new();
    assert_eq!(reg.agent_count(), 0);
    reg.register_agent(555, 9001);
    assert!(reg.contains(555));
    assert_eq!(reg.agent_count(), 1);

    let rs = reg.resize_request(555, 100, 30).unwrap();
    assert_eq!((rs.agent, rs.cols, rs.rows), (9001, 100, 30));
    assert_eq!(reg.process_list_request(555).unwrap(), 9001);

    assert!(reg.kill(555).is_ok());
    assert_eq!(reg.kill(555).unwrap_err(), PtyError::NotFound);
    assert_eq!(reg.resize_request(555, 100, 30).unwrap_err(), PtyError::NotFound);
    assert_eq!(reg.process_list_request(555).unwrap_err(), PtyError::NotFound);
    assert_eq!(reg.agent_count(), 0);
}

/// A resize outside the signed 16-bit range is refused before any lookup
/// or agent call.
#[test]
fn resize_coercion_before_lookup() {
    let mut reg = WinptyRegistry::new();
    reg.register_agent(1, 2);
    assert_eq!(reg.resize_request(1, 32768, 24).unwrap_err(), PtyError::Coercion(32768));
    assert_eq!(reg.resize_request(1, 80, -70000).unwrap_err(), PtyError::Coercion(-70000));
    // Even for an id that is not registered, the coercion error comes first.
    assert_eq!(reg.resize_request(99, 32768, 24).unwrap_err(), PtyError::Coercion(32768));
}
