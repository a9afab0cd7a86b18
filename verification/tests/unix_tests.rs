use nix::sys::termios::{tcgetattr, tcsetattr, InputFlags, SetArg};
use pty_core::error::{PtyError, ResizeCause};
use pty_core::unix::{
    cmdline_path_decision, decode_wait_status, proc_cmdline_path, pty_fork_plan, pty_open,
    pty_process_path, pty_resize_request, resize_error_from_errno, waiter_step, ChildStep,
    WaitEvent, WaiterState,
};

/// A PTY pair opens for an ordinary size: two distinct descriptors, both
/// made non-blocking, and a resolved slave device path.
#[test]
fn open_succeeds_for_valid_size() {
    let p = pty_open(80, 24).expect("openpty must succeed");
    assert!(p.master >= 0);
    assert!(p.slave >= 0);
    assert_ne!(p.master, p.slave);
    assert!(p.pty.starts_with("/dev/"));
    let master_flags = nix::fcntl::fcntl(p.master, nix::fcntl::FcntlArg::F_GETFL).unwrap();
    assert!(master_flags & nix::libc::O_NONBLOCK != 0);
    let slave_flags = nix::fcntl::fcntl(p.slave, nix::fcntl::FcntlArg::F_GETFL).unwrap();
    assert!(slave_flags & nix::libc::O_NONBLOCK != 0);
    let _ = nix::unistd::close(p.master);
    let _ = nix::unistd::close(p.slave);
}

/// The largest size the request range admits still opens.
#[test]
fn open_succeeds_for_largest_size() {
    let p = pty_open(32767, 32767).expect("openpty must succeed");
    assert!(p.master >= 0 && p.slave >= 0);
    let _ = nix::unistd::close(p.master);
    let _ = nix::unistd::close(p.slave);
}

/// The fork plan carries the attributes, the NUL-terminated argv and envp,
/// and no directory change or privilege drop unless asked for.
#[test]
fn fork_plan_basic() {
    let plan = pty_fork_plan(
        &"sh".to_string(),
        &vec!["-c".to_string(), "exit 3".to_string()],
        &vec!["A=B".to_string()],
        &String::new(),
        80,
        24,
        -1,
        -1,
        true,
    );
    assert_eq!(plan.attrs.cols, 80);
    assert_eq!(plan.attrs.rows, 24);
    assert!(plan.attrs.input_flags & pty_core::attrs::IUTF8 != 0);
    assert_eq!(plan.argv.len(), 3);
    assert_eq!(plan.argv[0], b"sh\0");
    assert_eq!(plan.argv[1], b"-c\0");
    assert_eq!(plan.argv[2], b"exit 3\0");
    assert_eq!(plan.envp, vec![b"A=B\0".to_vec()]);
    assert!(plan.child_steps.is_empty());
}

/// A nonempty working directory and nonnegative ids show up as child
/// steps, in order: the directory change first, then the group-id drop,
/// then the user-id drop — group strictly before user.
#[test]
fn fork_plan_cwd_and_privileges() {
    let plan = pty_fork_plan(
        &"ls".to_string(),
        &vec![],
        &vec![],
        &"/tmp".to_string(),
        10,
        10,
        1000,
        1001,
        false,
    );
    assert_eq!(
        plan.child_steps,
        vec![
            ChildStep::ChangeDirectory(b"/tmp\0".to_vec()),
            ChildStep::SetGroupId(1001),
            ChildStep::SetUserId(1000),
        ]
    );
    assert!(plan.attrs.input_flags & pty_core::attrs::IUTF8 == 0);

    let plan = pty_fork_plan(
        &"ls".to_string(),
        &vec![],
        &vec![],
        &String::new(),
        10,
        10,
        -1,
        1001,
        false,
    );
    assert!(plan.child_steps.is_empty());

    let plan = pty_fork_plan(
        &"ls".to_string(),
        &vec![],
        &vec![],
        &String::new(),
        10,
        10,
        7,
        8,
        false,
    );
    assert_eq!(
        plan.child_steps,
        vec![ChildStep::SetGroupId(8), ChildStep::SetUserId(7)]
    );
}

/// The wait-status decoding agrees with the C library's own macros on
/// exited, signaled and continued-shape statuses.
#[test]
fn decode_agrees_with_libc() {
    for status in [
        0, 0x0100, 0x0300, 0xff00, 9, 15, 0x7f, 0x017f, 0x8b7f, 0x0200i32,
    ] {
        let (code, signal) = decode_wait_status(status);
        let expect_code = if nix::libc::WIFEXITED(status) {
            nix::libc::WEXITSTATUS(status) as u32
        } else {
            0
        };
        let expect_signal = if nix::libc::WIFSIGNALED(status) {
            nix::libc::WTERMSIG(status) as u32
        } else {
            0
        };
        assert_eq!((code, signal), (expect_code, expect_signal), "status {status:#x}");
    }
}

/// A child that exited with code 3 is decoded as (3, 0); one killed by
/// signal 9 as (0, 9).
#[test]
fn decode_exact_values() {
    assert_eq!(decode_wait_status(0x0300), (3, 0));
    assert_eq!(decode_wait_status(9), (0, 9));
    assert_eq!(decode_wait_status(0), (0, 0));
}

/// Driving the waiter: interrupted waits retry, the reaped status delivers
/// exactly one notification, and nothing is ever delivered again — a
/// failed exec surfaces as that one nonzero-code notification.
#[test]
fn waiter_delivers_exactly_once() {
    let st = WaiterState::Waiting;
    let (st, n) = waiter_step(st, WaitEvent::Interrupted);
    assert_eq!(n, None);
    assert_eq!(st, WaiterState::Waiting);
    // The child image exited with code 1 after a failed exec.
    let (st, n) = waiter_step(st, WaitEvent::Status(0x0100));
    assert_eq!(n, Some((1, 0)));
    assert_eq!(st, WaiterState::Notified);
    let (st, n) = waiter_step(st, WaitEvent::Status(0));
    assert_eq!(n, None);
    let (_, n) = waiter_step(st, WaitEvent::NoChild);
    assert_eq!(n, None);
}

/// A wait that finds no child at all delivers the benign (0, 0) once.
#[test]
fn waiter_no_child_is_benign() {
    let (st, n) = waiter_step(WaiterState::Waiting, WaitEvent::NoChild);
    assert_eq!(n, Some((0, 0)));
    let (_, n) = waiter_step(st, WaitEvent::NoChild);
    assert_eq!(n, None);
}

/// The built input flags round-trip through a live terminal: applied with
/// the terminal-attribute set primitive and read back with the query
/// primitive, the UTF-8 input bit is present exactly when it was
/// requested.
#[test]
fn utf8_flag_round_trips_through_terminal() {
    let p = pty_open(80, 24).unwrap();

    let on = pty_core::attrs::TerminalAttributes::new(80, 24, true);
    let mut t = tcgetattr(p.slave).unwrap();
    t.input_flags = InputFlags::from_bits_truncate(on.input_flags);
    tcsetattr(p.slave, SetArg::TCSANOW, &t).unwrap();
    assert!(tcgetattr(p.slave).unwrap().input_flags.contains(InputFlags::IUTF8));

    let off = pty_core::attrs::TerminalAttributes::new(80, 24, false);
    t.input_flags = InputFlags::from_bits_truncate(off.input_flags);
    tcsetattr(p.slave, SetArg::TCSANOW, &t).unwrap();
    assert!(!tcgetattr(p.slave).unwrap().input_flags.contains(InputFlags::IUTF8));

    let _ = nix::unistd::close(p.master);
    let _ = nix::unistd::close(p.slave);
}

/// Setting an invalid descriptor non-blocking surfaces the OS error as an
/// allocation error.
#[test]
fn nonblock_invalid_descriptor() {
    let r = pty_core::unix::pty_nonblock(-1);
    let e = r.unwrap_err();
    assert!(matches!(e, PtyError::Allocation(_)));
    assert!(e.message().starts_with("failed to allocate terminal resources, errno "));
}

/// A resize outside the signed 16-bit range is refused before any OS call;
/// one inside it passes through as the unsigned cell counts.
#[test]
fn resize_request_bounds() {
    assert_eq!(pty_resize_request(132, 50), Ok((132, 50)));
    assert_eq!(pty_resize_request(40000, 50), Err(PtyError::Coercion(40000)));
    assert_eq!(pty_resize_request(132, 65536), Err(PtyError::Coercion(65536)));
    assert_eq!(pty_resize_request(-1, 50), Err(PtyError::Coercion(-1)));
}

/// The resize error codes map one-to-one from the OS error numbers.
#[test]
fn resize_errno_mapping() {
    assert_eq!(
        resize_error_from_errno(nix::libc::EBADF),
        PtyError::Resize(ResizeCause::BadDescriptor)
    );
    assert_eq!(
        resize_error_from_errno(nix::libc::EFAULT),
        PtyError::Resize(ResizeCause::BadAddress)
    );
    assert_eq!(
        resize_error_from_errno(nix::libc::EINVAL),
        PtyError::Resize(ResizeCause::InvalidArgument)
    );
    assert_eq!(
        resize_error_from_errno(nix::libc::ENOTTY),
        PtyError::Resize(ResizeCause::NotTerminal)
    );
    assert_eq!(resize_error_from_errno(77), PtyError::Resize(ResizeCause::Other(77)));
}

/// The `/proc` command-line path is formatted from the process group id.
#[test]
fn proc_path_format() {
    assert_eq!(proc_cmdline_path(1234), "/proc/1234/cmdline");
    assert_eq!(proc_cmdline_path(1), "/proc/1/cmdline");
    assert_eq!(proc_cmdline_path(0), "/proc/0/cmdline");
    assert_eq!(proc_cmdline_path(4294967295), "/proc/4294967295/cmdline");
}

/// The decision behind the process-name lookup, for every value the
/// foreground-process-group query can return: no group or a group id that
/// names no process yields an absent result, a real group id yields
/// exactly its `/proc` command-line path.
#[test]
fn cmdline_path_decision_per_value() {
    assert_eq!(cmdline_path_decision(None), None);
    assert_eq!(cmdline_path_decision(Some(0)), None);
    assert_eq!(cmdline_path_decision(Some(-7)), None);
    assert_eq!(cmdline_path_decision(Some(1234)), Some("/proc/1234/cmdline".to_string()));
    assert_eq!(cmdline_path_decision(Some(1)), Some("/proc/1/cmdline".to_string()));
}

/// The process-name lookup is absent — never an error — for an empty
/// terminal path or a descriptor with no foreground process group.
#[test]
fn process_path_absent_cases() {
    assert_eq!(pty_process_path(0, &String::new()), None);
    // An invalid descriptor has no foreground process group.
    assert_eq!(pty_process_path(-1, &"/dev/pts/0".to_string()), None);
    // A fresh master is not the controlling terminal of any process
    // group: the lookup stays advisory and never fails loudly.
    let p = pty_open(80, 24).unwrap();
    let looked = pty_process_path(p.master, &p.pty);
    if let Some(path) = looked {
        assert!(path.starts_with("/proc/"));
        assert!(path.ends_with("/cmdline"));
    }
    let _ = nix::unistd::close(p.master);
    let _ = nix::unistd::close(p.slave);
}
