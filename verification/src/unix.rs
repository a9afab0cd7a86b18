//! The Unix PTY engine: opening a master/slave pair, planning the
//! fork/exec of a child attached to it, decoding the reaped wait status,
//! window resizing, and the advisory foreground-process lookup.
//!
//! The fork itself, the exec and the blocking wait cannot be called from
//! here (a fork returns twice and the wait blocks); this module computes
//! every decision those steps take, and the host side merely carries them
//! out.

use vstd::prelude::*;
use vstd::string::*;

use crate::attrs::TerminalAttributes;
use crate::error::{PtyError, ResizeCause};
use crate::numfmt::spec_dec;
use crate::numfmt::u32_to_string;
use crate::util::coerce_dim;
use vstd::utf8::encode_utf8;

verus! {

/// Status-flag bit for non-blocking descriptors.
pub const O_NONBLOCK: i32 = 0x800;

pub const EBADF: i32 = 9;

pub const EFAULT: i32 = 14;

pub const EINVAL: i32 = 22;

pub const ENOTTY: i32 = 25;

/// A freshly opened PTY pair: both descriptors non-blocking, and the slave
/// device path.
#[derive(Debug)]
pub struct IUnixOpenProcess {
    pub master: i32,
    pub slave: i32,
    pub pty: String,
}

/// A forked session as the caller sees it: the master descriptor, the
/// child's process id, and the slave device path.
#[derive(Debug)]
pub struct IUnixProcess {
    pub fd: i32,
    pub pid: i32,
    pub pty: String,
}

/// Relies on nix::pty::openpty: allocates a connected master/slave
/// pseudo-terminal pair with the given window size.  On success both
/// descriptors are open, hence nonnegative and distinct; on failure the OS
/// error code is returned.
#[verifier::external_body]
fn sys_openpty(cols: u16, rows: u16) -> (r: Result<(i32, i32), i32>)
    ensures
        r matches Ok(fds) ==> fds.0 >= 0 && fds.1 >= 0 && fds.0 != fds.1,
{
    let ws = nix::pty::Winsize { ws_row: rows, ws_col: cols, ws_xpixel: 0, ws_ypixel: 0 };
    match nix::pty::openpty(Some(&ws), None::<&nix::sys::termios::Termios>) {
        Ok(p) => Ok((p.master, p.slave)),
        Err(e) => Err(e as i32),
    }
}

/// Relies on nix::fcntl::fcntl with F_GETFL: returns the descriptor's
/// status flags, or the OS error code.
#[verifier::external_body]
fn sys_get_status_flags(fd: i32) -> (r: Result<i32, i32>) {
    match nix::fcntl::fcntl(fd, nix::fcntl::FcntlArg::F_GETFL) {
        Ok(flags) => Ok(flags),
        Err(e) => Err(e as i32),
    }
}

/// Relies on nix::fcntl::fcntl with F_SETFL: sets the descriptor's status
/// flags to the known bits of `flags` (O_NONBLOCK among them), or returns
/// the OS error code.
#[verifier::external_body]
fn sys_set_status_flags(fd: i32, flags: i32) -> (r: Result<(), i32>) {
    match nix::fcntl::fcntl(
        fd,
        nix::fcntl::FcntlArg::F_SETFL(nix::fcntl::OFlag::from_bits_truncate(flags)),
    ) {
        Ok(_) => Ok(()),
        Err(e) => Err(e as i32),
    }
}

/// Relies on nix::unistd::ttyname: the path of the terminal device behind
/// the descriptor, or None when the OS refuses or the path is not UTF-8.
#[verifier::external_body]
fn sys_ttyname(fd: i32) -> (r: Option<String>) {
    match nix::unistd::ttyname(fd) {
        Ok(p) => match p.into_os_string().into_string() {
            Ok(s) => Some(s),
            Err(_) => None,
        },
        Err(_) => None,
    }
}

/// Relies on nix::unistd::tcgetpgrp: the foreground process group of the
/// terminal behind the descriptor, or None when the OS refuses.
#[verifier::external_body]
fn sys_tcgetpgrp(fd: i32) -> (r: Option<i32>) {
    match nix::unistd::tcgetpgrp(fd) {
        Ok(pgrp) => Some(pgrp.as_raw()),
        Err(_) => None,
    }
}

/// The status-flag word a descriptor is switched to: the word it had, with
/// O_NONBLOCK added and every other flag preserved.
pub fn nonblock_flags(flags: i32) -> (r: i32)
    ensures
        r == flags | O_NONBLOCK,
{
    flags | O_NONBLOCK
}

/// Sets a descriptor non-blocking: fetches its status flags and writes
/// them back through `nonblock_flags`, whose contract fixes the word
/// handed to the OS.  Any failure carries the OS error code as an
/// allocation error.
pub fn pty_nonblock(fd: i32) -> (r: Result<(), PtyError>)
    ensures
        r matches Err(e) ==> e matches PtyError::Allocation(_),
{
    match sys_get_status_flags(fd) {
        Err(e) => Err(PtyError::Allocation(e)),
        Ok(flags) => match sys_set_status_flags(fd, nonblock_flags(flags)) {
            Err(e) => Err(PtyError::Allocation(e)),
            Ok(_) => Ok(()),
        },
    }
}

/// Opens a PTY pair sized to (`cols`, `rows`), sets both descriptors
/// non-blocking, and resolves the slave's device path.  Every failure is
/// an allocation error; on success the two descriptors are distinct open
/// descriptors.
pub fn pty_open(cols: u16, rows: u16) -> (r: Result<IUnixOpenProcess, PtyError>)
    ensures
        r matches Ok(p) ==> p.master >= 0 && p.slave >= 0 && p.master != p.slave,
        r matches Err(e) ==> e matches PtyError::Allocation(_),
{
    let (master, slave) = match sys_openpty(cols, rows) {
        Ok(fds) => fds,
        Err(e) => {
            return Err(PtyError::Allocation(e));
        },
    };
    match pty_nonblock(master) {
        Err(e) => {
            return Err(e);
        },
        Ok(_) => {},
    }
    match pty_nonblock(slave) {
        Err(e) => {
            return Err(e);
        },
        Ok(_) => {},
    }
    let pty = match sys_ttyname(slave) {
        Some(name) => name,
        None => {
            return Err(PtyError::Allocation(0));
        },
    };
    Ok(IUnixOpenProcess { master, slave, pty })
}

/// The bytes of a C string: the UTF-8 encoding of the characters, closed
/// by a NUL terminator.
pub open spec fn spec_cstring(s: Seq<char>) -> Seq<u8> {
    encode_utf8(s).push(0u8)
}

/// No interior NUL: the encoded bytes contain no zero, so the string can
/// become a C string unchanged.
pub open spec fn nul_free(s: Seq<char>) -> bool {
    forall|i: int| 0 <= i < encode_utf8(s).len() ==> encode_utf8(s)[i] != 0u8
}

fn cstring_bytes(s: &String) -> (r: Vec<u8>)
    ensures
        r@ == spec_cstring(s@),
{
    let mut v = s.as_str().as_bytes_vec();
    v.push(0u8);
    v
}

/// One setup step the child performs after the fork and before exec.  The
/// plan lists the steps in the exact order the child must run them.
#[derive(Debug, PartialEq, Eq)]
pub enum ChildStep {
    /// Change to this directory (a NUL-terminated C string), terminating
    /// the child on failure.
    ChangeDirectory(Vec<u8>),
    /// Drop to this group id, terminating the child on failure.  Always
    /// ordered before the user-id drop: dropping the user id first would
    /// remove the permission to drop the group id.
    SetGroupId(u32),
    /// Drop to this user id, terminating the child on failure.
    SetUserId(u32),
}

/// How many child steps a plan has: one directory change when `cwd` is
/// nonempty, then the two id drops when both ids are nonnegative.
pub open spec fn spec_child_step_count(cwd: Seq<char>, uid: i32, gid: i32) -> int {
    (if cwd.len() == 0 {
        0int
    } else {
        1int
    }) + (if uid >= 0 && gid >= 0 {
        2int
    } else {
        0int
    })
}

/// Everything the fork/exec dance needs, computed before the fork: the
/// terminal attributes, the NUL-terminated argv and envp byte vectors, and
/// the child's setup steps in the order they must run.
#[derive(Debug)]
pub struct ForkPlan {
    pub attrs: TerminalAttributes,
    pub argv: Vec<Vec<u8>>,
    pub envp: Vec<Vec<u8>>,
    pub child_steps: Vec<ChildStep>,
}

/// Plans a fork: terminal attributes from the window size and UTF-8 flag;
/// argv as `file` followed by `args`, each a NUL-terminated C string; envp
/// from `env` likewise; and the child's setup steps in order — a directory
/// change exactly when `cwd` is nonempty, then, exactly when both `uid`
/// and `gid` are nonnegative, the group-id drop followed by the user-id
/// drop.
pub fn pty_fork_plan(
    file: &String,
    args: &Vec<String>,
    env: &Vec<String>,
    cwd: &String,
    cols: u16,
    rows: u16,
    uid: i32,
    gid: i32,
    utf8: bool,
) -> (r: ForkPlan)
    requires
        nul_free(file@),
        forall|i: int| 0 <= i < args@.len() ==> nul_free(args@[i]@),
        forall|i: int| 0 <= i < env@.len() ==> nul_free(env@[i]@),
        nul_free(cwd@),
    ensures
        r.attrs.is_built_from(cols, rows, utf8),
        r.argv@.len() == args@.len() + 1,
        r.argv@[0]@ == spec_cstring(file@),
        forall|i: int| 0 <= i < args@.len() ==> r.argv@[i + 1]@ == spec_cstring(args@[i]@),
        r.envp@.len() == env@.len(),
        forall|i: int| 0 <= i < env@.len() ==> r.envp@[i]@ == spec_cstring(env@[i]@),
        r.child_steps@.len() == spec_child_step_count(cwd@, uid, gid),
        cwd@.len() > 0 ==> (r.child_steps@[0] matches ChildStep::ChangeDirectory(d) && d@
            == spec_cstring(cwd@)),
        uid >= 0 && gid >= 0 ==> {
            let base = if cwd@.len() == 0 {
                0int
            } else {
                1int
            };
            &&& r.child_steps@[base] == ChildStep::SetGroupId(gid as u32)
            &&& r.child_steps@[base + 1] == ChildStep::SetUserId(uid as u32)
        },
{
    let attrs = TerminalAttributes::new(cols, rows, utf8);
    let mut argv: Vec<Vec<u8>> = Vec::new();
    argv.push(cstring_bytes(file));
    let mut i: usize = 0;
    while i < args.len()
        invariant
            i <= args@.len(),
            argv@.len() == i + 1,
            argv@[0]@ == spec_cstring(file@),
            forall|j: int| 0 <= j < i ==> argv@[j + 1]@ == spec_cstring(args@[j]@),
        decreases args@.len() - i,
    {
        argv.push(cstring_bytes(&args[i]));
        i = i + 1;
    }
    let mut envp: Vec<Vec<u8>> = Vec::new();
    let mut k: usize = 0;
    while k < env.len()
        invariant
            k <= env@.len(),
            envp@.len() == k,
            forall|j: int| 0 <= j < k ==> envp@[j]@ == spec_cstring(env@[j]@),
        decreases env@.len() - k,
    {
        envp.push(cstring_bytes(&env[k]));
        k = k + 1;
    }
    let mut child_steps: Vec<ChildStep> = Vec::new();
    if cwd.as_str().unicode_len() != 0 {
        child_steps.push(ChildStep::ChangeDirectory(cstring_bytes(cwd)));
    }
    if uid >= 0 && gid >= 0 {
        child_steps.push(ChildStep::SetGroupId(gid as u32));
        child_steps.push(ChildStep::SetUserId(uid as u32));
    }
    ForkPlan { attrs, argv, envp, child_steps }
}

/// Normal termination: the low seven status bits are clear.
pub open spec fn spec_wifexited(status: i32) -> bool {
    status & 0x7f == 0
}

/// The exit code of a normally terminated child: the next eight bits.
pub open spec fn spec_wexitstatus(status: i32) -> i32 {
    (status >> 8) & 0xff
}

/// Termination by signal: the low seven bits name a signal, neither the
/// exited pattern (zero) nor the stopped pattern (all ones).
pub open spec fn spec_wifsignaled(status: i32) -> bool {
    1 <= (status & 0x7f) <= 126
}

/// The terminating signal's number: the low seven bits.
pub open spec fn spec_wtermsig(status: i32) -> i32 {
    status & 0x7f
}

/// What a reaped status turns into: the exit code when the child exited
/// normally, else zero; the signal number when it was signaled, else zero.
pub open spec fn spec_wait_notification(status: i32) -> (u32, u32) {
    (
        if spec_wifexited(status) {
            spec_wexitstatus(status) as u32
        } else {
            0u32
        },
        if spec_wifsignaled(status) {
            spec_wtermsig(status) as u32
        } else {
            0u32
        },
    )
}

/// Decodes a raw wait status into the (exit code, signal) pair delivered
/// to the exit notifier, as the C library lays the status out on Linux.
pub fn decode_wait_status(status: i32) -> (r: (u32, u32))
    ensures
        r == spec_wait_notification(status),
{
    proof {
        assert(0 <= (status & 0x7f) < 128) by (bit_vector);
        assert(0 <= ((status >> 8) & 0xff) < 256) by (bit_vector);
    }
    let low: i32 = status & 0x7f;
    let code: i32 = (status >> 8) & 0xff;
    let exit_part: u32 = if low == 0 {
        code as u32
    } else {
        0
    };
    let signal_part: u32 = if 1 <= low && low <= 126 {
        low as u32
    } else {
        0
    };
    (exit_part, signal_part)
}

/// What one blocking wait on the child produced.
#[derive(Clone, Copy, Debug, PartialEq, Eq, Structural)]
pub enum WaitEvent {
    /// The child was reaped with this raw status.
    Status(i32),
    /// The wait was interrupted by a signal (EINTR); retry transparently.
    Interrupted,
    /// The child does not exist (ECHILD); treat as a benign (0, 0) exit.
    NoChild,
}

/// Whether the background waiter has already delivered its notification.
#[derive(Clone, Copy, Debug, PartialEq, Eq, Structural)]
pub enum WaiterState {
    Waiting,
    Notified,
}

/// One step of the background waiter: the next state, and the notification
/// to deliver now, if any.
pub open spec fn spec_waiter_step(st: WaiterState, ev: WaitEvent) -> (WaiterState, Option<
    (u32, u32),
>) {
    match st {
        WaiterState::Notified => (WaiterState::Notified, None),
        WaiterState::Waiting => match ev {
            WaitEvent::Interrupted => (WaiterState::Waiting, None),
            WaitEvent::NoChild => (WaiterState::Notified, Some((0u32, 0u32))),
            WaitEvent::Status(s) => (WaiterState::Notified, Some(spec_wait_notification(s))),
        },
    }
}

/// Drives the background waiter one step: an interrupted wait retries, a
/// missing child counts as a benign (0, 0) exit, a reaped status is
/// decoded and delivered; once notified, nothing is ever delivered again.
pub fn waiter_step(st: WaiterState, ev: WaitEvent) -> (r: (WaiterState, Option<(u32, u32)>))
    ensures
        r == spec_waiter_step(st, ev),
{
    match st {
        WaiterState::Notified => (WaiterState::Notified, None),
        WaiterState::Waiting => match ev {
            WaitEvent::Interrupted => (WaiterState::Waiting, None),
            WaitEvent::NoChild => (WaiterState::Notified, Some((0u32, 0u32))),
            WaitEvent::Status(s) => (WaiterState::Notified, Some(decode_wait_status(s))),
        },
    }
}

/// The waiter run over a whole event sequence from the initial state: the
/// final state and how many notifications were delivered along the way.
pub open spec fn spec_waiter_run(events: Seq<WaitEvent>) -> (WaiterState, nat)
    decreases events.len(),
{
    if events.len() == 0 {
        (WaiterState::Waiting, 0)
    } else {
        let prev = spec_waiter_run(events.drop_last());
        let step = spec_waiter_step(prev.0, events.last());
        (
            step.0,
            prev.1 + if step.1 is Some {
                1nat
            } else {
                0nat
            },
        )
    }
}

/// However the wait loop is driven, at most one exit notification is ever
/// delivered, and exactly one has been delivered once the waiter reports
/// itself notified.
pub proof fn law_single_notification(events: Seq<WaitEvent>)
    ensures
        spec_waiter_run(events).1 <= 1,
        spec_waiter_run(events).1 == 1 <==> spec_waiter_run(events).0 is Notified,
    decreases events.len(),
{
    if events.len() > 0 {
        law_single_notification(events.drop_last());
    }
}

/// Once any wait comes back with something other than an interruption — a
/// reaped status, or no child at all — the notification has been
/// delivered: together with the at-most-once law, the waiter delivers
/// exactly one notification for every child that terminates.
pub proof fn law_notification_delivered(events: Seq<WaitEvent>)
    requires
        exists|i: int| 0 <= i < events.len() && !((#[trigger] events[i]) is Interrupted),
    ensures
        spec_waiter_run(events).0 is Notified,
        spec_waiter_run(events).1 == 1,
    decreases events.len(),
{
    law_single_notification(events);
    law_single_notification(events.drop_last());
    let i = choose|i: int| 0 <= i < events.len() && !((#[trigger] events[i]) is Interrupted);
    if i < events.len() - 1 {
        assert(0 <= i < events.drop_last().len() && !(events.drop_last()[i] is Interrupted));
        law_notification_delivered(events.drop_last());
    }
}

/// Checks a resize request before any OS call: both dimensions must be
/// nonnegative and within the signed 16-bit range, and come back as the
/// unsigned cell counts the window-size structure stores.
pub fn pty_resize_request(cols: i32, rows: i32) -> (r: Result<(u16, u16), PtyError>)
    ensures
        r == if !(0 <= cols <= 0x7fff) {
            Err::<(u16, u16), PtyError>(PtyError::Coercion(cols))
        } else if !(0 <= rows <= 0x7fff) {
            Err::<(u16, u16), PtyError>(PtyError::Coercion(rows))
        } else {
            Ok::<(u16, u16), PtyError>((cols as u16, rows as u16))
        },
{
    let c = match coerce_dim(cols) {
        Ok(c) => c,
        Err(e) => {
            return Err(e);
        },
    };
    let rw = match coerce_dim(rows) {
        Ok(rw) => rw,
        Err(e) => {
            return Err(e);
        },
    };
    Ok((c, rw))
}

/// The resize error for an OS error code, mapped one-to-one.
pub open spec fn spec_resize_cause(errno: i32) -> ResizeCause {
    if errno == EBADF {
        ResizeCause::BadDescriptor
    } else if errno == EFAULT {
        ResizeCause::BadAddress
    } else if errno == EINVAL {
        ResizeCause::InvalidArgument
    } else if errno == ENOTTY {
        ResizeCause::NotTerminal
    } else {
        ResizeCause::Other(errno)
    }
}

/// Maps the error code of a failed window-size ioctl to the resize error
/// surfaced to the caller.
pub fn resize_error_from_errno(errno: i32) -> (r: PtyError)
    ensures
        r == PtyError::Resize(spec_resize_cause(errno)),
{
    if errno == EBADF {
        PtyError::Resize(ResizeCause::BadDescriptor)
    } else if errno == EFAULT {
        PtyError::Resize(ResizeCause::BadAddress)
    } else if errno == EINVAL {
        PtyError::Resize(ResizeCause::InvalidArgument)
    } else if errno == ENOTTY {
        PtyError::Resize(ResizeCause::NotTerminal)
    } else {
        PtyError::Resize(ResizeCause::Other(errno))
    }
}

/// The `/proc` path holding a process group's command line.
pub open spec fn spec_proc_cmdline_path(pid: nat) -> Seq<char> {
    "/proc/"@ + spec_dec(pid) + "/cmdline"@
}

/// Builds the `/proc/<pid>/cmdline` path for a process group.
pub fn proc_cmdline_path(pid: u32) -> (r: String)
    ensures
        r@ == spec_proc_cmdline_path(pid as nat),
{
    String::from_str("/proc/").concat(u32_to_string(pid).as_str()).concat("/cmdline")
}

/// Decides the lookup from what the foreground-process-group query
/// returned: no group, or a group id that names no process (nonpositive),
/// yields an absent result — never an error — and a real group id yields
/// exactly its `/proc` command-line path.
pub fn cmdline_path_decision(pgrp: Option<i32>) -> (r: Option<String>)
    ensures
        pgrp is None ==> r is None,
        pgrp matches Some(p) ==> (p <= 0 ==> r is None),
        pgrp matches Some(p) ==> (p > 0 ==> (r matches Some(q) && q@ == spec_proc_cmdline_path(
            p as nat,
        ))),
{
    match pgrp {
        None => None,
        Some(pgrp) => {
            if pgrp <= 0 {
                None
            } else {
                Some(proc_cmdline_path(pgrp as u32))
            }
        },
    }
}

/// The advisory lookup behind the process-name query: where to read the
/// foreground process group's command line.  Absent — never an error —
/// when the terminal path is empty, when the descriptor has no foreground
/// process group, or when the OS refuses the query; the decision on the
/// queried group is `cmdline_path_decision`, whose contract is exact for
/// every value the query can return.
pub fn pty_process_path(fd: i32, tty: &String) -> (r: Option<String>)
    ensures
        tty@.len() == 0 ==> r is None,
        r matches Some(p) ==> tty@.len() > 0 && (exists|pid: u32|
            pid > 0 && p@ == spec_proc_cmdline_path(pid as nat)),
{
    if tty.as_str().is_empty() {
        return None;
    }
    let pgrp = sys_tcgetpgrp(fd);
    let r = cmdline_path_decision(pgrp);
    proof {
        match pgrp {
            Some(p) => {
                if p > 0 {
                    assert(exists|pid: u32|
                        pid > 0 && r->0@ == spec_proc_cmdline_path(pid as nat)) by {
                        assert(p as u32 > 0 && r->0@ == spec_proc_cmdline_path(
                            (p as u32) as nat,
                        ));
                    }
                }
            },
            None => {},
        }
    }
    r
}

} // verus!
