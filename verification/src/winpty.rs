//! The Windows WinPTY engine: the legacy agent-based fallback used where
//! the native pseudo-console is unavailable.  It resolves the executable
//! on the search path, plans the agent and spawn configurations, and keeps
//! its own registry — distinct from the ConPTY one — keyed by the agent's
//! process id.
//!
//! The agent calls themselves happen on the host side; this module
//! computes what each call is given, and owns the registry decisions.
//! The agent and spawn configurations the host allocates along the way are
//! its own to release, on the success path and on every failure path
//! alike: only the agent handle is owned by the registry.

use vstd::prelude::*;
use vstd::string::*;

use std::collections::HashMap;

use crate::error::PtyError;
use crate::util::{coerce_i16, env_block, spec_env_block};

verus! {

broadcast use vstd::std_specs::hash::group_hash_axioms;

/// Agent spawn flag: the agent shuts itself down when the child exits.
pub const SPAWN_FLAG_AUTO_SHUTDOWN: u64 = 1;

/// A started WinPTY session as the caller sees it: the agent's process id
/// (doubling as the session key), the inner child's id and raw handle, and
/// the agent's console pipe names.  The descriptor field is not used on
/// this platform and is always -1.
#[derive(Debug)]
pub struct IWinptyProcess {
    pub pty: i32,
    pub fd: i32,
    pub conin: String,
    pub conout: String,
    pub pid: i32,
    pub inner_pid: i32,
    pub inner_pid_handle: i32,
}

/// Everything the agent start hands to the OS: the resolved executable,
/// the command line, directory and environment block for the spawn
/// configuration, the initial size for the agent configuration, and the
/// debug toggle.
#[derive(Debug)]
pub struct WinptyStartRequest {
    pub file: String,
    pub command_line: String,
    pub cwd: String,
    pub env_block: String,
    pub cols: i32,
    pub rows: i32,
    pub debug_variable: String,
    pub debug: bool,
    pub agent_config_flags: u64,
    pub spawn_flags: u64,
}

/// What a resize hands to the agent.
#[derive(Debug)]
pub struct WinptyResizeRequest {
    pub agent: u64,
    pub cols: i16,
    pub rows: i16,
}

/// Relies on which::which: searches the executable search path and returns
/// the file's absolute path when it resolves and is valid UTF-8.
#[verifier::external_body]
fn sys_which(file: &String) -> (r: Option<String>) {
    match which::which(file.as_str()) {
        Ok(p) => match p.into_os_string().into_string() {
            Ok(s) => Some(s),
            Err(_) => None,
        },
        Err(_) => None,
    }
}

/// Plans an agent start from an already resolved executable path: fails
/// with a file-not-found error naming the requested file when resolution
/// failed, else assembles the spawn configuration (auto-shutdown set), the
/// environment block, the initial size, and the debug toggle for the
/// `WINPTYDBG` variable.
pub fn winpty_start_request(
    file: &String,
    resolved_file: Option<String>,
    command_line: &String,
    env: &Vec<(String, String)>,
    cwd: &String,
    cols: i32,
    rows: i32,
    debug: bool,
) -> (r: Result<WinptyStartRequest, PtyError>)
    ensures
        r is Ok <==> resolved_file is Some,
        resolved_file is None ==> (r matches Err(e) && e matches PtyError::FileNotFound(f) && f@
            == file@),
        r matches Ok(q) ==> {
            &&& resolved_file matches Some(f) && q.file@ == f@
            &&& q.command_line@ == command_line@
            &&& q.cwd@ == cwd@
            &&& q.env_block@ == spec_env_block(env.deep_view())
            &&& q.cols == cols
            &&& q.rows == rows
            &&& q.debug_variable@ == "WINPTYDBG"@
            &&& q.debug == debug
            &&& q.agent_config_flags == 0
            &&& q.spawn_flags == SPAWN_FLAG_AUTO_SHUTDOWN
        },
{
    match resolved_file {
        None => Err(PtyError::FileNotFound(file.clone())),
        Some(resolved) => Ok(
            WinptyStartRequest {
                file: resolved,
                command_line: command_line.clone(),
                cwd: cwd.clone(),
                env_block: env_block(env),
                cols,
                rows,
                debug_variable: String::from_str("WINPTYDBG"),
                debug,
                agent_config_flags: 0,
                spawn_flags: SPAWN_FLAG_AUTO_SHUTDOWN,
            },
        ),
    }
}

/// Plans an agent start from an unresolved executable name: resolves it on
/// the search path and fails with a file-not-found error naming the file
/// when it cannot be resolved; otherwise everything the agent start needs
/// is assembled, the executable being whatever the search returned.
pub fn winpty_start_process(
    file: &String,
    command_line: &String,
    env: &Vec<(String, String)>,
    cwd: &String,
    cols: i32,
    rows: i32,
    debug: bool,
) -> (r: Result<WinptyStartRequest, PtyError>)
    ensures
        r matches Err(e) ==> (e matches PtyError::FileNotFound(f) && f@ == file@),
        r matches Ok(q) ==> {
            &&& q.command_line@ == command_line@
            &&& q.cwd@ == cwd@
            &&& q.env_block@ == spec_env_block(env.deep_view())
            &&& q.cols == cols
            &&& q.rows == rows
            &&& q.debug_variable@ == "WINPTYDBG"@
            &&& q.debug == debug
            &&& q.agent_config_flags == 0
            &&& q.spawn_flags == SPAWN_FLAG_AUTO_SHUTDOWN
        },
{
    winpty_start_request(file, sys_which(file), command_line, env, cwd, cols, rows, debug)
}

/// Assembles the result handed back after a successful agent start: the
/// agent's process id keys the session, so it is returned both as the pid
/// and as the session id.
pub fn winpty_start_result(
    pid: i32,
    inner_pid: i32,
    inner_pid_handle: i32,
    conin: String,
    conout: String,
) -> (r: IWinptyProcess)
    ensures
        r.pty == pid,
        r.fd == -1,
        r.pid == pid,
        r.inner_pid == inner_pid,
        r.inner_pid_handle == inner_pid_handle,
        r.conin@ == conin@,
        r.conout@ == conout@,
{
    IWinptyProcess { pty: pid, fd: -1, conin, conout, pid, inner_pid, inner_pid_handle }
}

/// The registry of live WinPTY agents: a map from agent process id to the
/// agent handle.  Distinct from the ConPTY registry — the two engines'
/// session lifecycles differ.  The host serializes access with a mutex.
pub struct WinptyRegistry {
    agents: HashMap<i32, u64>,
}

impl WinptyRegistry {
    /// The registered agents, by process id.
    pub closed spec fn agents_view(&self) -> Map<i32, u64> {
        self.agents@
    }

    /// A fresh, empty registry.
    pub fn new() -> (r: Self)
        ensures
            r.agents_view() == Map::<i32, u64>::empty(),
    {
        WinptyRegistry { agents: HashMap::new() }
    }

    /// How many agents are registered.
    pub fn agent_count(&self) -> (r: usize)
        ensures
            r == self.agents_view().dom().len(),
    {
        self.agents.len()
    }

    /// Whether an agent with this process id is registered.
    pub fn contains(&self, pid: i32) -> (r: bool)
        ensures
            r == self.agents_view().contains_key(pid),
    {
        self.agents.contains_key(&pid)
    }

    /// Registers a started agent under its process id.
    pub fn register_agent(&mut self, pid: i32, agent: u64)
        ensures
            final (self).agents_view() == old(self).agents_view().insert(pid, agent),
    {
        self.agents.insert(pid, agent);
    }

    /// Plans a resize: coerces both dimensions to the signed 16-bit range
    /// — failing before any lookup or OS call when one is out of range —
    /// then looks the agent up, failing with the not-found error when the
    /// session was already killed.
    pub fn resize_request(&self, pid: i32, cols: i32, rows: i32) -> (r: Result<
        WinptyResizeRequest,
        PtyError,
    >)
        ensures
            !(i16::MIN <= cols <= i16::MAX) ==> r == Err::<WinptyResizeRequest, PtyError>(
                PtyError::Coercion(cols),
            ),
            (i16::MIN <= cols <= i16::MAX) && !(i16::MIN <= rows <= i16::MAX) ==> r == Err::<
                WinptyResizeRequest,
                PtyError,
            >(PtyError::Coercion(rows)),
            (i16::MIN <= cols <= i16::MAX) && (i16::MIN <= rows <= i16::MAX)
                && !self.agents_view().contains_key(pid) ==> r == Err::<
                WinptyResizeRequest,
                PtyError,
            >(PtyError::NotFound),
            (i16::MIN <= cols <= i16::MAX) && (i16::MIN <= rows <= i16::MAX)
                && self.agents_view().contains_key(pid) ==> (r matches Ok(q) && q.agent
                == self.agents_view()[pid] && q.cols == cols as i16 && q.rows == rows as i16),
    {
        let c = match coerce_i16(cols) {
            Ok(c) => c,
            Err(e) => {
                return Err(e);
            },
        };
        let rw = match coerce_i16(rows) {
            Ok(rw) => rw,
            Err(e) => {
                return Err(e);
            },
        };
        match self.agents.get(&pid) {
            None => Err(PtyError::NotFound),
            Some(agent) => Ok(WinptyResizeRequest { agent: *agent, cols: c, rows: rw }),
        }
    }

    /// Looks the agent up for a process-list query, failing with the
    /// not-found error when the session was already killed.
    pub fn process_list_request(&self, pid: i32) -> (r: Result<u64, PtyError>)
        ensures
            r is Ok <==> self.agents_view().contains_key(pid),
            r matches Ok(agent) ==> agent == self.agents_view()[pid],
            !self.agents_view().contains_key(pid) ==> r == Err::<u64, PtyError>(PtyError::NotFound),
    {
        match self.agents.get(&pid) {
            None => Err(PtyError::NotFound),
            Some(agent) => Ok(*agent),
        }
    }

    /// Kills a session: removes the agent entry.  The inner child's handle,
    /// which the caller holds, is closed by the host.  Fails with the
    /// not-found error, leaving the registry unchanged, when the entry was
    /// already removed — a repeat kill is answered that way, not treated
    /// as a fault.
    pub fn kill(&mut self, pid: i32) -> (r: Result<(), PtyError>)
        ensures
            r is Ok <==> old(self).agents_view().contains_key(pid),
            r is Ok ==> final (self).agents_view() == old(self).agents_view().remove(pid),
            !old(self).agents_view().contains_key(pid) ==> r == Err::<(), PtyError>(
                PtyError::NotFound,
            ) && final (self).agents_view() == old(self).agents_view(),
            !final (self).agents_view().contains_key(pid),
    {
        match self.agents.remove(&pid) {
            Some(_) => Ok(()),
            None => {
                proof {
                    assert(self.agents@ =~= old(self).agents@);
                }
                Err(PtyError::NotFound)
            },
        }
    }
}

} // verus!
