//! The Windows ConPTY engine: named-pipe pair and pseudo-console planning,
//! the session registry keyed by a monotonically assigned id, attach with
//! an exit-notifier capability, resize and kill, and the exactly-once
//! teardown shared by the kill path and the exit-wait path.
//!
//! The OS calls themselves (pipe creation, pseudo-console allocation,
//! process creation, wait registration) happen on the host side; this
//! module computes exactly what each call is given and owns every decision
//! in between, with handles carried as opaque integers.

use vstd::prelude::*;
use vstd::string::*;

use std::collections::HashMap;

use crate::error::PtyError;
use crate::util::{coerce_i16, env_block, spec_env_block};

verus! {

broadcast use vstd::std_specs::hash::group_hash_axioms;

/// Open mode of each data pipe:
/// `PIPE_ACCESS_INBOUND | PIPE_ACCESS_OUTBOUND | FILE_FLAG_FIRST_PIPE_INSTANCE`.
pub const PIPE_OPEN_MODE: u32 = 0x80003;

/// Pipe mode of each data pipe:
/// `PIPE_TYPE_BYTE | PIPE_READMODE_BYTE | PIPE_WAIT` (all zero bits).
pub const PIPE_MODE: u32 = 0;

/// Default timeout, in milliseconds, each data pipe is created with.
pub const PIPE_TIMEOUT_MS: u32 = 30000;

/// Process creation flags:
/// `EXTENDED_STARTUPINFO_PRESENT | CREATE_UNICODE_ENVIRONMENT`.
pub const CREATION_FLAGS: u32 = 0x80400;

/// The one attribute of the attribute list:
/// `PROC_THREAD_ATTRIBUTE_PSEUDOCONSOLE`.
pub const ATTRIBUTE_PSEUDOCONSOLE: u64 = 0x20016;

/// Startup-info flags: `STARTF_USESTDHANDLES`.
pub const STARTUP_FLAGS: u32 = 0x100;

/// Flag word of the exit-wait registration: `WT_EXECUTEONLYONCE`, a
/// one-shot subscription that fires at most once.
pub const WAIT_EXECUTE_ONLY_ONCE: u32 = 0x8;

/// The full name of a session's named pipe: the local pipe namespace
/// prefix, the caller's base name, and the per-direction suffix.
pub open spec fn spec_pipe_name(base: Seq<char>, suffix: Seq<char>) -> Seq<char> {
    "\\\\.\\pipe\\"@ + base + suffix
}

/// Builds a full pipe name from the caller's base name and a suffix.
pub fn pipe_name(base: &str, suffix: &str) -> (r: String)
    ensures
        r@ == spec_pipe_name(base@, suffix@),
{
    let mut s = String::from_str("\\\\.\\pipe\\");
    s.append(base);
    s.append(suffix);
    s
}

/// The capability to deliver the exit notification of one session.  The
/// host hands one in at attach; teardown moves it back out with the
/// session, so it can be invoked at most once.  The token identifies the
/// host-side callback.
#[derive(Debug)]
pub struct ExitNotifier {
    pub token: u64,
}

/// The resources of one live ConPTY session: the pseudo-console handle,
/// the two pipe handles, and — once a child is attached — its process
/// handle, the wait registration, and the exit notifier.
#[derive(Debug)]
pub struct ConptySession {
    pub hpc: u64,
    pub h_in: u64,
    pub h_out: u64,
    pub h_shell: Option<u64>,
    pub h_wait: Option<u64>,
    pub notifier: Option<ExitNotifier>,
}

/// Whether a session owns a platform handle word: its pseudo-console, one
/// of its pipes, or its child's process handle.  The wait registration is
/// the host's bookkeeping, not a platform resource.
pub open spec fn owns_handle(s: ConptySession, h: u64) -> bool {
    h == s.hpc || h == s.h_in || h == s.h_out || s.h_shell == Some(h)
}

/// The handles of an optional field, as a sequence.
pub open spec fn spec_opt_handle(h: Option<u64>) -> Seq<u64> {
    match h {
        Some(v) => seq![v],
        None => Seq::empty(),
    }
}

impl ConptySession {
    /// Every handle this session owns, in teardown order: pseudo-console,
    /// input pipe, output pipe, and the child's process handle if a child
    /// was attached.
    pub fn handles_to_close(&self) -> (r: Vec<u64>)
        ensures
            r@ == seq![self.hpc, self.h_in, self.h_out] + spec_opt_handle(self.h_shell),
    {
        let mut v: Vec<u64> = Vec::new();
        v.push(self.hpc);
        v.push(self.h_in);
        v.push(self.h_out);
        match self.h_shell {
            Some(h) => {
                v.push(h);
            },
            None => {},
        }
        proof {
            assert(v@ =~= seq![self.hpc, self.h_in, self.h_out] + spec_opt_handle(self.h_shell));
        }
        v
    }

    /// The handle the exit code is read from: the child's process handle —
    /// not the pseudo-console handle — and only present once a child was
    /// attached.
    pub fn exit_code_handle(&self) -> (r: Option<u64>)
        ensures
            r == self.h_shell,
    {
        self.h_shell
    }
}

/// What a session's pipe is created with.
#[derive(Debug)]
pub struct PipeRequest {
    pub name: String,
    pub open_mode: u32,
    pub pipe_mode: u32,
    pub max_instances: u32,
    pub out_buffer_size: u32,
    pub in_buffer_size: u32,
    pub default_timeout_ms: u32,
}

/// A correct pipe request for the given full name: inbound and outbound,
/// byte mode, a single instance, and the fixed default timeout.
pub open spec fn spec_pipe_request(p: PipeRequest, name: Seq<char>) -> bool {
    &&& p.name@ == name
    &&& p.open_mode == PIPE_OPEN_MODE
    &&& p.pipe_mode == PIPE_MODE
    &&& p.max_instances == 1
    &&& p.out_buffer_size == 0
    &&& p.in_buffer_size == 0
    &&& p.default_timeout_ms == PIPE_TIMEOUT_MS
}

/// Everything the open step hands to the OS: the coerced size, the
/// inherit-cursor flag word, and the two pipe requests.
#[derive(Debug)]
pub struct ConptyOpenRequest {
    pub cols: i16,
    pub rows: i16,
    pub flags: u32,
    pub in_pipe: PipeRequest,
    pub out_pipe: PipeRequest,
}

/// Plans a ConPTY open: coerces the size to the signed 16-bit coordinates
/// the console expects — failing before any OS call when a dimension is
/// out of range — and names the two single-instance byte-mode pipes
/// `\\.\pipe\{base}-in` and `\\.\pipe\{base}-out`.
pub fn conpty_open_request(
    cols: i32,
    rows: i32,
    pipe_name_base: &String,
    inherit_cursor: bool,
) -> (r: Result<ConptyOpenRequest, PtyError>)
    ensures
        !(i16::MIN <= cols <= i16::MAX) ==> r == Err::<ConptyOpenRequest, PtyError>(
            PtyError::Coercion(cols),
        ),
        (i16::MIN <= cols <= i16::MAX) && !(i16::MIN <= rows <= i16::MAX) ==> r == Err::<
            ConptyOpenRequest,
            PtyError,
        >(PtyError::Coercion(rows)),
        (i16::MIN <= cols <= i16::MAX) && (i16::MIN <= rows <= i16::MAX) ==> (r matches Ok(q)
            && q.cols == cols as i16 && q.rows == rows as i16 && q.flags == (if inherit_cursor {
            1u32
        } else {
            0u32
        }) && spec_pipe_request(q.in_pipe, spec_pipe_name(pipe_name_base@, "-in"@))
            && spec_pipe_request(q.out_pipe, spec_pipe_name(pipe_name_base@, "-out"@))),
{
    let c = match coerce_i16(cols) {
        Ok(c) => c,
        Err(e) => {
            return Err(e);
        },
    };
    let rw = match coerce_i16(rows) {
        Ok(rw) => rw,
        Err(e) => {
            return Err(e);
        },
    };
    let in_pipe = PipeRequest {
        name: pipe_name(pipe_name_base.as_str(), "-in"),
        open_mode: PIPE_OPEN_MODE,
        pipe_mode: PIPE_MODE,
        max_instances: 1,
        out_buffer_size: 0,
        in_buffer_size: 0,
        default_timeout_ms: PIPE_TIMEOUT_MS,
    };
    let out_pipe = PipeRequest {
        name: pipe_name(pipe_name_base.as_str(), "-out"),
        open_mode: PIPE_OPEN_MODE,
        pipe_mode: PIPE_MODE,
        max_instances: 1,
        out_buffer_size: 0,
        in_buffer_size: 0,
        default_timeout_ms: PIPE_TIMEOUT_MS,
    };
    Ok(
        ConptyOpenRequest {
            cols: c,
            rows: rw,
            flags: if inherit_cursor {
                1
            } else {
                0
            },
            in_pipe,
            out_pipe,
        },
    )
}

/// Settles the open sequence after the OS steps have run: the input pipe,
/// then — only if it succeeded — the output pipe, then — only if both
/// succeeded — the pseudo-console.  A step that was not attempted is
/// `None`.  On full success the three handles come back; on failure, the
/// error for the step that failed, together with exactly the handles
/// already created, in creation order, so that a failure after the input
/// pipe leaks nothing.
pub fn conpty_open_outcome(
    in_pipe: Result<u64, u32>,
    out_pipe: Option<Result<u64, u32>>,
    console: Option<Result<u64, u32>>,
) -> (r: Result<(u64, u64, u64), (PtyError, Vec<u64>)>)
    requires
        in_pipe is Ok <==> out_pipe is Some,
        (out_pipe matches Some(p) && p is Ok) <==> console is Some,
    ensures
        in_pipe matches Err(c) ==> (r matches Err(e) && e.0 == PtyError::PipeCreation(c) && e.1@
            == Seq::<u64>::empty()),
        in_pipe matches Ok(h1) ==> (out_pipe matches Some(Err(c)) ==> (r matches Err(e) && e.0
            == PtyError::PipeCreation(c) && e.1@ == seq![h1])),
        in_pipe matches Ok(h1) ==> (out_pipe matches Some(Ok(h2)) ==> (console matches Some(
            Err(c),
        ) ==> (r matches Err(e) && e.0 == PtyError::ConsoleCreation(c) && e.1@ == seq![h1, h2]))),
        in_pipe matches Ok(h1) ==> (out_pipe matches Some(Ok(h2)) ==> (console matches Some(
            Ok(h3),
        ) ==> r == Ok::<(u64, u64, u64), (PtyError, Vec<u64>)>((h1, h2, h3)))),
{
    let h1 = match in_pipe {
        Err(c) => {
            return Err((PtyError::PipeCreation(c), Vec::new()));
        },
        Ok(h) => h,
    };
    let h2 = match out_pipe {
        Some(Err(c)) => {
            let mut created: Vec<u64> = Vec::new();
            created.push(h1);
            proof {
                assert(created@ =~= seq![h1]);
            }
            return Err((PtyError::PipeCreation(c), created));
        },
        Some(Ok(h)) => h,
        None => {
            return Err((PtyError::PipeCreation(0), Vec::new()));
        },
    };
    match console {
        Some(Err(c)) => {
            let mut created: Vec<u64> = Vec::new();
            created.push(h1);
            created.push(h2);
            proof {
                assert(created@ =~= seq![h1, h2]);
            }
            Err((PtyError::ConsoleCreation(c), created))
        },
        Some(Ok(h3)) => Ok((h1, h2, h3)),
        None => Err((PtyError::ConsoleCreation(0), Vec::new())),
    }
}

/// Settles the attach sequence after the OS steps have run: both pipes are
/// connected first; only then is the child created.  A pipe-connect
/// failure and a process-creation failure map to their own errors; on
/// success the child's process handle comes back.
pub fn conpty_attach_outcome(
    pipes_connected: Result<(), u32>,
    process: Option<Result<u64, u32>>,
) -> (r: Result<u64, PtyError>)
    requires
        pipes_connected is Ok <==> process is Some,
    ensures
        pipes_connected matches Err(c) ==> r == Err::<u64, PtyError>(PtyError::PipeConnect(c)),
        process matches Some(Err(c)) ==> r == Err::<u64, PtyError>(PtyError::ProcessCreation(c)),
        process matches Some(Ok(h)) ==> r == Ok::<u64, PtyError>(h),
{
    match pipes_connected {
        Err(c) => Err(PtyError::PipeConnect(c)),
        Ok(_) => match process {
            Some(Err(c)) => Err(PtyError::ProcessCreation(c)),
            Some(Ok(h)) => Ok(h),
            None => Err(PtyError::ProcessCreation(0)),
        },
    }
}

/// A created session as the caller sees it: the session id and the two
/// pipe names.  The descriptor field is not used on this platform and is
/// always -1.
#[derive(Debug)]
pub struct IConptyProcess {
    pub fd: i32,
    pub pty: i32,
    pub conin: String,
    pub conout: String,
}

/// What the attach step works with: the session's pipe handles, which are
/// connected first; the pseudo-console handle; the command line, working
/// directory and environment block for process creation; the fixed
/// creation-flag words, with an attribute list of exactly one attribute
/// binding the process to the pseudo-console; and the one-shot flag word
/// for the exit-wait registration.
#[derive(Debug)]
pub struct ConptyConnectRequest {
    pub hpc: u64,
    pub h_in: u64,
    pub h_out: u64,
    pub cmdline: String,
    pub cwd: String,
    pub env_block: String,
    pub creation_flags: u32,
    pub attribute_count: u32,
    pub attribute_kind: u64,
    pub startup_flags: u32,
    pub wait_flags: u32,
}

/// What a resize hands to the pseudo-console.
#[derive(Debug)]
pub struct ConptyResizeRequest {
    pub hpc: u64,
    pub cols: i16,
    pub rows: i16,
}

proof fn lemma_remove_keeps_exclusivity(
    m_old: Map<i32, ConptySession>,
    m_new: Map<i32, ConptySession>,
    id: i32,
)
    requires
        m_new == m_old.remove(id),
        forall|i: i32, j: i32, h: u64|
            #![trigger owns_handle(m_old[i], h), owns_handle(m_old[j], h)]
            m_old.dom().contains(i) && m_old.dom().contains(j) && i != j && owns_handle(
                m_old[i],
                h,
            ) ==> !owns_handle(m_old[j], h),
    ensures
        forall|i: i32, j: i32, h: u64|
            #![trigger owns_handle(m_new[i], h), owns_handle(m_new[j], h)]
            m_new.dom().contains(i) && m_new.dom().contains(j) && i != j && owns_handle(
                m_new[i],
                h,
            ) ==> !owns_handle(m_new[j], h),
{
    assert forall|i: i32, j: i32, h: u64|
        m_new.dom().contains(i) && m_new.dom().contains(j) && i != j && #[trigger] owns_handle(
            m_new[i],
            h,
        ) implies !(#[trigger] owns_handle(m_new[j], h)) by {
        assert(m_new[i] == m_old[i] && m_new[j] == m_old[j]);
        assert(owns_handle(m_old[i], h));
        assert(!owns_handle(m_old[j], h));
    }
}

/// The registry of live ConPTY sessions: a map from session id to session
/// resources, with ids assigned monotonically from zero.  The host
/// serializes access with a mutex; every id ever issued is below the next
/// id, so a fresh id never collides with a live entry.
pub struct ConptyRegistry {
    next_id: i32,
    sessions: HashMap<i32, ConptySession>,
}

impl ConptyRegistry {
    /// The registered sessions, by id.
    pub closed spec fn sessions_view(&self) -> Map<i32, ConptySession> {
        self.sessions@
    }

    /// The id the next open will be assigned.
    pub closed spec fn next_id_spec(&self) -> int {
        self.next_id as int
    }

    /// Every registered id was issued (nonnegative and below the next id),
    /// and every platform handle is owned by at most one session: no two
    /// registered sessions share a pseudo-console, pipe or child handle.
    pub closed spec fn wf(&self) -> bool {
        &&& self.next_id >= 0
        &&& forall|id: i32|
            #[trigger] self.sessions@.dom().contains(id) ==> 0 <= id < self.next_id
        &&& forall|i: i32, j: i32, h: u64|
            #![trigger owns_handle(self.sessions@[i], h), owns_handle(self.sessions@[j], h)]
            self.sessions@.dom().contains(i) && self.sessions@.dom().contains(j) && i != j
                && owns_handle(self.sessions@[i], h) ==> !owns_handle(self.sessions@[j], h)
    }

    /// A fresh, empty registry; ids start at zero.
    pub fn new() -> (r: Self)
        ensures
            r.wf(),
            r.sessions_view() == Map::<i32, ConptySession>::empty(),
            r.next_id_spec() == 0,
    {
        ConptyRegistry { next_id: 0, sessions: HashMap::new() }
    }

    /// How many sessions are registered.
    pub fn session_count(&self) -> (r: usize)
        ensures
            r == self.sessions_view().dom().len(),
    {
        self.sessions.len()
    }

    /// Whether a session with this id is registered.
    pub fn contains(&self, id: i32) -> (r: bool)
        ensures
            r == self.sessions_view().contains_key(id),
    {
        self.sessions.contains_key(&id)
    }

    /// Registers a session that the OS just created: assigns it the next
    /// id, stores its pseudo-console and pipe handles with no child and no
    /// notifier yet, and returns the descriptor the caller sees.  The
    /// handles must be fresh — the OS returns newly allocated handles, so
    /// no registered session owns them — which keeps every handle owned by
    /// exactly one session.
    pub fn open_commit(
        &mut self,
        hpc: u64,
        h_in: u64,
        h_out: u64,
        conin: String,
        conout: String,
    ) -> (r: IConptyProcess)
        requires
            old(self).wf(),
            old(self).next_id_spec() < i32::MAX,
            forall|other: i32| #[trigger] old(self).sessions_view().dom().contains(other) ==> {
                &&& !owns_handle(old(self).sessions_view()[other], hpc)
                &&& !owns_handle(old(self).sessions_view()[other], h_in)
                &&& !owns_handle(old(self).sessions_view()[other], h_out)
            },
        ensures
            final(self).wf(),
            r.fd == -1,
            r.pty == old(self).next_id_spec(),
            r.conin@ == conin@,
            r.conout@ == conout@,
            !old(self).sessions_view().contains_key(r.pty),
            final(self).next_id_spec() == old(self).next_id_spec() + 1,
            final(self).sessions_view() == old(self).sessions_view().insert(
                r.pty,
                (ConptySession { hpc, h_in, h_out, h_shell: None, h_wait: None, notifier: None }),
            ),
    {
        let id = self.next_id;
        self.next_id = self.next_id + 1;
        self.sessions.insert(
            id,
            ConptySession { hpc, h_in, h_out, h_shell: None, h_wait: None, notifier: None },
        );
        proof {
            let m_old = old(self).sessions@;
            let m_new = self.sessions@;
            assert forall|i: i32, j: i32, h: u64|
                m_new.dom().contains(i) && m_new.dom().contains(j) && i != j && #[trigger]
                owns_handle(m_new[i], h) implies !(#[trigger] owns_handle(
                m_new[j],
                h,
            )) by {
                if i != id && j != id {
                    assert(m_new[i] == m_old[i] && m_new[j] == m_old[j]);
                    assert(m_old.dom().contains(i) && m_old.dom().contains(j));
                    assert(owns_handle(m_old[i], h));
                    assert(!owns_handle(m_old[j], h));
                } else if i == id {
                    assert(m_new[j] == m_old[j] && m_old.dom().contains(j));
                    assert(old(self).sessions_view().dom().contains(j));
                    assert(h == hpc || h == h_in || h == h_out);
                    assert(!owns_handle(m_old[j], hpc) && !owns_handle(m_old[j], h_in)
                        && !owns_handle(m_old[j], h_out));
                } else {
                    assert(m_new[i] == m_old[i] && m_old.dom().contains(i));
                    assert(old(self).sessions_view().dom().contains(i));
                    assert(owns_handle(m_old[i], h));
                    assert(!owns_handle(m_old[i], hpc) && !owns_handle(m_old[i], h_in)
                        && !owns_handle(m_old[i], h_out));
                    assert(h != hpc && h != h_in && h != h_out);
                }
            }
        }
        IConptyProcess { fd: -1, pty: id, conin, conout }
    }

    /// Plans an attach: looks the session up — failing with the not-found
    /// error when the id is absent — and assembles what process creation
    /// is given: the session's pseudo-console handle, the command line and
    /// directory, the environment block, and the fixed flag words.
    pub fn connect_request(
        &self,
        id: i32,
        cmdline: &String,
        cwd: &String,
        env: &Vec<(String, String)>,
    ) -> (r: Result<ConptyConnectRequest, PtyError>)
        ensures
            r is Ok <==> self.sessions_view().contains_key(id),
            !self.sessions_view().contains_key(id) ==> r == Err::<ConptyConnectRequest, PtyError>(
                PtyError::NotFound,
            ),
            r matches Ok(q) ==> {
                &&& q.hpc == self.sessions_view()[id].hpc
                &&& q.h_in == self.sessions_view()[id].h_in
                &&& q.h_out == self.sessions_view()[id].h_out
                &&& q.cmdline@ == cmdline@
                &&& q.cwd@ == cwd@
                &&& q.env_block@ == spec_env_block(env.deep_view())
                &&& q.creation_flags == CREATION_FLAGS
                &&& q.attribute_count == 1
                &&& q.attribute_kind == ATTRIBUTE_PSEUDOCONSOLE
                &&& q.startup_flags == STARTUP_FLAGS
                &&& q.wait_flags == WAIT_EXECUTE_ONLY_ONCE
            },
    {
        match self.sessions.get(&id) {
            None => Err(PtyError::NotFound),
            Some(s) => Ok(
                ConptyConnectRequest {
                    hpc: s.hpc,
                    h_in: s.h_in,
                    h_out: s.h_out,
                    cmdline: cmdline.clone(),
                    cwd: cwd.clone(),
                    env_block: env_block(env),
                    creation_flags: CREATION_FLAGS,
                    attribute_count: 1,
                    attribute_kind: ATTRIBUTE_PSEUDOCONSOLE,
                    startup_flags: STARTUP_FLAGS,
                    wait_flags: WAIT_EXECUTE_ONLY_ONCE,
                },
            ),
        }
    }

    /// Commits a successful attach: stores the child's process handle, the
    /// wait registration and the exit notifier in the session.  Fails with
    /// the not-found error, leaving the registry unchanged, when the id is
    /// absent.  The child's handle must be fresh — process creation just
    /// allocated it — so no registered session owns it.
    pub fn attach_commit(
        &mut self,
        id: i32,
        h_shell: u64,
        h_wait: u64,
        notifier: ExitNotifier,
    ) -> (r: Result<(), PtyError>)
        requires
            old(self).wf(),
            forall|other: i32| #[trigger] old(self).sessions_view().dom().contains(other)
                ==> !owns_handle(old(self).sessions_view()[other], h_shell),
        ensures
            final(self).wf(),
            r is Ok <==> old(self).sessions_view().contains_key(id),
            final(self).next_id_spec() == old(self).next_id_spec(),
            !old(self).sessions_view().contains_key(id) ==> r == Err::<(), PtyError>(
                PtyError::NotFound,
            ) && final(self).sessions_view() == old(self).sessions_view(),
            old(self).sessions_view().contains_key(id) ==> final(self).sessions_view() == old(
                self,
            ).sessions_view().insert(
                id,
                (ConptySession {
                    hpc: old(self).sessions_view()[id].hpc,
                    h_in: old(self).sessions_view()[id].h_in,
                    h_out: old(self).sessions_view()[id].h_out,
                    h_shell: Some(h_shell),
                    h_wait: Some(h_wait),
                    notifier: Some(notifier),
                }),
            ),
    {
        let (hpc, h_in, h_out) = match self.sessions.get(&id) {
            None => {
                return Err(PtyError::NotFound);
            },
            Some(s) => (s.hpc, s.h_in, s.h_out),
        };
        self.sessions.insert(
            id,
            ConptySession {
                hpc,
                h_in,
                h_out,
                h_shell: Some(h_shell),
                h_wait: Some(h_wait),
                notifier: Some(notifier),
            },
        );
        proof {
            let m_old = old(self).sessions@;
            let m_new = self.sessions@;
            assert forall|i: i32, j: i32, h: u64|
                m_new.dom().contains(i) && m_new.dom().contains(j) && i != j && #[trigger]
                owns_handle(m_new[i], h) implies !(#[trigger] owns_handle(
                m_new[j],
                h,
            )) by {
                if i != id && j != id {
                    assert(m_new[i] == m_old[i] && m_new[j] == m_old[j]);
                    assert(m_old.dom().contains(i) && m_old.dom().contains(j));
                    assert(owns_handle(m_old[i], h));
                    assert(!owns_handle(m_old[j], h));
                } else if i == id {
                    assert(m_new[j] == m_old[j] && m_old.dom().contains(j));
                    assert(old(self).sessions_view().dom().contains(j));
                    if h == h_shell {
                        assert(!owns_handle(m_old[j], h_shell));
                    } else {
                        assert(owns_handle(m_old[id], h));
                        assert(!owns_handle(m_old[j], h));
                    }
                } else {
                    assert(m_new[i] == m_old[i] && m_old.dom().contains(i));
                    assert(old(self).sessions_view().dom().contains(i));
                    assert(owns_handle(m_old[i], h));
                    if h == h_shell {
                        assert(!owns_handle(m_old[i], h_shell));
                    } else {
                        assert(!owns_handle(m_old[id], h));
                    }
                }
            }
        }
        Ok(())
    }

    /// Plans a resize: coerces both dimensions to signed 16-bit console
    /// coordinates — failing before any lookup or OS call when one is out
    /// of range — then looks the session up and returns its pseudo-console
    /// handle with the new size.
    pub fn resize_request(&self, id: i32, cols: i32, rows: i32) -> (r: Result<
        ConptyResizeRequest,
        PtyError,
    >)
        ensures
            !(i16::MIN <= cols <= i16::MAX) ==> r == Err::<ConptyResizeRequest, PtyError>(
                PtyError::Coercion(cols),
            ),
            (i16::MIN <= cols <= i16::MAX) && !(i16::MIN <= rows <= i16::MAX) ==> r == Err::<
                ConptyResizeRequest,
                PtyError,
            >(PtyError::Coercion(rows)),
            (i16::MIN <= cols <= i16::MAX) && (i16::MIN <= rows <= i16::MAX)
                && !self.sessions_view().contains_key(id) ==> r == Err::<
                ConptyResizeRequest,
                PtyError,
            >(PtyError::NotFound),
            (i16::MIN <= cols <= i16::MAX) && (i16::MIN <= rows <= i16::MAX)
                && self.sessions_view().contains_key(id) ==> (r matches Ok(q) && q.hpc
                == self.sessions_view()[id].hpc && q.cols == cols as i16 && q.rows == rows as i16),
    {
        let c = match coerce_i16(cols) {
            Ok(c) => c,
            Err(e) => {
                return Err(e);
            },
        };
        let rw = match coerce_i16(rows) {
            Ok(rw) => rw,
            Err(e) => {
                return Err(e);
            },
        };
        match self.sessions.get(&id) {
            None => Err(PtyError::NotFound),
            Some(s) => Ok(ConptyResizeRequest { hpc: s.hpc, cols: c, rows: rw }),
        }
    }

    /// Tears a session down on behalf of an explicit kill: removes the
    /// entry and hands its resources back for closing.  Fails with the
    /// not-found error, leaving the registry unchanged, when the id is
    /// absent — which the exit path may already have made so; that outcome
    /// is expected, not a bug.
    pub fn kill(&mut self, id: i32) -> (r: Result<ConptySession, PtyError>)
        requires
            old(self).wf(),
        ensures
            final(self).wf(),
            final(self).next_id_spec() == old(self).next_id_spec(),
            r is Ok <==> old(self).sessions_view().contains_key(id),
            r matches Ok(s) ==> s == old(self).sessions_view()[id] && final(self).sessions_view() == old(
                self,
            ).sessions_view().remove(id),
            !old(self).sessions_view().contains_key(id) ==> r == Err::<ConptySession, PtyError>(
                PtyError::NotFound,
            ) && final(self).sessions_view() == old(self).sessions_view(),
            !final(self).sessions_view().contains_key(id),
    {
        let removed = self.sessions.remove(&id);
        proof {
            if !old(self).sessions@.contains_key(id) {
                assert(self.sessions@ =~= old(self).sessions@);
            }
            lemma_remove_keeps_exclusivity(old(self).sessions@, self.sessions@, id);
        }
        match removed {
            Some(s) => Ok(s),
            None => Err(PtyError::NotFound),
        }
    }

    /// Tears a session down on behalf of the exit-wait callback: removes
    /// the entry and hands it back — notifier included, by move, so the
    /// notification can be delivered at most once.  Returns nothing when
    /// the id is already gone (an explicit kill won the race); the
    /// registry is then unchanged.
    pub fn take_exited(&mut self, id: i32) -> (r: Option<ConptySession>)
        requires
            old(self).wf(),
        ensures
            final(self).wf(),
            final(self).next_id_spec() == old(self).next_id_spec(),
            r is Some <==> old(self).sessions_view().contains_key(id),
            r matches Some(s) ==> s == old(self).sessions_view()[id] && final(self).sessions_view()
                == old(self).sessions_view().remove(id),
            !old(self).sessions_view().contains_key(id) ==> final(self).sessions_view() == old(
                self,
            ).sessions_view(),
            !final(self).sessions_view().contains_key(id),
    {
        let removed = self.sessions.remove(&id);
        proof {
            if !old(self).sessions@.contains_key(id) {
                assert(self.sessions@ =~= old(self).sessions@);
            }
            lemma_remove_keeps_exclusivity(old(self).sessions@, self.sessions@, id);
        }
        removed
    }
}

/// Teardown is exclusive and exhaustive: once one of the two racing paths
/// (an explicit kill, or the exit-wait callback) has removed a session,
/// the id is no longer registered — so the loser of the race observes
/// not-found and the session's resources and notifier are handed out
/// exactly once — and every other session is untouched.
pub proof fn law_teardown_once(sessions: Map<i32, ConptySession>, id: i32)
    requires
        sessions.contains_key(id),
    ensures
        !sessions.remove(id).contains_key(id),
        forall|other: i32|
            other != id ==> (#[trigger] sessions.remove(id).contains_key(other)
                <==> sessions.contains_key(other)),
        forall|other: i32|
            other != id && sessions.contains_key(other) ==> #[trigger] sessions.remove(id)[other]
                == sessions[other],
{
}

} // verus!
