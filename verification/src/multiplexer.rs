//! Session (tab) multiplexing: one screen buffer and one process record per
//! session, a foregrounded session, and routing of process events to the
//! session they belong to.
//!
//! A session is created together with its spawn outcome: allocation of the
//! id always succeeds, and a failed spawn yields a session in a `Failed`
//! state whose tab can display the error. Output for an id that is gone is
//! dropped, never an error — the race with a just-closed session is benign.

use vstd::prelude::*;
use vstd::utf8::valid_utf8;
use vstd::utf8::decode_utf8;

use crate::clock::now_millis;
use crate::error::{SpawnError, WarpError};
use crate::input::EditOp;
use crate::pty::{ProcessHandle, ProcessStatus};
use crate::screen::{
    edit_applied, fresh_hist, is_blank, output_step, paste_applied, push_evict, BufferView,
    TerminalState,
};
use crate::text::lossy_decode_of;

verus! {

/// Everything needed to start a shell for a new session.
pub struct SpawnArgs {
    /// Executable to run: a path or a name resolved on the search path.
    pub command: String,
    /// Arguments handed to it.
    pub args: Vec<String>,
    /// Working directory to start in.
    pub cwd: String,
    /// Environment entries injected at spawn.
    pub env: Vec<(String, String)>,
}

/// The life stage of one session.
#[derive(Clone, Copy, Debug, PartialEq, Eq, Structural)]
pub enum SessionStatus {
    /// Its process is alive as far as the engine knows.
    Running,
    /// Its process exited with this code; the buffer stays readable.
    Exited(i32),
    /// A kill was issued for its process.
    Killed,
    /// Spawning failed; the tab exists to show the error.
    Failed(SpawnError),
}

/// A session's process side: a live handle, or the reason there is none.
pub enum SessionProcess {
    Attached(ProcessHandle),
    Failed(SpawnError),
}

/// One terminal tab: a buffer and the process (or failure) behind it.
pub struct Session {
    /// Stable identifier, unique across the multiplexer's lifetime.
    pub id: u64,
    /// The tab's screen buffer.
    pub buffer: TerminalState,
    /// The process record, or the spawn failure.
    pub process: SessionProcess,
    /// Where the process was started.
    pub working_directory: String,
    /// Wall-clock creation time, milliseconds since the Unix epoch.
    pub created_at: i64,
}

impl Session {
    /// The session's status, derived from its process side.
    pub open spec fn status_spec(self) -> SessionStatus {
        match self.process {
            SessionProcess::Attached(h) => match h.status {
                ProcessStatus::Running => SessionStatus::Running,
                ProcessStatus::Exited(code) => SessionStatus::Exited(code),
                ProcessStatus::Killed => SessionStatus::Killed,
            },
            SessionProcess::Failed(e) => SessionStatus::Failed(e),
        }
    }

    /// The session's status.
    pub fn status(&self) -> (r: SessionStatus)
        ensures
            r == self.status_spec(),
    {
        match &self.process {
            SessionProcess::Attached(h) => match h.status {
                ProcessStatus::Running => SessionStatus::Running,
                ProcessStatus::Exited(code) => SessionStatus::Exited(code),
                ProcessStatus::Killed => SessionStatus::Killed,
            },
            SessionProcess::Failed(e) => SessionStatus::Failed(*e),
        }
    }
}

/// What closing a session asks of the caller.
#[derive(Clone, Copy, Debug, PartialEq, Eq, Structural)]
pub enum CloseOutcome {
    /// The process was still running: terminate it with a grace period,
    /// then force-kill, and in every case reap it.
    Kill { pid: u32 },
    /// The session was already done; it was removed at once.
    Removed,
    /// No session with that id.
    NotFound,
}

/// Index of the session with `id`, or `-1` when there is none.
pub open spec fn find_id(s: Seq<Session>, id: u64) -> int
    decreases s.len(),
{
    if s.len() == 0 {
        -1
    } else if s[0].id == id {
        0
    } else {
        let r = find_id(s.drop_first(), id);
        if r < 0 {
            -1
        } else {
            1 + r
        }
    }
}

/// Whether some session carries `id`.
pub open spec fn has_id(s: Seq<Session>, id: u64) -> bool {
    find_id(s, id) >= 0
}

pub proof fn lemma_find_id(s: Seq<Session>, id: u64)
    ensures
        has_id(s, id) ==> {
            &&& 0 <= find_id(s, id) < s.len()
            &&& s[find_id(s, id)].id == id
            &&& forall|j: int| 0 <= j < find_id(s, id) ==> s[j].id != id
        },
        !has_id(s, id) ==> forall|j: int| 0 <= j < s.len() ==> s[j].id != id,
    decreases s.len(),
{
    if s.len() > 0 && s[0].id != id {
        let t = s.drop_first();
        lemma_find_id(t, id);
        if has_id(t, id) {
            let r = find_id(t, id);
            assert(s[r + 1] == t[r]);
            assert forall|j: int| 0 <= j < r + 1 implies s[j].id != id by {
                if j >= 1 {
                    assert(s[j] == t[j - 1]);
                }
            }
        } else {
            assert forall|j: int| 0 <= j < s.len() implies s[j].id != id by {
                if j >= 1 {
                    assert(s[j] == t[j - 1]);
                    assert(t[j - 1].id != id);
                }
            }
        }
    }
}

/// If `id` first occurs at `i`, that is where `find_id` points.
pub proof fn lemma_find_id_at(s: Seq<Session>, id: u64, i: int)
    requires
        0 <= i < s.len(),
        s[i].id == id,
        forall|j: int| 0 <= j < i ==> s[j].id != id,
    ensures
        find_id(s, id) == i,
    decreases s.len(),
{
    if s[0].id != id {
        lemma_find_id_at(s.drop_first(), id, i - 1);
    }
}

/// Owns the set of sessions and tracks the foregrounded one.
pub struct SessionMultiplexer {
    /// All sessions, in creation order.
    pub sessions: Vec<Session>,
    /// Id of the foregrounded session, if any.
    pub active: Option<u64>,
    /// Next id to hand out; ids are never reused.
    pub next_id: u64,
}

impl SessionMultiplexer {
    /// Ids are unique, below the allocation counter, every buffer is
    /// well-formed, and the foregrounded id names a real session.
    pub open spec fn wf(self) -> bool {
        &&& forall|i: int|
            0 <= i < self.sessions@.len() ==> (#[trigger] self.sessions@[i].id) < self.next_id
        &&& forall|i: int, j: int|
            0 <= i < j < self.sessions@.len() ==> self.sessions@[i].id != self.sessions@[j].id
        &&& forall|i: int|
            0 <= i < self.sessions@.len() ==> (#[trigger] self.sessions@[i].buffer).wf()
        &&& match self.active {
            Some(id) => has_id(self.sessions@, id),
            None => true,
        }
    }

    /// An empty multiplexer. Removing the last session later is allowed and
    /// leaves it empty again.
    pub fn new() -> (r: Self)
        ensures
            r.wf(),
            r.sessions@.len() == 0,
            r.active == None::<u64>,
            r.next_id == 0,
    {
        SessionMultiplexer { sessions: Vec::new(), active: None, next_id: 0 }
    }

    /// Creates a session for a spawn the application attempted. Allocating
    /// the id always succeeds: on `Ok(pid)` the session starts `Running`
    /// with a fresh buffer, on `Err(e)` it starts `Failed(e)` with the error
    /// shown inline in its buffer. The new session becomes active.
    pub fn new_session(&mut self, args: SpawnArgs, outcome: Result<u32, SpawnError>) -> (id: u64)
        requires
            old(self).wf(),
            old(self).next_id < u64::MAX,
        ensures
            final(self).wf(),
            id == old(self).next_id,
            final(self).next_id == old(self).next_id + 1,
            final(self).active == Some(id),
            final(self).sessions@.len() == old(self).sessions@.len() + 1,
            final(self).sessions@.drop_last() == old(self).sessions@,
            ({
                let s = final(self).sessions@.last();
                &&& s.id == id
                &&& s.working_directory == args.cwd
                &&& s.buffer.wf()
                &&& s.buffer.current_input@ == Seq::<char>::empty()
                &&& s.buffer.cursor_position == 0
                &&& s.buffer.pending_output@ == Seq::<char>::empty()
                &&& match outcome {
                    Ok(pid) => {
                        &&& s.process == SessionProcess::Attached(
                            ProcessHandle {
                                pid,
                                command: args.command,
                                status: ProcessStatus::Running,
                                cols: 80,
                                rows: 24,
                            },
                        )
                        &&& s.status_spec() == SessionStatus::Running
                        &&& s.buffer.hist_view() == fresh_hist()
                    },
                    Err(e) => {
                        &&& s.process == SessionProcess::Failed(e)
                        &&& s.status_spec() == SessionStatus::Failed(e)
                        &&& s.buffer.hist_view() == push_evict(
                            fresh_hist(),
                            "\u{274c} "@ + spawn_error_text(e),
                        )
                    },
                }
            }),
    {
        let id = self.next_id;
        self.next_id = self.next_id + 1;
        let mut buffer = TerminalState::new();
        let process = match outcome {
            Ok(pid) => SessionProcess::Attached(
                ProcessHandle {
                    pid,
                    command: args.command,
                    status: ProcessStatus::Running,
                    cols: 80,
                    rows: 24,
                },
            ),
            Err(e) => {
                buffer.add_error(spawn_error_message(e));
                SessionProcess::Failed(e)
            },
        };
        let session = Session {
            id,
            buffer,
            process,
            working_directory: args.cwd,
            created_at: now_millis(),
        };
        self.sessions.push(session);
        self.active = Some(id);
        proof {
            assert(final(self).sessions@.drop_last() =~= old(self).sessions@);
            let n = final(self).sessions@.len() as int;
            assert(forall|j: int| 0 <= j < n - 1 ==> final(self).sessions@[j].id != id);
            lemma_find_id_at(final(self).sessions@, id, n - 1);
        }
        id
    }

    /// Ids of all sessions, in creation order.
    pub fn list_sessions(&self) -> (r: Vec<u64>)
        ensures
            r@.len() == self.sessions@.len(),
            forall|i: int| 0 <= i < r@.len() ==> r@[i] == self.sessions@[i].id,
    {
        let mut r: Vec<u64> = Vec::new();
        let mut i: usize = 0;
        while i < self.sessions.len()
            invariant
                i <= self.sessions@.len(),
                r@.len() == i,
                forall|j: int| 0 <= j < i ==> r@[j] == self.sessions@[j].id,
            decreases self.sessions@.len() - i,
        {
            r.push(self.sessions[i].id);
            i = i + 1;
        }
        r
    }

    /// The foregrounded session's id, if any.
    pub fn active_session(&self) -> (r: Option<u64>)
        ensures
            r == self.active,
    {
        self.active
    }

    /// Index of the session carrying `id`.
    fn index_of(&self, id: u64) -> (r: Option<usize>)
        ensures
            match r {
                Some(i) => i == find_id(self.sessions@, id),
                None => !has_id(self.sessions@, id),
            },
    {
        let mut i: usize = 0;
        while i < self.sessions.len()
            invariant
                i <= self.sessions@.len(),
                forall|j: int| 0 <= j < i ==> self.sessions@[j].id != id,
            decreases self.sessions@.len() - i,
        {
            if self.sessions[i].id == id {
                proof {
                    lemma_find_id_at(self.sessions@, id, i as int);
                }
                return Some(i);
            }
            i = i + 1;
        }
        proof {
            lemma_find_id(self.sessions@, id);
            if has_id(self.sessions@, id) {
                assert(self.sessions@[find_id(self.sessions@, id)].id == id);
            }
        }
        None
    }

    /// The status of the session carrying `id`, if it exists.
    pub fn session_status(&self, id: u64) -> (r: Option<SessionStatus>)
        ensures
            has_id(self.sessions@, id) ==> r == Some(
                self.sessions@[find_id(self.sessions@, id)].status_spec(),
            ),
            !has_id(self.sessions@, id) ==> r == None::<SessionStatus>,
    {
        match self.index_of(id) {
            Some(i) => {
                proof {
                    lemma_find_id(self.sessions@, id);
                }
                Some(self.sessions[i].status())
            },
            None => None,
        }
    }

    /// A render view of the session's buffer, if the session exists.
    pub fn session_snapshot(&self, id: u64) -> (r: Option<BufferView>)
        ensures
            has_id(self.sessions@, id) ==> {
                let b = self.sessions@[find_id(self.sessions@, id)].buffer;
                match r {
                    Some(v) => {
                        &&& v.lines@.len() == b.history@.len()
                        &&& forall|i: int| 0 <= i < b.history@.len() ==> v.lines@[i]@ == b.history@[i]@
                        &&& v.current_input@ == b.current_input@
                        &&& v.cursor_position == b.cursor_position
                        &&& v.pending_output@ == b.pending_output@
                    },
                    None => false,
                }
            },
            !has_id(self.sessions@, id) ==> r matches None,
    {
        match self.index_of(id) {
            Some(i) => {
                proof {
                    lemma_find_id(self.sessions@, id);
                }
                Some(self.sessions[i].buffer.snapshot())
            },
            None => None,
        }
    }

    /// Foregrounds the session carrying `id`. Switching never touches any
    /// session's buffer or process: every session keeps running and
    /// accumulating output.
    pub fn set_active(&mut self, id: u64) -> (r: Result<(), WarpError>)
        requires
            old(self).wf(),
        ensures
            final(self).wf(),
            final(self).sessions@ == old(self).sessions@,
            final(self).next_id == old(self).next_id,
            has_id(old(self).sessions@, id) ==> final(self).active == Some(id) && r == Ok::<
                (),
                WarpError,
            >(()),
            !has_id(old(self).sessions@, id) ==> final(self).active == old(self).active && (
            r matches Err(e) && e matches WarpError::TerminalError(m) && m@ == "Session not found"@),
    {
        match self.index_of(id) {
            Some(_) => {
                self.active = Some(id);
                Ok(())
            },
            None => Err(WarpError::TerminalError("Session not found".to_owned())),
        }
    }

    /// Closes the session carrying `id`. A still-running process must be
    /// killed (and reaped) by the caller, which the outcome demands; an
    /// already-done session is removed immediately; an unknown id is a
    /// no-op. If the closed session was foregrounded, nothing is active
    /// afterwards.
    pub fn close_session(&mut self, id: u64) -> (r: CloseOutcome)
        requires
            old(self).wf(),
        ensures
            final(self).wf(),
            final(self).next_id == old(self).next_id,
            !has_id(old(self).sessions@, id) ==> {
                &&& final(self).sessions@ == old(self).sessions@
                &&& final(self).active == old(self).active
                &&& r == CloseOutcome::NotFound
            },
            has_id(old(self).sessions@, id) ==> {
                let i = find_id(old(self).sessions@, id);
                &&& final(self).sessions@ == old(self).sessions@.remove(i)
                &&& !has_id(final(self).sessions@, id)
                &&& final(self).active == (if old(self).active == Some(id) {
                    None
                } else {
                    old(self).active
                })
                &&& (old(self).sessions@[i].status_spec() == SessionStatus::Running ==> (
                old(self).sessions@[i].process matches SessionProcess::Attached(h) && r
                    == CloseOutcome::Kill { pid: h.pid }))
                &&& (old(self).sessions@[i].status_spec() != SessionStatus::Running ==> r
                    == CloseOutcome::Removed)
            },
    {
        match self.index_of(id) {
            Some(i) => {
                let ghost iold = i as int;
                proof {
                    lemma_find_id(old(self).sessions@, id);
                }
                let session = self.sessions.remove(i);
                proof {
                    lemma_find_id(old(self).sessions@, id);
                    assert forall|j: int| 0 <= j < self.sessions@.len() implies self.sessions@[j].id
                        != id by {
                        if j < iold {
                            assert(self.sessions@[j] == old(self).sessions@[j]);
                        } else {
                            assert(self.sessions@[j] == old(self).sessions@[j + 1]);
                        }
                    }
                    lemma_find_id(self.sessions@, id);
                    if has_id(self.sessions@, id) {
                        assert(self.sessions@[find_id(self.sessions@, id)].id == id);
                    }
                }
                let was_active = match self.active {
                    Some(aid) => aid == id,
                    None => false,
                };
                if was_active {
                    self.active = None;
                } else {
                    proof {
                        if let Some(aid) = self.active {
                            lemma_find_id(old(self).sessions@, aid);
                            let k = find_id(old(self).sessions@, aid);
                            if k < iold {
                                lemma_has_id_witness(self.sessions@, aid, k);
                            } else {
                                assert(old(self).sessions@[k] == self.sessions@[k - 1]);
                                lemma_has_id_witness(self.sessions@, aid, k - 1);
                            }
                        }
                    }
                }
                match &session.process {
                    SessionProcess::Attached(h) => match h.status {
                        ProcessStatus::Running => CloseOutcome::Kill { pid: h.pid },
                        _ => CloseOutcome::Removed,
                    },
                    SessionProcess::Failed(_) => CloseOutcome::Removed,
                }
            },
            None => CloseOutcome::NotFound,
        }
    }

    /// Hands a chunk of process output to the session carrying `id`; output
    /// for an unknown id — a race with a just-closed session — is dropped.
    pub fn route_output(&mut self, id: u64, bytes: &[u8])
        requires
            old(self).wf(),
        ensures
            final(self).wf(),
            final(self).next_id == old(self).next_id,
            final(self).active == old(self).active,
            final(self).sessions@.len() == old(self).sessions@.len(),
            !has_id(old(self).sessions@, id) ==> final(self).sessions@ == old(self).sessions@,
            has_id(old(self).sessions@, id) ==> {
                let i = find_id(old(self).sessions@, id);
                let b0 = old(self).sessions@[i].buffer;
                let b1 = final(self).sessions@[i].buffer;
                let stepped = output_step(b0.hist_view(), b0.pending_output@, lossy_decode_of(bytes@));
                &&& forall|j: int|
                    0 <= j < old(self).sessions@.len() && j != i ==> final(self).sessions@[j]
                        == old(self).sessions@[j]
                &&& b1.hist_view() == stepped.0
                &&& b1.pending_output@ == stepped.1
                &&& b1.current_input@ == b0.current_input@
                &&& b1.cursor_position == b0.cursor_position
                &&& final(self).sessions@[i].id == old(self).sessions@[i].id
                &&& final(self).sessions@[i].process == old(self).sessions@[i].process
                &&& valid_utf8(bytes@) ==> lossy_decode_of(bytes@) == decode_utf8(bytes@)
            },
    {
        match self.index_of(id) {
            Some(i) => {
                proof {
                    lemma_find_id(old(self).sessions@, id);
                }
                let mut session = self.sessions.remove(i);
                session.buffer.append_output(bytes);
                self.sessions.insert(i, session);
                proof {
                    let ghost iold = i as int;
                    assert(final(self).sessions@ =~= old(self).sessions@.update(
                        iold,
                        final(self).sessions@[iold],
                    ));
                    lemma_find_id(old(self).sessions@, id);
                    if let Some(aid) = self.active {
                        lemma_find_id(old(self).sessions@, aid);
                        let k = find_id(old(self).sessions@, aid);
                        lemma_has_id_witness(self.sessions@, aid, k);
                    }
                }
            },
            None => {},
        }
    }

    /// Records that the process of the session carrying `id` exited with
    /// `code`; its buffer stays readable. An unknown id is dropped.
    pub fn route_exit(&mut self, id: u64, code: i32)
        requires
            old(self).wf(),
        ensures
            final(self).wf(),
            final(self).next_id == old(self).next_id,
            final(self).active == old(self).active,
            final(self).sessions@.len() == old(self).sessions@.len(),
            !has_id(old(self).sessions@, id) ==> final(self).sessions@ == old(self).sessions@,
            has_id(old(self).sessions@, id) ==> {
                let i = find_id(old(self).sessions@, id);
                &&& forall|j: int|
                    0 <= j < old(self).sessions@.len() && j != i ==> final(self).sessions@[j]
                        == old(self).sessions@[j]
                &&& final(self).sessions@[i].id == old(self).sessions@[i].id
                &&& final(self).sessions@[i].buffer == old(self).sessions@[i].buffer
                &&& final(self).sessions@[i].process == (match old(self).sessions@[i].process {
                    SessionProcess::Attached(h) => SessionProcess::Attached(
                        ProcessHandle { status: ProcessStatus::Exited(code), ..h },
                    ),
                    SessionProcess::Failed(e) => SessionProcess::Failed(e),
                })
            },
    {
        match self.index_of(id) {
            Some(i) => {
                proof {
                    lemma_find_id(old(self).sessions@, id);
                }
                let mut session = self.sessions.remove(i);
                session.process = match session.process {
                    SessionProcess::Attached(mut h) => {
                        h.status = ProcessStatus::Exited(code);
                        SessionProcess::Attached(h)
                    },
                    SessionProcess::Failed(e) => SessionProcess::Failed(e),
                };
                self.sessions.insert(i, session);
                proof {
                    let ghost iold = i as int;
                    assert(final(self).sessions@ =~= old(self).sessions@.update(
                        iold,
                        final(self).sessions@[iold],
                    ));
                    lemma_find_id(old(self).sessions@, id);
                    if let Some(aid) = self.active {
                        lemma_find_id(old(self).sessions@, aid);
                        let k = find_id(old(self).sessions@, aid);
                        lemma_has_id_witness(self.sessions@, aid, k);
                    }
                }
            },
            None => {},
        }
    }
}

impl SessionMultiplexer {
    /// Index of the foregrounded session, or `-1` when nothing is active.
    pub open spec fn active_index(self) -> int {
        match self.active {
            Some(id) => find_id(self.sessions@, id),
            None => -1,
        }
    }

    /// Applies one edit to the foregrounded session's input line; with no
    /// active session nothing changes.
    pub fn edit_active_buffer(&mut self, op: EditOp)
        requires
            old(self).wf(),
        ensures
            final(self).wf(),
            final(self).next_id == old(self).next_id,
            final(self).active == old(self).active,
            old(self).active is None ==> final(self).sessions@ == old(self).sessions@,
            old(self).active is Some ==> {
                let i = old(self).active_index();
                &&& final(self).sessions@.len() == old(self).sessions@.len()
                &&& forall|j: int|
                    0 <= j < old(self).sessions@.len() && j != i ==> final(self).sessions@[j]
                        == old(self).sessions@[j]
                &&& final(self).sessions@[i].id == old(self).sessions@[i].id
                &&& final(self).sessions@[i].process == old(self).sessions@[i].process
                &&& edit_applied(
                    old(self).sessions@[i].buffer,
                    final(self).sessions@[i].buffer,
                    op,
                )
            },
    {
        let aid = match self.active {
            Some(aid) => aid,
            None => { return ; },
        };
        let i = match self.index_of(aid) {
            Some(i) => i,
            None => { return ; },
        };
        proof {
            lemma_find_id(old(self).sessions@, aid);
        }
        let mut session = self.sessions.remove(i);
        session.buffer.apply_edit(op);
        self.sessions.insert(i, session);
        proof {
            let iold = i as int;
            assert(final(self).sessions@ =~= old(self).sessions@.update(
                iold,
                final(self).sessions@[iold],
            ));
            lemma_has_id_witness(self.sessions@, aid, iold);
        }
    }

    /// Pastes text into the foregrounded session's input line.
    pub fn paste_into_active(&mut self, s: &str)
        requires
            old(self).wf(),
        ensures
            final(self).wf(),
            final(self).next_id == old(self).next_id,
            final(self).active == old(self).active,
            old(self).active is None ==> final(self).sessions@ == old(self).sessions@,
            old(self).active is Some ==> {
                let i = old(self).active_index();
                &&& final(self).sessions@.len() == old(self).sessions@.len()
                &&& forall|j: int|
                    0 <= j < old(self).sessions@.len() && j != i ==> final(self).sessions@[j]
                        == old(self).sessions@[j]
                &&& final(self).sessions@[i].id == old(self).sessions@[i].id
                &&& final(self).sessions@[i].process == old(self).sessions@[i].process
                &&& paste_applied(
                    old(self).sessions@[i].buffer,
                    final(self).sessions@[i].buffer,
                    s@,
                )
            },
    {
        let aid = match self.active {
            Some(aid) => aid,
            None => { return ; },
        };
        let i = match self.index_of(aid) {
            Some(i) => i,
            None => { return ; },
        };
        proof {
            lemma_find_id(old(self).sessions@, aid);
        }
        let mut session = self.sessions.remove(i);
        session.buffer.insert_text(s);
        self.sessions.insert(i, session);
        proof {
            let iold = i as int;
            assert(final(self).sessions@ =~= old(self).sessions@.update(
                iold,
                final(self).sessions@[iold],
            ));
            lemma_has_id_witness(self.sessions@, aid, iold);
        }
    }

    /// Submits the foregrounded session's input line. A non-blank line is
    /// handed back together with the session id and, when the process is
    /// still running, its pid; the line is echoed into the history and the
    /// input is cleared in the same step. A blank line, or no active
    /// session, submits nothing and changes nothing.
    pub fn submit_active(&mut self) -> (r: Option<(u64, String, Option<u32>)>)
        requires
            old(self).wf(),
        ensures
            final(self).wf(),
            final(self).next_id == old(self).next_id,
            final(self).active == old(self).active,
            old(self).active is None ==> final(self).sessions@ == old(self).sessions@ && r
                == None::<(u64, String, Option<u32>)>,
            old(self).active is Some ==> {
                let i = old(self).active_index();
                let b0 = old(self).sessions@[i].buffer;
                &&& (is_blank(b0.current_input@) ==> final(self).sessions@ == old(self).sessions@
                    && r == None::<(u64, String, Option<u32>)>)
                &&& (!is_blank(b0.current_input@) ==> {
                    let b1 = final(self).sessions@[i].buffer;
                    &&& final(self).sessions@.len() == old(self).sessions@.len()
                    &&& forall|j: int|
                        0 <= j < old(self).sessions@.len() && j != i ==> final(self).sessions@[j]
                            == old(self).sessions@[j]
                    &&& final(self).sessions@[i].id == old(self).sessions@[i].id
                    &&& final(self).sessions@[i].process == old(self).sessions@[i].process
                    &&& r matches Some(t) && t.0 == old(self).sessions@[i].id && t.1
                        == b0.current_input && t.2 == (match old(self).sessions@[i].process {
                        SessionProcess::Attached(h) => if h.status == ProcessStatus::Running {
                            Some(h.pid)
                        } else {
                            None
                        },
                        SessionProcess::Failed(_) => None,
                    })
                    &&& b1.current_input@ == Seq::<char>::empty()
                    &&& b1.cursor_position == 0
                    &&& b1.hist_view() == push_evict(
                        b0.hist_view(),
                        "\u{276f} "@ + b0.current_input@,
                    )
                    &&& b1.pending_output@ == b0.pending_output@
                })
            },
    {
        let aid = match self.active {
            Some(aid) => aid,
            None => { return None; },
        };
        let i = match self.index_of(aid) {
            Some(i) => i,
            None => { return None; },
        };
        proof {
            lemma_find_id(old(self).sessions@, aid);
        }
        let mut session = self.sessions.remove(i);
        let submitted = session.buffer.submit_input();
        let r = match submitted {
            Some(text) => {
                let mut echo = "\u{276f} ".to_owned();
                echo.append(text.as_str());
                session.buffer.add_history_entry(echo);
                let pid = match &session.process {
                    SessionProcess::Attached(h) => match h.status {
                        ProcessStatus::Running => Some(h.pid),
                        _ => None,
                    },
                    SessionProcess::Failed(_) => None,
                };
                Some((session.id, text, pid))
            },
            None => None,
        };
        self.sessions.insert(i, session);
        proof {
            let iold = i as int;
            assert(final(self).sessions@ =~= old(self).sessions@.update(
                iold,
                final(self).sessions@[iold],
            ));
            if r is None {
                assert(final(self).sessions@ =~= old(self).sessions@);
            }
            lemma_has_id_witness(self.sessions@, aid, iold);
        }
        r
    }

    /// Records the new terminal size on every session that has a process
    /// record, active or not, so hidden tabs stay consistent; returns the
    /// pids of the running sessions, in order, for the caller to signal.
    pub fn set_all_sizes(&mut self, cols: u16, rows: u16) -> (pids: Vec<u32>)
        requires
            old(self).wf(),
        ensures
            final(self).wf(),
            final(self).next_id == old(self).next_id,
            final(self).active == old(self).active,
            final(self).sessions@.len() == old(self).sessions@.len(),
            forall|i: int|
                0 <= i < old(self).sessions@.len() ==> #[trigger] final(self).sessions@[i]
                    == session_resized(old(self).sessions@[i], cols, rows),
            pids@ == running_pids_of(old(self).sessions@),
    {
        let ghost s0 = old(self).sessions@;
        let mut pids: Vec<u32> = Vec::new();
        let mut i: usize = 0;
        proof {
            assert(running_pids_of(s0.take(0)) =~= Seq::<u32>::empty());
        }
        while i < self.sessions.len()
            invariant
                i <= s0.len(),
                self.sessions@.len() == s0.len(),
                self.active == old(self).active,
                self.next_id == old(self).next_id,
                forall|j: int|
                    0 <= j < i ==> #[trigger] self.sessions@[j] == session_resized(
                        s0[j],
                        cols,
                        rows,
                    ),
                forall|j: int| i <= j < s0.len() ==> #[trigger] self.sessions@[j] == s0[j],
                pids@ == running_pids_of(s0.take(i as int)),
            decreases s0.len() - i,
        {
            proof {
                assert(s0.take(i + 1).drop_last() =~= s0.take(i as int));
                assert(s0.take(i + 1).last() == s0[i as int]);
            }
            let mut session = self.sessions.remove(i);
            match &mut session.process {
                SessionProcess::Attached(h) => {
                    h.cols = cols;
                    h.rows = rows;
                    match h.status {
                        ProcessStatus::Running => {
                            pids.push(h.pid);
                        },
                        _ => {},
                    }
                },
                SessionProcess::Failed(_) => {},
            }
            self.sessions.insert(i, session);
            proof {
                assert(self.sessions@[i as int] == session_resized(s0[i as int], cols, rows));
            }
            i = i + 1;
        }
        proof {
            assert(s0.take(s0.len() as int) =~= s0);
            let post = final(self).sessions@;
            assert forall|j: int| 0 <= j < post.len() implies post[j].id == s0[j].id by {}
            if let Some(aid) = self.active {
                lemma_find_id_same_ids(s0, post, aid);
                lemma_find_id(s0, aid);
            }
        }
        pids
    }
}

/// `s` with its process record, if any, carrying the new terminal size.
pub open spec fn session_resized(s: Session, cols: u16, rows: u16) -> Session {
    match s.process {
        SessionProcess::Attached(h) => Session {
            process: SessionProcess::Attached(ProcessHandle { cols, rows, ..h }),
            ..s
        },
        SessionProcess::Failed(_) => s,
    }
}

/// Recording the same size twice leaves every session exactly as recording
/// it once does: the resize broadcast is idempotent.
pub proof fn lemma_session_resize_idempotent(s: Session, cols: u16, rows: u16)
    ensures
        session_resized(session_resized(s, cols, rows), cols, rows) == session_resized(
            s,
            cols,
            rows,
        ),
{
}

/// The pids of the sessions whose process is running, in session order.
pub open spec fn running_pids_of(s: Seq<Session>) -> Seq<u32>
    decreases s.len(),
{
    if s.len() == 0 {
        Seq::<u32>::empty()
    } else {
        let rest = running_pids_of(s.drop_last());
        match s.last().process {
            SessionProcess::Attached(h) => if h.status == ProcessStatus::Running {
                rest + seq![h.pid]
            } else {
                rest
            },
            SessionProcess::Failed(_) => rest,
        }
    }
}

/// Two session lists with equal ids position by position agree on `find_id`.
pub proof fn lemma_find_id_same_ids(a: Seq<Session>, b: Seq<Session>, id: u64)
    requires
        a.len() == b.len(),
        forall|i: int| 0 <= i < a.len() ==> a[i].id == b[i].id,
    ensures
        find_id(a, id) == find_id(b, id),
    decreases a.len(),
{
    if a.len() > 0 {
        assert(a[0].id == b[0].id);
        assert forall|i: int| 0 <= i < a.drop_first().len() implies a.drop_first()[i].id
            == b.drop_first()[i].id by {
            assert(a.drop_first()[i] == a[i + 1]);
            assert(b.drop_first()[i] == b[i + 1]);
        }
        lemma_find_id_same_ids(a.drop_first(), b.drop_first(), id);
    }
}

/// If some position holds `id`, the sequence has `id`.
pub proof fn lemma_has_id_witness(s: Seq<Session>, id: u64, i: int)
    requires
        0 <= i < s.len(),
        s[i].id == id,
    ensures
        has_id(s, id),
    decreases s.len(),
{
    if s[0].id != id {
        lemma_has_id_witness(s.drop_first(), id, i - 1);
    }
}

/// The inline message a failed spawn leaves in its tab.
pub open spec fn spawn_error_text(e: SpawnError) -> Seq<char> {
    match e {
        SpawnError::NotFound => "Failed to spawn: command not found"@,
        SpawnError::PermissionDenied => "Failed to spawn: permission denied"@,
        SpawnError::ResourceExhausted => "Failed to spawn: no pseudo-terminal available"@,
    }
}

/// Builds the inline message for a spawn failure.
pub fn spawn_error_message(e: SpawnError) -> (r: String)
    ensures
        r@ == spawn_error_text(e),
{
    match e {
        SpawnError::NotFound => "Failed to spawn: command not found".to_owned(),
        SpawnError::PermissionDenied => "Failed to spawn: permission denied".to_owned(),
        SpawnError::ResourceExhausted => "Failed to spawn: no pseudo-terminal available".to_owned(),
    }
}

} // verus!
