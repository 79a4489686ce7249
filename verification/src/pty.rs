//! Bookkeeping for pseudo-terminal-backed child processes.
//!
//! The engine records what it knows of each child — its pid, command,
//! recorded terminal size and status — and decides; the surrounding
//! application performs the actual spawning, signalling and reaping and
//! reports the outcomes back.

use vstd::prelude::*;

use crate::error::WarpError;

verus! {

/// What the engine knows of one child process's state.
#[derive(Clone, Copy, Debug, PartialEq, Eq, Structural)]
pub enum ProcessStatus {
    /// Alive as far as the engine knows.
    Running,
    /// Exited on its own with this code.
    Exited(i32),
    /// A terminate/kill was issued for it.
    Killed,
}

/// The engine's record of one spawned child behind a pseudo-terminal.
pub struct ProcessHandle {
    /// OS process id, as reported at spawn time.
    pub pid: u32,
    /// The command that was spawned.
    pub command: String,
    /// Last known status.
    pub status: ProcessStatus,
    /// Terminal width last set for the child.
    pub cols: u16,
    /// Terminal height last set for the child.
    pub rows: u16,
}

/// `ps` with the handle at `id` re-sized; everything else untouched.
pub open spec fn resized_view(ps: Seq<ProcessHandle>, id: int, cols: u16, rows: u16) -> Seq<
    ProcessHandle,
> {
    ps.update(id, ProcessHandle { cols, rows, ..ps[id] })
}

/// Resizing is idempotent: applying the same size twice leaves exactly the
/// state one application leaves, so the child sees the same terminal size.
pub proof fn lemma_resize_idempotent(ps: Seq<ProcessHandle>, id: int, cols: u16, rows: u16)
    requires
        0 <= id < ps.len(),
    ensures
        resized_view(resized_view(ps, id, cols, rows), id, cols, rows) == resized_view(
            ps,
            id,
            cols,
            rows,
        ),
{
    assert(resized_view(resized_view(ps, id, cols, rows), id, cols, rows) =~= resized_view(
        ps,
        id,
        cols,
        rows,
    ));
}

/// Tracks every child the engine spawned and which one is in the foreground.
pub struct PtyManager {
    /// One record per spawned child, in spawn order.
    pub processes: Vec<ProcessHandle>,
    /// Index of the foregrounded child, if any.
    pub active_process: Option<usize>,
}

impl PtyManager {
    /// The foreground index, when present, names a real record.
    pub open spec fn wf(self) -> bool {
        match self.active_process {
            Some(i) => i < self.processes@.len(),
            None => true,
        }
    }

    /// An empty pool: nothing spawned, nothing active.
    pub fn new() -> (r: Self)
        ensures
            r.wf(),
            r.processes@.len() == 0,
            r.active_process == None::<usize>,
    {
        PtyManager { processes: Vec::new(), active_process: None }
    }

    /// Records a spawn the application performed: the new child enters the
    /// pool in `Running` state with the conventional 80x24 size and becomes
    /// the active process. Returns its pool id.
    pub fn register_spawn(&mut self, pid: u32, command: String) -> (id: usize)
        requires
            old(self).wf(),
            old(self).processes@.len() < usize::MAX,
        ensures
            final(self).wf(),
            id == old(self).processes@.len(),
            final(self).processes@ == old(self).processes@.push(
                ProcessHandle { pid, command, status: ProcessStatus::Running, cols: 80, rows: 24 },
            ),
            final(self).active_process == Some(id),
    {
        let id = self.processes.len();
        self.processes.push(
            ProcessHandle { pid, command, status: ProcessStatus::Running, cols: 80, rows: 24 },
        );
        self.active_process = Some(id);
        id
    }

    /// The pool id of the foregrounded child, if any.
    pub fn get_active_process_id(&self) -> (r: Option<usize>)
        ensures
            r == self.active_process,
    {
        self.active_process
    }

    /// Foregrounds the child at `process_id`; an unknown id changes nothing.
    /// Never an error.
    pub fn switch_to_process(&mut self, process_id: usize) -> (r: Result<(), WarpError>)
        requires
            old(self).wf(),
        ensures
            final(self).wf(),
            final(self).processes@ == old(self).processes@,
            process_id < old(self).processes@.len() ==> final(self).active_process == Some(
                process_id,
            ),
            process_id >= old(self).processes@.len() ==> final(self).active_process == old(
                self,
            ).active_process,
            r == Ok::<(), WarpError>(()),
    {
        if process_id < self.processes.len() {
            self.active_process = Some(process_id);
        }
        Ok(())
    }

    /// Records the terminal size for the child at `id`. Recording the same
    /// size twice leaves the same state as recording it once (see
    /// [`lemma_resize_idempotent`]); the caller issues the actual resize
    /// signal to a `Running` child whenever this returns `Ok`.
    pub fn resize(&mut self, id: usize, cols: u16, rows: u16) -> (r: Result<(), crate::error::IoError>)
        requires
            old(self).wf(),
        ensures
            final(self).wf(),
            final(self).active_process == old(self).active_process,
            id < old(self).processes@.len() ==> {
                &&& final(self).processes@ == resized_view(
                    old(self).processes@,
                    id as int,
                    cols,
                    rows,
                )
                &&& r == Ok::<(), crate::error::IoError>(())
            },
            id >= old(self).processes@.len() ==> {
                &&& final(self).processes@ == old(self).processes@
                &&& r == Err::<(), crate::error::IoError>(crate::error::IoError::Closed)
            },
    {
        if id < self.processes.len() {
            let mut h = self.processes.remove(id);
            h.cols = cols;
            h.rows = rows;
            self.processes.insert(id, h);
            proof {
                assert(self.processes@ =~= resized_view(
                    old(self).processes@,
                    id as int,
                    cols,
                    rows,
                ));
            }
            Ok(())
        } else {
            Err(crate::error::IoError::Closed)
        }
    }

    /// Records that the child at `id` exited on its own with `code`.
    pub fn mark_exited(&mut self, id: usize, code: i32)
        requires
            old(self).wf(),
            id < old(self).processes@.len(),
        ensures
            final(self).wf(),
            final(self).active_process == old(self).active_process,
            final(self).processes@ == old(self).processes@.update(
                id as int,
                ProcessHandle { status: ProcessStatus::Exited(code), ..old(self).processes@[id as int] },
            ),
    {
        let mut h = self.processes.remove(id);
        h.status = ProcessStatus::Exited(code);
        self.processes.insert(id, h);
        proof {
            assert(self.processes@ =~= old(self).processes@.update(
                id as int,
                ProcessHandle {
                    status: ProcessStatus::Exited(code),
                    ..old(self).processes@[id as int]
                },
            ));
        }
    }

    /// Marks the child at `process_id` as killed; the caller must deliver
    /// the terminate signal and reap it. An unknown id changes nothing.
    /// Never an error, matching the pool's lenient kill.
    pub fn kill_process(&mut self, process_id: usize) -> (r: Result<(), WarpError>)
        requires
            old(self).wf(),
        ensures
            final(self).wf(),
            final(self).active_process == old(self).active_process,
            process_id < old(self).processes@.len() ==> final(self).processes@ == old(
                self,
            ).processes@.update(
                process_id as int,
                ProcessHandle {
                    status: ProcessStatus::Killed,
                    ..old(self).processes@[process_id as int]
                },
            ),
            process_id >= old(self).processes@.len() ==> final(self).processes@ == old(
                self,
            ).processes@,
            r == Ok::<(), WarpError>(()),
    {
        if process_id < self.processes.len() {
            let mut h = self.processes.remove(process_id);
            h.status = ProcessStatus::Killed;
            self.processes.insert(process_id, h);
            proof {
                assert(self.processes@ =~= old(self).processes@.update(
                    process_id as int,
                    ProcessHandle {
                        status: ProcessStatus::Killed,
                        ..old(self).processes@[process_id as int]
                    },
                ));
            }
        }
        Ok(())
    }

    /// Kills and removes the active child, if any; the caller delivers the
    /// signal and reaps. Afterwards nothing is active.
    pub fn terminate(&mut self) -> (r: Result<(), WarpError>)
        requires
            old(self).wf(),
        ensures
            final(self).wf(),
            final(self).active_process == None::<usize>,
            match old(self).active_process {
                Some(i) => final(self).processes@ == old(self).processes@.remove(i as int),
                None => final(self).processes@ == old(self).processes@,
            },
            r == Ok::<(), WarpError>(()),
    {
        if let Some(i) = self.active_process {
            self.processes.remove(i);
        }
        self.active_process = None;
        Ok(())
    }
}

} // verus!
