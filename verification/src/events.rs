//! The event-loop core: one step function that takes the next merged event —
//! OS input, process output, a resize, a quit — dispatches it to the router
//! and the multiplexer, and returns the outward actions for the surrounding
//! application to perform, ending with exactly one render pass per event.

use vstd::prelude::*;
use vstd::utf8::encode_utf8;

use crate::input::{
    route_key, Action, ActionView, AppCommand, ControlSignal, InputRouter, KeyPress,
};
use crate::multiplexer::{
    find_id, has_id, running_pids_of, session_resized, CloseOutcome, SessionMultiplexer,
    SessionProcess,
};
use crate::pty::ProcessStatus;
use crate::screen::{edit_applied, is_blank, output_step, paste_applied, push_evict};
use crate::text::lossy_decode_of;

verus! {

/// An event as the loop's merged sources deliver it.
pub enum InputEvent {
    /// A key from the OS terminal.
    KeyPress(KeyPress),
    /// Pasted text.
    Paste(String),
    /// The surrounding terminal changed size.
    Resize { cols: u16, rows: u16 },
    /// A chunk a reader task pulled from one session's pseudo-terminal.
    ProcessOutput { session: u64, bytes: Vec<u8> },
    /// A reader task observed the session's process exit.
    ProcessExited { session: u64, code: i32 },
    /// The user asked to close one session (tab).
    CloseSession { session: u64 },
    /// An explicit quit.
    Quit,
}

/// An event published on the bus for outside observers of the UI.
#[derive(Clone, Debug, PartialEq)]
pub enum UIEvent {
    PtyOutput(String),
    CommandExecuted(String),
    AIQuery(String),
    ThemeChanged(String),
    Resize(u16, u16),
}

/// What the application must do after a step: everything the engine itself
/// cannot, because it would be I/O.
pub enum OutputAction {
    /// Write these bytes to the pseudo-terminal of the process `pid`.
    WriteToPty { pid: u32, bytes: Vec<u8> },
    /// Deliver this control key to the process `pid` (as a byte or signal).
    Signal { pid: u32, sig: ControlSignal },
    /// Terminate `pid` with a grace period, force-kill after it, and reap.
    KillProcess { pid: u32 },
    /// Issue the resize ioctl and window-change signal for `pid`.
    ResizePty { pid: u32, cols: u16, rows: u16 },
    /// Publish a submitted command line on the event bus.
    PublishSubmitted { session: u64, text: String },
    /// Carry out a bound application command (new tab, copy, ...).
    AppRequest(AppCommand),
    /// Draw every visible buffer once.
    Render,
}

/// The mathematical form of an [`OutputAction`].
pub enum OutputActionView {
    WriteToPty { pid: u32, bytes: Seq<u8> },
    Signal { pid: u32, sig: ControlSignal },
    KillProcess { pid: u32 },
    ResizePty { pid: u32, cols: u16, rows: u16 },
    PublishSubmitted { session: u64, text: Seq<char> },
    AppRequest(AppCommand),
    Render,
}

impl View for OutputAction {
    type V = OutputActionView;

    open spec fn view(&self) -> OutputActionView {
        match self {
            OutputAction::WriteToPty { pid, bytes } => OutputActionView::WriteToPty {
                pid: *pid,
                bytes: bytes@,
            },
            OutputAction::Signal { pid, sig } => OutputActionView::Signal {
                pid: *pid,
                sig: *sig,
            },
            OutputAction::KillProcess { pid } => OutputActionView::KillProcess { pid: *pid },
            OutputAction::ResizePty { pid, cols, rows } => OutputActionView::ResizePty {
                pid: *pid,
                cols: *cols,
                rows: *rows,
            },
            OutputAction::PublishSubmitted { session, text } => OutputActionView::PublishSubmitted {
                session: *session,
                text: text@,
            },
            OutputAction::AppRequest(cmd) => OutputActionView::AppRequest(*cmd),
            OutputAction::Render => OutputActionView::Render,
        }
    }
}

/// The views of the returned actions.
pub open spec fn action_views(a: Seq<OutputAction>) -> Seq<OutputActionView> {
    a.map_values(|x: OutputAction| x@)
}

/// Exactly one render, and it comes last: however many events queued up
/// between renders, each step coalesces its work into a single render pass.
pub open spec fn renders_once(a: Seq<OutputActionView>) -> bool {
    &&& a.len() >= 1
    &&& a.last() == OutputActionView::Render
    &&& forall|i: int| 0 <= i < a.len() - 1 ==> a[i] != OutputActionView::Render
}

/// The single coordinating task's state: the sessions, the router, and
/// whether the loop is shutting down.
pub struct EventLoop {
    /// All sessions and the foregrounded one.
    pub mux: SessionMultiplexer,
    /// Classifies key input.
    pub router: InputRouter,
    /// Whether closing the last session ends the application.
    pub exit_on_empty: bool,
    /// Terminal state of the loop: set by a quit event, or by closing the
    /// last session when so configured.
    pub shutting_down: bool,
}

impl EventLoop {
    pub open spec fn wf(self) -> bool {
        self.mux.wf()
    }

    /// A loop over the given multiplexer and router, not yet shutting down.
    pub fn new(mux: SessionMultiplexer, router: InputRouter, exit_on_empty: bool) -> (r: Self)
        requires
            mux.wf(),
        ensures
            r.wf(),
            r.mux == mux,
            r.router == router,
            r.exit_on_empty == exit_on_empty,
            !r.shutting_down,
    {
        EventLoop { mux, router, exit_on_empty, shutting_down: false }
    }

    /// Dispatches one event and returns the outward actions, ending with
    /// exactly one render. Key presses go through the router; process
    /// events go to their session; a resize reaches every session; a quit,
    /// or closing the last session when configured so, shuts the loop down.
    pub fn step(&mut self, ev: InputEvent) -> (actions: Vec<OutputAction>)
        requires
            old(self).wf(),
        ensures
            final(self).wf(),
            final(self).router == old(self).router,
            final(self).exit_on_empty == old(self).exit_on_empty,
            renders_once(action_views(actions@)),
            match ev {
                InputEvent::KeyPress(k) => final(self).shutting_down == old(self).shutting_down
                    && key_step_ok(*old(self), *final(self), k, action_views(actions@)),
                InputEvent::Paste(s) => {
                    &&& final(self).shutting_down == old(self).shutting_down
                    &&& final(self).mux.active == old(self).mux.active
                    &&& final(self).mux.next_id == old(self).mux.next_id
                    &&& (old(self).mux.active is None ==> final(self).mux.sessions@ == old(self).mux.sessions@ && action_views(actions@) =~= seq![OutputActionView::Render])
                    &&& (old(self).mux.active is Some ==> {
                        let i = old(self).mux.active_index();
                        &&& final(self).mux.sessions@.len() == old(self).mux.sessions@.len()
                        &&& forall|j: int|
                            0 <= j < old(self).mux.sessions@.len() && j != i ==> final(self).mux.sessions@[j] == old(self).mux.sessions@[j]
                        &&& paste_applied(
                            old(self).mux.sessions@[i].buffer,
                            final(self).mux.sessions@[i].buffer,
                            s@,
                        )
                        &&& action_views(actions@) =~= seq![OutputActionView::Render]
                    })
                },
                InputEvent::Resize { cols, rows } => {
                    &&& final(self).shutting_down == old(self).shutting_down
                    &&& final(self).mux.active == old(self).mux.active
                    &&& final(self).mux.next_id == old(self).mux.next_id
                    &&& final(self).mux.sessions@.len() == old(self).mux.sessions@.len()
                    &&& forall|i: int|
                        0 <= i < old(self).mux.sessions@.len() ==> #[trigger] final(self).mux.sessions@[i] == session_resized(old(self).mux.sessions@[i], cols, rows)
                    &&& action_views(actions@) =~= resize_directives(
                        running_pids_of(old(self).mux.sessions@),
                        cols,
                        rows,
                    ).push(OutputActionView::Render)
                },
                InputEvent::ProcessOutput { session, bytes } => {
                    &&& final(self).shutting_down == old(self).shutting_down
                    &&& final(self).mux.active == old(self).mux.active
                    &&& final(self).mux.next_id == old(self).mux.next_id
                    &&& action_views(actions@) =~= seq![OutputActionView::Render]
                    &&& (!has_id(old(self).mux.sessions@, session) ==> final(self).mux.sessions@
                        == old(self).mux.sessions@)
                    &&& (has_id(old(self).mux.sessions@, session) ==> {
                        let i = find_id(old(self).mux.sessions@, session);
                        let b0 = old(self).mux.sessions@[i].buffer;
                        let b1 = final(self).mux.sessions@[i].buffer;
                        let stepped = output_step(
                            b0.hist_view(),
                            b0.pending_output@,
                            lossy_decode_of(bytes@),
                        );
                        &&& forall|j: int|
                            0 <= j < old(self).mux.sessions@.len() && j != i ==> final(self).mux.sessions@[j] == old(self).mux.sessions@[j]
                        &&& b1.hist_view() == stepped.0
                        &&& b1.pending_output@ == stepped.1
                        &&& b1.current_input@ == b0.current_input@
                    })
                },
                InputEvent::ProcessExited { session, code } => {
                    &&& final(self).shutting_down == old(self).shutting_down
                    &&& final(self).mux.active == old(self).mux.active
                    &&& final(self).mux.next_id == old(self).mux.next_id
                    &&& action_views(actions@) =~= seq![OutputActionView::Render]
                    &&& (!has_id(old(self).mux.sessions@, session) ==> final(self).mux.sessions@
                        == old(self).mux.sessions@)
                    &&& (has_id(old(self).mux.sessions@, session) ==> {
                        let i = find_id(old(self).mux.sessions@, session);
                        &&& forall|j: int|
                            0 <= j < old(self).mux.sessions@.len() && j != i ==> final(self).mux.sessions@[j] == old(self).mux.sessions@[j]
                        &&& final(self).mux.sessions@[i].buffer == old(self).mux.sessions@[i].buffer
                        &&& final(self).mux.sessions@[i].status_spec() == (
                        match old(self).mux.sessions@[i].process {
                            SessionProcess::Attached(_) => crate::multiplexer::SessionStatus::Exited(
                                code,
                            ),
                            SessionProcess::Failed(e) => crate::multiplexer::SessionStatus::Failed(
                                e,
                            ),
                        })
                    })
                },
                InputEvent::CloseSession { session } => {
                    &&& final(self).mux.next_id == old(self).mux.next_id
                    &&& (!has_id(old(self).mux.sessions@, session) ==> {
                        &&& final(self).mux.sessions@ == old(self).mux.sessions@
                        &&& final(self).shutting_down == old(self).shutting_down
                        &&& action_views(actions@) =~= seq![OutputActionView::Render]
                    })
                    &&& (has_id(old(self).mux.sessions@, session) ==> {
                        let i = find_id(old(self).mux.sessions@, session);
                        &&& final(self).mux.sessions@ == old(self).mux.sessions@.remove(i)
                        &&& !has_id(final(self).mux.sessions@, session)
                        &&& (old(self).mux.sessions@[i].status_spec()
                            == crate::multiplexer::SessionStatus::Running ==> (
                        old(self).mux.sessions@[i].process matches SessionProcess::Attached(h)
                            && action_views(actions@) =~= seq![
                            OutputActionView::KillProcess { pid: h.pid },
                            OutputActionView::Render,
                        ]))
                        &&& (old(self).mux.sessions@[i].status_spec()
                            != crate::multiplexer::SessionStatus::Running ==> action_views(
                            actions@,
                        ) =~= seq![OutputActionView::Render])
                        &&& final(self).shutting_down == (old(self).shutting_down || (old(self).exit_on_empty && old(self).mux.sessions@.len() == 1))
                    })
                },
                InputEvent::Quit => {
                    &&& final(self).shutting_down
                    &&& final(self).mux.sessions@ == old(self).mux.sessions@
                    &&& final(self).mux.active == old(self).mux.active
                    &&& final(self).mux.next_id == old(self).mux.next_id
                    &&& action_views(actions@) =~= seq![OutputActionView::Render]
                },
            },
    {
        let mut actions: Vec<OutputAction> = Vec::new();
        match ev {
            InputEvent::KeyPress(k) => {
                self.dispatch_key(k, &mut actions);
            },
            InputEvent::Paste(s) => {
                self.mux.paste_into_active(s.as_str());
            },
            InputEvent::Resize { cols, rows } => {
                let pids = self.mux.set_all_sizes(cols, rows);
                let ghost all = running_pids_of(old(self).mux.sessions@);
                let mut i: usize = 0;
                proof {
                    assert(action_views(actions@) =~= resize_directives(all.take(0), cols, rows));
                }
                while i < pids.len()
                    invariant
                        i <= all.len(),
                        pids@ == all,
                        action_views(actions@) =~= resize_directives(all.take(i as int), cols, rows),
                    decreases all.len() - i,
                {
                    proof {
                        assert(all.take(i + 1).drop_last() =~= all.take(i as int));
                    }
                    actions.push(OutputAction::ResizePty { pid: pids[i], cols, rows });
                    proof {
                        assert(action_views(actions@) =~= action_views(
                            actions@.drop_last(),
                        ).push(actions@.last()@));
                    }
                    i = i + 1;
                }
                proof {
                    assert(all.take(all.len() as int) =~= all);
                    lemma_no_render_in_resize(all, cols, rows);
                }
            },
            InputEvent::ProcessOutput { session, bytes } => {
                self.mux.route_output(session, bytes.as_slice());
            },
            InputEvent::ProcessExited { session, code } => {
                self.mux.route_exit(session, code);
            },
            InputEvent::CloseSession { session } => {
                let ghost pre = self.mux.sessions@;
                let outcome = self.mux.close_session(session);
                match outcome {
                    CloseOutcome::Kill { pid } => {
                        actions.push(OutputAction::KillProcess { pid });
                        proof {
                            assert(action_views(actions@) =~= seq![
                                OutputActionView::KillProcess { pid },
                            ]);
                        }
                        if self.exit_on_empty && self.mux.sessions.len() == 0 {
                            self.shutting_down = true;
                        }
                    },
                    CloseOutcome::Removed => {
                        if self.exit_on_empty && self.mux.sessions.len() == 0 {
                            self.shutting_down = true;
                        }
                    },
                    CloseOutcome::NotFound => {},
                }
                proof {
                    if has_id(pre, session) {
                        crate::multiplexer::lemma_find_id(pre, session);
                    }
                }
            },
            InputEvent::Quit => {
                self.shutting_down = true;
            },
        }
        let ghost collected = actions@;
        proof {
            assert(no_render(action_views(collected)));
        }
        actions.push(OutputAction::Render);
        proof {
            let av = action_views(actions@);
            assert(av =~= action_views(collected).push(OutputActionView::Render));
            assert(av.last() == OutputActionView::Render);
            assert forall|i: int| 0 <= i < av.len() - 1 implies av[i] != OutputActionView::Render by {
                assert(av[i] == action_views(collected)[i]);
            }
        }
        actions
    }

    /// Routes a key press and carries its action out on the multiplexer,
    /// collecting the outward actions (without the final render).
    fn dispatch_key(&mut self, k: KeyPress, actions: &mut Vec<OutputAction>)
        requires
            old(self).wf(),
            old(actions)@.len() == 0,
        ensures
            final(self).wf(),
            final(self).router == old(self).router,
            final(self).exit_on_empty == old(self).exit_on_empty,
            final(self).shutting_down == old(self).shutting_down,
            key_step_ok(
                *old(self),
                *final(self),
                k,
                action_views(final(actions)@).push(OutputActionView::Render),
            ),
            forall|i: int|
                0 <= i < final(actions)@.len() ==> final(actions)@[i]@ != OutputActionView::Render,
    {
        let a = self.router.handle_key(k);
        match a {
            Action::Edit(op) => {
                self.mux.edit_active_buffer(op);
            },
            Action::Forward(bytes) => {
                let ghost bv = bytes@;
                if let Some(pid) = self.active_running_pid() {
                    actions.push(OutputAction::WriteToPty { pid, bytes });
                    proof {
                        assert(action_views(actions@) =~= seq![
                            OutputActionView::WriteToPty { pid, bytes: bv },
                        ]);
                    }
                }
            },
            Action::Submit => {
                match self.mux.submit_active() {
                    Some((session, text, pid_opt)) => {
                        let ghost tv = text@;
                        let mut line_bytes = text.as_str().as_bytes_vec();
                        line_bytes.push(0x0A);
                        let ghost tb = line_bytes@;
                        match pid_opt {
                            Some(pid) => {
                                actions.push(
                                    OutputAction::PublishSubmitted { session, text: text.clone() },
                                );
                                actions.push(OutputAction::WriteToPty { pid, bytes: line_bytes });
                                proof {
                                    assert(action_views(actions@) =~= seq![
                                        OutputActionView::PublishSubmitted { session, text: tv },
                                        OutputActionView::WriteToPty { pid, bytes: tb },
                                    ]);
                                }
                            },
                            None => {
                                actions.push(OutputAction::PublishSubmitted { session, text });
                                proof {
                                    assert(action_views(actions@) =~= seq![
                                        OutputActionView::PublishSubmitted { session, text: tv },
                                    ]);
                                }
                            },
                        }
                    },
                    None => {},
                }
            },
            Action::Control(sig) => {
                if let Some(pid) = self.active_running_pid() {
                    actions.push(OutputAction::Signal { pid, sig });
                    proof {
                        assert(action_views(actions@) =~= seq![
                            OutputActionView::Signal { pid, sig },
                        ]);
                    }
                }
            },
            Action::App(cmd) => {
                actions.push(OutputAction::AppRequest(cmd));
                proof {
                    assert(action_views(actions@) =~= seq![OutputActionView::AppRequest(cmd)]);
                }
            },
            Action::Ignore => {},
        }
    }

    /// The pid of the foregrounded session's process, when it is running.
    fn active_running_pid(&self) -> (r: Option<u32>)
        requires
            self.wf(),
        ensures
            r == active_running_pid_of(self.mux),
    {
        let aid = match self.mux.active_session() {
            Some(aid) => aid,
            None => { return None; },
        };
        match self.mux.session_status(aid) {
            Some(status) => {
                proof {
                    crate::multiplexer::lemma_find_id(self.mux.sessions@, aid);
                }
                match self.session_pid(aid) {
                    Some(pid) => match status {
                        crate::multiplexer::SessionStatus::Running => Some(pid),
                        _ => None,
                    },
                    None => None,
                }
            },
            None => None,
        }
    }

    /// The pid recorded for the session carrying `id`, if it has a handle.
    fn session_pid(&self, id: u64) -> (r: Option<u32>)
        ensures
            has_id(self.mux.sessions@, id) ==> r == (
            match self.mux.sessions@[find_id(self.mux.sessions@, id)].process {
                SessionProcess::Attached(h) => Some(h.pid),
                SessionProcess::Failed(_) => None,
            }),
            !has_id(self.mux.sessions@, id) ==> r == None::<u32>,
    {
        let mut i: usize = 0;
        while i < self.mux.sessions.len()
            invariant
                i <= self.mux.sessions@.len(),
                forall|j: int| 0 <= j < i ==> self.mux.sessions@[j].id != id,
            decreases self.mux.sessions@.len() - i,
        {
            if self.mux.sessions[i].id == id {
                proof {
                    crate::multiplexer::lemma_find_id_at(self.mux.sessions@, id, i as int);
                }
                return match &self.mux.sessions[i].process {
                    SessionProcess::Attached(h) => Some(h.pid),
                    SessionProcess::Failed(_) => None,
                };
            }
            i = i + 1;
        }
        proof {
            crate::multiplexer::lemma_find_id(self.mux.sessions@, id);
            if has_id(self.mux.sessions@, id) {
                assert(self.mux.sessions@[find_id(self.mux.sessions@, id)].id == id);
            }
        }
        None
    }
}

/// The pid of the foregrounded session's process when that process runs.
pub open spec fn active_running_pid_of(m: SessionMultiplexer) -> Option<u32> {
    match m.active {
        Some(aid) => if has_id(m.sessions@, aid) {
            match m.sessions@[find_id(m.sessions@, aid)].process {
                SessionProcess::Attached(h) => if h.status == ProcessStatus::Running {
                    Some(h.pid)
                } else {
                    None
                },
                SessionProcess::Failed(_) => None,
            }
        } else {
            None
        },
        None => None,
    }
}

/// One resize directive per running session, in session order.
pub open spec fn resize_directives(pids: Seq<u32>, cols: u16, rows: u16) -> Seq<OutputActionView>
    decreases pids.len(),
{
    if pids.len() == 0 {
        Seq::<OutputActionView>::empty()
    } else {
        resize_directives(pids.drop_last(), cols, rows).push(
            OutputActionView::ResizePty { pid: pids.last(), cols, rows },
        )
    }
}

/// Resize directives never contain a render.
proof fn lemma_no_render_in_resize(pids: Seq<u32>, cols: u16, rows: u16)
    ensures
        forall|i: int|
            0 <= i < resize_directives(pids, cols, rows).len() ==> resize_directives(
                pids,
                cols,
                rows,
            )[i] != OutputActionView::Render,
    decreases pids.len(),
{
    if pids.len() > 0 {
        lemma_no_render_in_resize(pids.drop_last(), cols, rows);
    }
}

/// No render among these actions.
pub open spec fn no_render(a: Seq<OutputActionView>) -> bool {
    forall|i: int| 0 <= i < a.len() ==> a[i] != OutputActionView::Render
}

/// How a key press relates the loop's state after to its state before, and
/// which outward actions (ending with the render) it produces.
pub open spec fn key_step_ok(
    pre: EventLoop,
    post: EventLoop,
    k: KeyPress,
    views: Seq<OutputActionView>,
) -> bool {
    let a = route_key(pre.router.mode, pre.router.bindings@, k);
    let m0 = pre.mux;
    let m1 = post.mux;
    &&& m1.next_id == m0.next_id
    &&& m1.active == m0.active
    &&& match a {
        ActionView::Edit(op) => {
            &&& views =~= seq![OutputActionView::Render]
            &&& (m0.active is None ==> m1.sessions@ == m0.sessions@)
            &&& (m0.active is Some ==> {
                let i = m0.active_index();
                &&& m1.sessions@.len() == m0.sessions@.len()
                &&& forall|j: int|
                    0 <= j < m0.sessions@.len() && j != i ==> m1.sessions@[j] == m0.sessions@[j]
                &&& edit_applied(m0.sessions@[i].buffer, m1.sessions@[i].buffer, op)
            })
        },
        ActionView::Forward(bytes) => {
            &&& m1.sessions@ == m0.sessions@
            &&& match active_running_pid_of(m0) {
                Some(pid) => views =~= seq![
                    OutputActionView::WriteToPty { pid, bytes },
                    OutputActionView::Render,
                ],
                None => views =~= seq![OutputActionView::Render],
            }
        },
        ActionView::Submit => {
            &&& (m0.active is None ==> m1.sessions@ == m0.sessions@ && views =~= seq![
                OutputActionView::Render,
            ])
            &&& (m0.active is Some ==> {
                let i = m0.active_index();
                let b0 = m0.sessions@[i].buffer;
                &&& (is_blank(b0.current_input@) ==> m1.sessions@ == m0.sessions@ && views =~= seq![
                    OutputActionView::Render,
                ])
                &&& (!is_blank(b0.current_input@) ==> {
                    let b1 = m1.sessions@[i].buffer;
                    &&& m1.sessions@.len() == m0.sessions@.len()
                    &&& forall|j: int|
                        0 <= j < m0.sessions@.len() && j != i ==> m1.sessions@[j]
                            == m0.sessions@[j]
                    &&& b1.current_input@ == Seq::<char>::empty()
                    &&& b1.hist_view() == push_evict(
                        b0.hist_view(),
                        "\u{276f} "@ + b0.current_input@,
                    )
                    &&& match active_running_pid_of(m0) {
                        Some(pid) => views =~= seq![
                            OutputActionView::PublishSubmitted {
                                session: m0.sessions@[i].id,
                                text: b0.current_input@,
                            },
                            OutputActionView::WriteToPty {
                                pid,
                                bytes: encode_utf8(b0.current_input@).push(0x0Au8),
                            },
                            OutputActionView::Render,
                        ],
                        None => views =~= seq![
                            OutputActionView::PublishSubmitted {
                                session: m0.sessions@[i].id,
                                text: b0.current_input@,
                            },
                            OutputActionView::Render,
                        ],
                    }
                })
            })
        },
        ActionView::Control(sig) => {
            &&& m1.sessions@ == m0.sessions@
            &&& match active_running_pid_of(m0) {
                Some(pid) => views =~= seq![
                    OutputActionView::Signal { pid, sig },
                    OutputActionView::Render,
                ],
                None => views =~= seq![OutputActionView::Render],
            }
        },
        ActionView::App(cmd) => {
            &&& m1.sessions@ == m0.sessions@
            &&& views =~= seq![OutputActionView::AppRequest(cmd), OutputActionView::Render]
        },
        ActionView::Ignore => {
            &&& m1.sessions@ == m0.sessions@
            &&& views =~= seq![OutputActionView::Render]
        },
    }
}

} // verus!
