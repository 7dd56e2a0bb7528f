//! Minimizing a window into a tray icon, and the monitors that end the session.
//!
//! `MinimizeSession` is the workflow as a step machine: push the address on
//! the stack, hide the window, set up the tray icon, wait for the exit signal,
//! clean up. When the tray setup fails the window is moved back and its stack
//! entry removed before the failure is reported; both steps are attempted
//! even when the other fails, and the setup failure is what is reported.
use vstd::prelude::*;

use crate::compositor::{
    first_at, hide_command, hide_in_workspace, move_command, move_to_workspace,
    unexpected_reply_view, Ask, Error, ErrorView, Reply, Request, Step, StepView, WindowInfo,
};
use crate::text::push_unsigned;
use crate::text::nat_decimal;

verus! {

/// Where a minimize session stands.
#[derive(Clone, Copy, Debug, PartialEq, Eq, Structural)]
pub enum MinimizePhase {
    AwaitPush,
    AwaitHide,
    AwaitTraySetup,
    AwaitRollbackMove,
    AwaitRollbackRemove,
    AwaitExit,
    AwaitInterruptMove,
    AwaitCleanup,
    Finished,
}

/// A minimize session, as plain values.
pub struct MinimizeState {
    pub address: Seq<char>,
    pub origin: i32,
    pub workspace: Seq<char>,
    pub phase: MinimizePhase,
    pub failure: Option<ErrorView>,
}

/// `st` in phase `p`.
pub open spec fn minimize_in(st: MinimizeState, p: MinimizePhase) -> MinimizeState {
    MinimizeState {
        address: st.address,
        origin: st.origin,
        workspace: st.workspace,
        phase: p,
        failure: st.failure,
    }
}

/// The next state and step of a minimize session after `reply`.
pub open spec fn minimize_next(st: MinimizeState, reply: Reply) -> (MinimizeState, StepView<()>) {
    let done = minimize_in(st, MinimizePhase::Finished);
    let unexpected = (done, StepView::Finished(Err(unexpected_reply_view())));
    let move_back = Ask::Dispatch(move_command(st.origin as int, st.address));
    match st.phase {
        MinimizePhase::AwaitPush => match reply {
            Reply::Done => (
                minimize_in(st, MinimizePhase::AwaitHide),
                StepView::Ask(Ask::Dispatch(hide_command(st.workspace, st.address))),
            ),
            Reply::Failed(e) => (done, StepView::Finished(Err(e@))),
            _ => unexpected,
        },
        MinimizePhase::AwaitHide => match reply {
            Reply::Done => (minimize_in(st, MinimizePhase::AwaitTraySetup), StepView::Ask(Ask::SetupTray)),
            Reply::Failed(e) => (done, StepView::Finished(Err(e@))),
            _ => unexpected,
        },
        MinimizePhase::AwaitTraySetup => match reply {
            Reply::Done => (minimize_in(st, MinimizePhase::AwaitExit), StepView::Ask(Ask::AwaitExit)),
            Reply::Failed(e) => (
                MinimizeState {
                    address: st.address,
                    origin: st.origin,
                    workspace: st.workspace,
                    phase: MinimizePhase::AwaitRollbackMove,
                    failure: Some(e@),
                },
                StepView::Ask(move_back),
            ),
            _ => unexpected,
        },
        MinimizePhase::AwaitRollbackMove => match reply {
            Reply::Done | Reply::Failed(_) => (
                minimize_in(st, MinimizePhase::AwaitRollbackRemove),
                StepView::Ask(Ask::RemoveFromStack(st.address)),
            ),
            _ => unexpected,
        },
        MinimizePhase::AwaitRollbackRemove => match reply {
            Reply::Done | Reply::Failed(_) => match st.failure {
                Some(f) => (done, StepView::Finished(Err(f))),
                None => unexpected,
            },
            _ => unexpected,
        },
        MinimizePhase::AwaitExit => match reply {
            Reply::Done => (
                minimize_in(st, MinimizePhase::AwaitCleanup),
                StepView::Ask(Ask::RemoveFromStack(st.address)),
            ),
            Reply::Interrupted => (
                minimize_in(st, MinimizePhase::AwaitInterruptMove),
                StepView::Ask(move_back),
            ),
            _ => unexpected,
        },
        MinimizePhase::AwaitInterruptMove => match reply {
            Reply::Done | Reply::Failed(_) => (
                minimize_in(st, MinimizePhase::AwaitCleanup),
                StepView::Ask(Ask::RemoveFromStack(st.address)),
            ),
            _ => unexpected,
        },
        MinimizePhase::AwaitCleanup => match reply {
            Reply::Done | Reply::Failed(_) => (done, StepView::Finished(Ok(()))),
            _ => unexpected,
        },
        MinimizePhase::Finished => unexpected,
    }
}

/// The window as the session shows it: a window without a class is named by
/// its title.
pub open spec fn shown_window(w: WindowInfo) -> WindowInfo {
    if w.class@.len() == 0 {
        WindowInfo { address: w.address, workspace: w.workspace, title: w.title, class: w.title }
    } else {
        w
    }
}

/// The minimize workflow of one window.
#[derive(Debug)]
pub struct MinimizeSession {
    window: WindowInfo,
    workspace: String,
    phase: MinimizePhase,
    failure: Option<Error>,
}

impl View for MinimizeSession {
    type V = MinimizeState;

    closed spec fn view(&self) -> MinimizeState {
        MinimizeState {
            address: self.window.address@,
            origin: self.window.workspace.id,
            workspace: self.workspace@,
            phase: self.phase,
            failure: match self.failure {
                Some(e) => Some(e@),
                None => None,
            },
        }
    }
}

impl MinimizeSession {
    /// The window the session is about.
    pub closed spec fn spec_window(&self) -> WindowInfo {
        self.window
    }

    /// Starts minimizing `window` into the named `workspace`: its address is
    /// pushed on the stack before anything else happens.
    pub fn start(window: WindowInfo, workspace: &str) -> (r: (MinimizeSession, Step<()>))
        ensures
            r.0@ == (MinimizeState {
                address: window.address@,
                origin: window.workspace.id,
                workspace: workspace@,
                phase: MinimizePhase::AwaitPush,
                failure: None,
            }),
            r.0.spec_window().same_as(&shown_window(window)),
            r.1@ == StepView::<()>::Ask(Ask::PushStack(window.address@)),
    {
        let mut window = window;
        if window.class.unicode_len() == 0 {
            window.class = window.title.clone();
        }
        let address = window.address.clone();
        (
            MinimizeSession {
                window,
                workspace: String::from_str(workspace),
                phase: MinimizePhase::AwaitPush,
                failure: None,
            },
            Step::Ask(Request::PushStack(address)),
        )
    }

    /// The window the session is about, named by its title when it has no
    /// class.
    pub fn window(&self) -> (r: &WindowInfo)
        ensures
            *r == self.spec_window(),
    {
        &self.window
    }

    /// Hands the session the reply to its last request; returns its next step.
    pub fn resume(&mut self, reply: Reply) -> (r: Step<()>)
        ensures
            (final(self)@, r@) == minimize_next(old(self)@, reply),
            final(self).spec_window() == old(self).spec_window(),
    {
        let phase = self.phase;
        self.phase = MinimizePhase::Finished;
        match phase {
            MinimizePhase::AwaitPush => match reply {
                Reply::Done => {
                    self.phase = MinimizePhase::AwaitHide;
                    Step::Ask(
                        Request::Dispatch(
                            hide_in_workspace(self.workspace.as_str(), self.window.address.as_str()),
                        ),
                    )
                },
                Reply::Failed(e) => Step::Finished(Err(e)),
                _ => Step::Finished(Err(Error::unexpected_reply())),
            },
            MinimizePhase::AwaitHide => match reply {
                Reply::Done => {
                    self.phase = MinimizePhase::AwaitTraySetup;
                    Step::Ask(Request::SetupTray)
                },
                Reply::Failed(e) => Step::Finished(Err(e)),
                _ => Step::Finished(Err(Error::unexpected_reply())),
            },
            MinimizePhase::AwaitTraySetup => match reply {
                Reply::Done => {
                    self.phase = MinimizePhase::AwaitExit;
                    Step::Ask(Request::AwaitExit)
                },
                Reply::Failed(e) => {
                    self.phase = MinimizePhase::AwaitRollbackMove;
                    self.failure = Some(e);
                    self.move_back()
                },
                _ => Step::Finished(Err(Error::unexpected_reply())),
            },
            MinimizePhase::AwaitRollbackMove => match reply {
                Reply::Done | Reply::Failed(_) => {
                    self.phase = MinimizePhase::AwaitRollbackRemove;
                    Step::Ask(Request::RemoveFromStack(self.window.address.clone()))
                },
                _ => Step::Finished(Err(Error::unexpected_reply())),
            },
            MinimizePhase::AwaitRollbackRemove => match reply {
                Reply::Done | Reply::Failed(_) => match &self.failure {
                    Some(f) => Step::Finished(Err(f.duplicate())),
                    None => Step::Finished(Err(Error::unexpected_reply())),
                },
                _ => Step::Finished(Err(Error::unexpected_reply())),
            },
            MinimizePhase::AwaitExit => match reply {
                Reply::Done => {
                    self.phase = MinimizePhase::AwaitCleanup;
                    Step::Ask(Request::RemoveFromStack(self.window.address.clone()))
                },
                Reply::Interrupted => {
                    self.phase = MinimizePhase::AwaitInterruptMove;
                    self.move_back()
                },
                _ => Step::Finished(Err(Error::unexpected_reply())),
            },
            MinimizePhase::AwaitInterruptMove => match reply {
                Reply::Done | Reply::Failed(_) => {
                    self.phase = MinimizePhase::AwaitCleanup;
                    Step::Ask(Request::RemoveFromStack(self.window.address.clone()))
                },
                _ => Step::Finished(Err(Error::unexpected_reply())),
            },
            MinimizePhase::AwaitCleanup => match reply {
                Reply::Done | Reply::Failed(_) => Step::Finished(Ok(())),
                _ => Step::Finished(Err(Error::unexpected_reply())),
            },
            MinimizePhase::Finished => Step::Finished(Err(Error::unexpected_reply())),
        }
    }

    fn move_back(&self) -> (r: Step<()>)
        ensures
            r@ == StepView::<()>::Ask(
                Ask::Dispatch(move_command(self.window.workspace.id as int, self.window.address@)),
            ),
    {
        Step::Ask(
            Request::Dispatch(
                move_to_workspace(self.window.workspace.id, self.window.address.as_str()),
            ),
        )
    }
}

/// What one poll of the window list says about a minimized window.
#[derive(Clone, Copy, Debug, PartialEq, Eq, Structural)]
pub enum PollVerdict {
    /// Still on a special workspace: poll again.
    KeepPolling,
    /// Gone from the window list: it was closed.
    WindowClosed,
    /// On a regular workspace: it was restored by other means.
    WindowRestored,
    /// The window list could not be had: stop watching.
    QueryFailed,
}

impl PollVerdict {
    /// Whether the verdict ends the session.
    pub fn ends_session(&self) -> (r: bool)
        ensures
            r == (*self != PollVerdict::KeepPolling),
    {
        *self != PollVerdict::KeepPolling
    }
}

/// The verdict on the window at `address` after a poll of the window list;
/// the first window at that address counts.
pub fn poll_window_state(clients: &Result<Vec<WindowInfo>, Error>, address: &str) -> (r:
    PollVerdict)
    ensures
        clients is Err ==> r == PollVerdict::QueryFailed,
        clients is Ok ==> ({
            let list = clients->Ok_0@;
            let k = first_at(list, address@);
            r == if k >= list.len() {
                PollVerdict::WindowClosed
            } else if list[k].workspace.id >= 0 {
                PollVerdict::WindowRestored
            } else {
                PollVerdict::KeepPolling
            }
        }),
{
    match clients {
        Err(_) => PollVerdict::QueryFailed,
        Ok(list) => {
            let key = String::from_str(address);
            let mut i: usize = 0;
            while i < list.len()
                invariant
                    0 <= i <= list@.len(),
                    key@ == address@,
                    clients is Ok && list@ == clients->Ok_0@,
                    forall|j: int| 0 <= j < i ==> #[trigger] list@[j].address@ != address@,
                decreases list@.len() - i,
            {
                if key.eq(&list[i].address) {
                    proof {
                        crate::compositor::lemma_first_at(list@, address@, i as int);
                    }
                    if list[i].workspace.id >= 0 {
                        return PollVerdict::WindowRestored;
                    } else {
                        return PollVerdict::KeepPolling;
                    }
                }
                i = i + 1;
            }
            proof {
                crate::compositor::lemma_first_at(list@, address@, i as int);
            }
            PollVerdict::WindowClosed
        },
    }
}

/// The well-known name of the tray watcher service.
pub fn watcher_service() -> (r: &'static str)
    ensures
        r@ == "org.kde.StatusNotifierWatcher"@,
{
    "org.kde.StatusNotifierWatcher"
}

/// The object path of the tray watcher.
pub fn watcher_path() -> (r: &'static str)
    ensures
        r@ == "/StatusNotifierWatcher"@,
{
    "/StatusNotifierWatcher"
}

/// The watcher's method that registers an icon.
pub fn register_method() -> (r: &'static str)
    ensures
        r@ == "RegisterStatusNotifierItem"@,
{
    "RegisterStatusNotifierItem"
}

/// The object path at which the icon is served.
pub fn item_path() -> (r: &'static str)
    ensures
        r@ == "/StatusNotifierItem"@,
{
    "/StatusNotifierItem"
}

/// The object path at which the menu is served.
pub fn menu_path() -> (r: &'static str)
    ensures
        r@ == "/Menu"@,
{
    "/Menu"
}

/// The pause, in milliseconds, between a watcher restart and the new
/// registration.
pub fn reregister_delay_ms() -> (r: u64)
    ensures
        r == 100,
{
    100
}

/// How long, in milliseconds, the tray setup may take before it counts as
/// failed: a tray host that never answers must not block the session.
pub fn tray_setup_timeout_ms() -> (r: u64)
    ensures
        r == 10_000,
{
    10_000
}

/// `org.kde.StatusNotifierItem.minimizer.p<pid>`
pub open spec fn bus_name_of(pid: nat) -> Seq<char> {
    "org.kde.StatusNotifierItem.minimizer.p"@ + nat_decimal(pid)
}

/// The bus name of the process `pid`: unique for each process.
pub fn bus_name(pid: u32) -> (r: String)
    ensures
        r@ == bus_name_of(pid as nat),
{
    let mut r = String::from_str("org.kde.StatusNotifierItem.minimizer.p");
    push_unsigned(&mut r, pid);
    r
}

/// Whether an ownership change of the bus name `name` means that the tray
/// watcher restarted, so that the icon must be registered again.
pub fn watcher_restarted(name: &str, has_new_owner: bool) -> (r: bool)
    ensures
        r == (name@ == "org.kde.StatusNotifierWatcher"@ && has_new_owner),
{
    let watcher = String::from_str(watcher_service());
    let n = String::from_str(name);
    has_new_owner && n.eq(&watcher)
}

/// The window is hidden only after its address was pushed on the stack: the
/// session asks for the hiding dispatch only on a successful push.
pub proof fn lemma_hide_follows_push(st: MinimizeState, reply: Reply)
    ensures
        minimize_next(st, reply).0.phase == MinimizePhase::AwaitHide ==> st.phase
            == MinimizePhase::AwaitPush && reply is Done,
        minimize_next(st, reply).0.phase == MinimizePhase::AwaitHide ==> minimize_next(st, reply).1
            == StepView::<()>::Ask(Ask::Dispatch(hide_command(st.workspace, st.address))),
{
}

/// The stack entry is removed only once the exit signal was observed, after
/// an interrupt, or to roll back a failed tray setup.
pub proof fn lemma_removal_follows_exit(st: MinimizeState, reply: Reply)
    ensures
        minimize_next(st, reply).1 is Ask && minimize_next(st, reply).1->Ask_0 is RemoveFromStack
            ==> (st.phase == MinimizePhase::AwaitExit && reply is Done) || st.phase
            == MinimizePhase::AwaitInterruptMove || st.phase == MinimizePhase::AwaitRollbackMove,
{
}

/// A failed tray setup is rolled back: the window is moved back to its own
/// workspace, then its stack entry removed, then the setup failure reported,
/// whether or not the move back and the removal succeed.
pub proof fn lemma_failed_setup_rolls_back(
    st: MinimizeState,
    failure: Error,
    moved: Reply,
    removed: Reply,
)
    requires
        st.phase == MinimizePhase::AwaitTraySetup,
        moved is Done || moved is Failed,
        removed is Done || removed is Failed,
    ensures
        ({
            let (s1, a1) = minimize_next(st, Reply::Failed(failure));
            let (s2, a2) = minimize_next(s1, moved);
            let (s3, a3) = minimize_next(s2, removed);
            &&& a1 == StepView::<()>::Ask(Ask::Dispatch(move_command(st.origin as int, st.address)))
            &&& a2 == StepView::<()>::Ask(Ask::RemoveFromStack(st.address))
            &&& a3 == StepView::<()>::Finished(Err(failure@))
            &&& s3.phase == MinimizePhase::Finished
        }),
{
}

} // verus!
