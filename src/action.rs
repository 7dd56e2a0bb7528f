//! The window actions a user can pick from the tray, run as step machines.
//!
//! An action is a short sequence of compositor requests. Under
//! `ErrorPolicy::StopAtFirst` the first failure ends it with that error.
//! Under `ErrorPolicy::Continue`, the policy of the tray's handlers, a failed
//! move is still followed by the focus dispatch, and the action ends with the
//! first error once that is done.
use vstd::prelude::*;

use crate::compositor::{
    close_command, close_window, focus_command, focus_window, move_command, move_to_workspace,
    unexpected_reply_view, Ask, Error, ErrorView, Reply, Request, Step, StepView, WindowInfo,
};

verus! {

/// What the user asked to do with a minimized window.
#[derive(Clone, Copy, Debug, PartialEq, Eq, Structural)]
pub enum WindowAction {
    /// Move it to the active workspace, then focus it.
    OpenOnActive,
    /// Move it back to the workspace it came from, then focus it.
    OpenOnOrigin,
    /// Focus it where it is.
    Focus,
    /// Close it.
    Close,
}

/// What an action does when a dispatch fails.
#[derive(Clone, Copy, Debug, PartialEq, Eq, Structural)]
pub enum ErrorPolicy {
    /// End the action with the error.
    StopAtFirst,
    /// Go on with the remaining dispatches; end with the first error.
    Continue,
}

/// Where a running action stands.
#[derive(Clone, Copy, Debug, PartialEq, Eq, Structural)]
pub enum ActionPhase {
    AwaitActiveWorkspace,
    AwaitMove,
    AwaitFocus,
    AwaitClose,
    Finished,
}

/// A running action, as plain values.
pub struct ActionState {
    pub action: WindowAction,
    pub address: Seq<char>,
    pub origin: i32,
    pub policy: ErrorPolicy,
    pub phase: ActionPhase,
    /// The first failure that the action went on after.
    pub failure: Option<ErrorView>,
}

/// `st` in phase `p`.
pub open spec fn in_phase(st: ActionState, p: ActionPhase) -> ActionState {
    ActionState {
        action: st.action,
        address: st.address,
        origin: st.origin,
        policy: st.policy,
        phase: p,
        failure: st.failure,
    }
}

/// The first state and step of `action` under `policy` on the window at
/// `address`, which came from workspace `origin`.
pub open spec fn action_start(
    action: WindowAction,
    address: Seq<char>,
    origin: i32,
    policy: ErrorPolicy,
) -> (ActionState, StepView<()>) {
    let st = ActionState {
        action,
        address,
        origin,
        policy,
        phase: ActionPhase::Finished,
        failure: None,
    };
    match action {
        WindowAction::OpenOnActive => (
            in_phase(st, ActionPhase::AwaitActiveWorkspace),
            StepView::Ask(Ask::QueryActiveWorkspace),
        ),
        WindowAction::OpenOnOrigin => (
            in_phase(st, ActionPhase::AwaitMove),
            StepView::Ask(Ask::Dispatch(move_command(origin as int, address))),
        ),
        WindowAction::Focus => (
            in_phase(st, ActionPhase::AwaitFocus),
            StepView::Ask(Ask::Dispatch(focus_command(address))),
        ),
        WindowAction::Close => (
            in_phase(st, ActionPhase::AwaitClose),
            StepView::Ask(Ask::Dispatch(close_command(address))),
        ),
    }
}

/// How an action ends after its last dispatch succeeded: with the failure
/// it went on after, if any.
pub open spec fn outcome(st: ActionState) -> StepView<()> {
    match st.failure {
        Some(f) => StepView::Finished(Err(f)),
        None => StepView::Finished(Ok(())),
    }
}

/// The next state and step of a running action after `reply`.
pub open spec fn action_next(st: ActionState, reply: Reply) -> (ActionState, StepView<()>) {
    let done = in_phase(st, ActionPhase::Finished);
    let unexpected = (done, StepView::Finished(Err(unexpected_reply_view())));
    let focus = StepView::Ask(Ask::Dispatch(focus_command(st.address)));
    match reply {
        Reply::Failed(e) => if st.phase == ActionPhase::Finished {
            unexpected
        } else if st.phase == ActionPhase::AwaitMove && st.policy == ErrorPolicy::Continue {
            (
                ActionState {
                    action: st.action,
                    address: st.address,
                    origin: st.origin,
                    policy: st.policy,
                    phase: ActionPhase::AwaitFocus,
                    failure: Some(e@),
                },
                focus,
            )
        } else {
            match st.failure {
                Some(f) => (done, StepView::Finished(Err(f))),
                None => (done, StepView::Finished(Err(e@))),
            }
        },
        Reply::ActiveWorkspace(ws) => if st.phase == ActionPhase::AwaitActiveWorkspace {
            (
                in_phase(st, ActionPhase::AwaitMove),
                StepView::Ask(Ask::Dispatch(move_command(ws.id as int, st.address))),
            )
        } else {
            unexpected
        },
        Reply::Done => if st.phase == ActionPhase::AwaitMove {
            (in_phase(st, ActionPhase::AwaitFocus), focus)
        } else if st.phase == ActionPhase::AwaitFocus || st.phase == ActionPhase::AwaitClose {
            (done, outcome(st))
        } else {
            unexpected
        },
        _ => unexpected,
    }
}

/// A running window action.
#[derive(Debug)]
pub struct ActionRun {
    action: WindowAction,
    address: String,
    origin: i32,
    policy: ErrorPolicy,
    phase: ActionPhase,
    failure: Option<Error>,
}

impl View for ActionRun {
    type V = ActionState;

    closed spec fn view(&self) -> ActionState {
        ActionState {
            action: self.action,
            address: self.address@,
            origin: self.origin,
            policy: self.policy,
            phase: self.phase,
            failure: match self.failure {
                Some(e) => Some(e@),
                None => None,
            },
        }
    }
}

impl ActionRun {
    /// Starts `action` under `policy` on `window`, returning the run and its
    /// first step.
    pub fn start(action: WindowAction, window: &WindowInfo, policy: ErrorPolicy) -> (r: (
        ActionRun,
        Step<()>,
    ))
        ensures
            (r.0@, r.1@) == action_start(action, window.address@, window.workspace.id, policy),
    {
        ActionRun::start_at(action, window.address.as_str(), window.workspace.id, policy)
    }

    /// Starts `action` under `policy` on the window at `address`, which came
    /// from workspace `origin`.
    pub fn start_at(action: WindowAction, address: &str, origin: i32, policy: ErrorPolicy) -> (r: (
        ActionRun,
        Step<()>,
    ))
        ensures
            (r.0@, r.1@) == action_start(action, address@, origin, policy),
    {
        let address = String::from_str(address);
        let (phase, request) = match action {
            WindowAction::OpenOnActive => (
                ActionPhase::AwaitActiveWorkspace,
                Request::QueryActiveWorkspace,
            ),
            WindowAction::OpenOnOrigin => (
                ActionPhase::AwaitMove,
                Request::Dispatch(move_to_workspace(origin, address.as_str())),
            ),
            WindowAction::Focus => (
                ActionPhase::AwaitFocus,
                Request::Dispatch(focus_window(address.as_str())),
            ),
            WindowAction::Close => (
                ActionPhase::AwaitClose,
                Request::Dispatch(close_window(address.as_str())),
            ),
        };
        (ActionRun { action, address, origin, policy, phase, failure: None }, Step::Ask(request))
    }

    fn finish(&mut self) -> (r: Step<()>)
        ensures
            r@ == outcome(old(self)@),
            final(self)@ == in_phase(old(self)@, old(self)@.phase),
    {
        match &self.failure {
            Some(f) => Step::Finished(Err(f.duplicate())),
            None => Step::Finished(Ok(())),
        }
    }

    /// Hands the run the reply to its last request; returns its next step.
    pub fn resume(&mut self, reply: Reply) -> (r: Step<()>)
        ensures
            (final(self)@, r@) == action_next(old(self)@, reply),
    {
        let phase = self.phase;
        self.phase = ActionPhase::Finished;
        match reply {
            Reply::Failed(e) => {
                if phase == ActionPhase::Finished {
                    Step::Finished(Err(Error::unexpected_reply()))
                } else if phase == ActionPhase::AwaitMove && self.policy == ErrorPolicy::Continue {
                    self.phase = ActionPhase::AwaitFocus;
                    self.failure = Some(e);
                    Step::Ask(Request::Dispatch(focus_window(self.address.as_str())))
                } else {
                    match &self.failure {
                        Some(f) => Step::Finished(Err(f.duplicate())),
                        None => Step::Finished(Err(e)),
                    }
                }
            },
            Reply::ActiveWorkspace(ws) => {
                if phase == ActionPhase::AwaitActiveWorkspace {
                    self.phase = ActionPhase::AwaitMove;
                    Step::Ask(Request::Dispatch(move_to_workspace(ws.id, self.address.as_str())))
                } else {
                    Step::Finished(Err(Error::unexpected_reply()))
                }
            },
            Reply::Done => {
                if phase == ActionPhase::AwaitMove {
                    self.phase = ActionPhase::AwaitFocus;
                    Step::Ask(Request::Dispatch(focus_window(self.address.as_str())))
                } else if phase == ActionPhase::AwaitFocus || phase == ActionPhase::AwaitClose {
                    self.finish()
                } else {
                    Step::Finished(Err(Error::unexpected_reply()))
                }
            },
            _ => Step::Finished(Err(Error::unexpected_reply())),
        }
    }

    /// The phase the run is in.
    pub fn phase(&self) -> (r: ActionPhase)
        ensures
            r == self@.phase,
    {
        self.phase
    }

    /// Whether the run has ended.
    pub fn is_finished(&self) -> (r: bool)
        ensures
            r == (self@.phase == ActionPhase::Finished),
    {
        self.phase == ActionPhase::Finished
    }
}

} // verus!
