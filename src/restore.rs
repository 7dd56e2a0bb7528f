//! Restoring the most recently minimized window.
//!
//! The program pops the stack and hands the popped address to `RestoreLast`,
//! which checks that the window is still minimized and then moves and focuses
//! it. A popped entry is never put back, whatever the outcome.
//!
//! With the `Original` target the window is focused where it is, without a
//! move: minimizing put it on a special workspace, which the compositor shows
//! over the window's own workspace once it is focused.
use vstd::prelude::*;

use crate::action::{
    action_next, action_start, ActionPhase, ActionRun, ActionState, ErrorPolicy, WindowAction,
};
use crate::compositor::{
    is_minimized, is_minimized_in, unexpected_reply_view, views, Ask, Error, ErrorView, Reply,
    Request, Step, StepView,
};
use crate::config::{Config, RestoreTarget};

verus! {

/// How a restore ended without error.
#[derive(Clone, Copy, Debug, PartialEq, Eq, Structural)]
pub enum RestoreOutcome {
    /// The stack was empty.
    NothingToRestore,
    /// The window is gone or was restored by other means.
    NotMinimized,
    /// The window was moved (for the active target) and focused.
    Restored,
}

/// Where a restore stands.
#[derive(Clone, Copy, Debug, PartialEq, Eq, Structural)]
pub enum RestorePhase {
    AwaitClients,
    Acting,
    Finished,
}

/// A restore, as plain values.
pub struct RestoreState {
    pub address: Seq<char>,
    pub target: RestoreTarget,
    pub phase: RestorePhase,
    pub action: ActionState,
}

/// `Failed to get active workspace for restoration.`
pub open spec fn active_context() -> Seq<char> {
    "Failed to get active workspace for restoration."@
}

/// `Failed to get client list to verify window existence.`
pub open spec fn verify_context() -> Seq<char> {
    "Failed to get client list to verify window existence."@
}

/// The action that restores a window to `target`.
pub open spec fn restore_action(target: RestoreTarget) -> WindowAction {
    match target {
        RestoreTarget::Active => WindowAction::OpenOnActive,
        RestoreTarget::Original => WindowAction::Focus,
    }
}

/// A step of the window action, as a step of the restore.
pub open spec fn lift(s: StepView<()>) -> StepView<RestoreOutcome> {
    match s {
        StepView::Ask(q) => StepView::Ask(q),
        StepView::Finished(Ok(_)) => StepView::Finished(Ok(RestoreOutcome::Restored)),
        StepView::Finished(Err(e)) => StepView::Finished(Err(e)),
    }
}

/// `st` in phase `p`.
pub open spec fn restore_in(st: RestoreState, p: RestorePhase) -> RestoreState {
    RestoreState { address: st.address, target: st.target, phase: p, action: st.action }
}

/// The next state and step of a restore after `reply`.
pub open spec fn restore_next(st: RestoreState, reply: Reply) -> (RestoreState, StepView<
    RestoreOutcome,
>) {
    let done = restore_in(st, RestorePhase::Finished);
    match st.phase {
        RestorePhase::AwaitClients => match reply {
            Reply::Clients(list) => if !is_minimized_in(list@, st.address) {
                (done, StepView::Finished(Ok(RestoreOutcome::NotMinimized)))
            } else {
                let (a, s) = action_start(
                    restore_action(st.target),
                    st.address,
                    0,
                    ErrorPolicy::StopAtFirst,
                );
                (
                    RestoreState {
                        address: st.address,
                        target: st.target,
                        phase: RestorePhase::Acting,
                        action: a,
                    },
                    lift(s),
                )
            },
            Reply::Failed(e) => (
                done,
                StepView::Finished(
                    Err(ErrorView { kind: e.kind, messages: seq![verify_context()] + e@.messages }),
                ),
            ),
            _ => (done, StepView::Finished(Err(unexpected_reply_view()))),
        },
        RestorePhase::Acting => if st.action.phase == ActionPhase::AwaitActiveWorkspace
            && reply is Failed {
            let (a, s) = action_next(st.action, reply);
            (
                RestoreState {
                    address: st.address,
                    target: st.target,
                    phase: RestorePhase::Finished,
                    action: a,
                },
                match s {
                    StepView::Finished(Err(e)) => StepView::Finished(
                        Err(ErrorView { kind: e.kind, messages: seq![active_context()] + e.messages }),
                    ),
                    _ => StepView::Finished(Err(unexpected_reply_view())),
                },
            )
        } else {
            let (a, s) = action_next(st.action, reply);
            (
                RestoreState {
                    address: st.address,
                    target: st.target,
                    phase: if s is Ask {
                        RestorePhase::Acting
                    } else {
                        RestorePhase::Finished
                    },
                    action: a,
                },
                lift(s),
            )
        },
        RestorePhase::Finished => (done, StepView::Finished(Err(unexpected_reply_view()))),
    }
}

/// The restore of the most recently minimized window.
#[derive(Debug)]
pub struct RestoreLast {
    address: String,
    target: RestoreTarget,
    phase: RestorePhase,
    run: ActionRun,
}

impl View for RestoreLast {
    type V = RestoreState;

    closed spec fn view(&self) -> RestoreState {
        RestoreState {
            address: self.address@,
            target: self.target,
            phase: self.phase,
            action: self.run@,
        }
    }
}

fn lift_step(s: Step<()>) -> (r: Step<RestoreOutcome>)
    ensures
        r@ == lift(s@),
{
    match s {
        Step::Ask(q) => Step::Ask(q),
        Step::Finished(Ok(_)) => Step::Finished(Ok(RestoreOutcome::Restored)),
        Step::Finished(Err(e)) => Step::Finished(Err(e)),
    }
}

impl RestoreLast {
    /// Starts restoring `popped`, the entry just popped from the stack, to
    /// the configured target. With nothing popped there is nothing to do.
    pub fn start(popped: Option<String>, config: &Config) -> (r: (RestoreLast, Step<
        RestoreOutcome,
    >))
        ensures
            r.0@.target == match config.restore_to {
                Some(t) => t,
                None => RestoreTarget::Active,
            },
            match popped {
                None => r.0@.phase == RestorePhase::Finished && r.1@ == StepView::<
                    RestoreOutcome,
                >::Finished(Ok(RestoreOutcome::NothingToRestore)),
                Some(a) => r.0@.phase == RestorePhase::AwaitClients && r.0@.address == a@
                    && r.1@ == StepView::<RestoreOutcome>::Ask(Ask::QueryClients),
            },
    {
        let target = config.restore_target();
        let (run, _) = ActionRun::start_at(WindowAction::Focus, "", 0, ErrorPolicy::StopAtFirst);
        match popped {
            None => (
                RestoreLast { address: String::new(), target, phase: RestorePhase::Finished, run },
                Step::Finished(Ok(RestoreOutcome::NothingToRestore)),
            ),
            Some(address) => (
                RestoreLast { address, target, phase: RestorePhase::AwaitClients, run },
                Step::Ask(Request::QueryClients),
            ),
        }
    }

    /// Hands the restore the reply to its last request; returns its next step.
    pub fn resume(&mut self, reply: Reply) -> (r: Step<RestoreOutcome>)
        ensures
            (final(self)@, r@) == restore_next(old(self)@, reply),
    {
        match self.phase {
            RestorePhase::AwaitClients => {
                self.phase = RestorePhase::Finished;
                match reply {
                    Reply::Clients(list) => {
                        if !is_minimized(&list, self.address.as_str()) {
                            Step::Finished(Ok(RestoreOutcome::NotMinimized))
                        } else {
                            let action = match self.target {
                                RestoreTarget::Active => WindowAction::OpenOnActive,
                                RestoreTarget::Original => WindowAction::Focus,
                            };
                            let (run, s) = ActionRun::start_at(
                                action,
                                self.address.as_str(),
                                0,
                                ErrorPolicy::StopAtFirst,
                            );
                            self.run = run;
                            self.phase = RestorePhase::Acting;
                            lift_step(s)
                        }
                    },
                    Reply::Failed(e) => {
                        let f = e.context(
                            String::from_str(
                                "Failed to get client list to verify window existence.",
                            ),
                        );
                        Step::Finished(Err(f))
                    },
                    _ => Step::Finished(Err(Error::unexpected_reply())),
                }
            },
            RestorePhase::Acting => {
                let awaits_workspace = self.run.phase() == ActionPhase::AwaitActiveWorkspace;
                if awaits_workspace && matches!(reply, Reply::Failed(_)) {
                    let s = self.run.resume(reply);
                    self.phase = RestorePhase::Finished;
                    return match s {
                        Step::Finished(Err(e)) => Step::Finished(
                            Err(
                                e.context(
                                    String::from_str(
                                        "Failed to get active workspace for restoration.",
                                    ),
                                ),
                            ),
                        ),
                        _ => Step::Finished(Err(Error::unexpected_reply())),
                    };
                }
                let s = self.run.resume(reply);
                if !s.is_ask() {
                    self.phase = RestorePhase::Finished;
                }
                lift_step(s)
            },
            RestorePhase::Finished => Step::Finished(Err(Error::unexpected_reply())),
        }
    }
}

/// A restore never puts an address back on the stack, nor touches the stack
/// at all: the popped entry is gone whatever the outcome.
pub proof fn lemma_restore_never_requeues(st: RestoreState, reply: Reply)
    ensures
        !(restore_next(st, reply).1 is Ask && restore_next(st, reply).1->Ask_0 is PushStack),
        !(restore_next(st, reply).1 is Ask && restore_next(st, reply).1->Ask_0 is RemoveFromStack),
{
}

} // verus!
