//! The interactive restore menu: minimized windows are offered to a
//! dmenu-style launcher as `Title (Address)` lines and the chosen one is
//! restored to the active workspace.
use vstd::prelude::*;

use crate::action::{
    action_next, action_start, ActionRun, ActionState, ErrorPolicy, WindowAction,
};
use crate::compositor::{
    first_at, unexpected_reply_view, views, Ask, Error, Reply, Request, Step, StepView, WindowInfo,
};
use crate::config::{default_launcher, Config};

verus! {

/// `Title (Address)`
pub open spec fn choice_line(w: WindowInfo) -> Seq<char> {
    w.title@ + " ("@ + w.address@ + ")"@
}

/// One choice line per window, separated by line feeds.
pub open spec fn choices_text(ws: Seq<WindowInfo>) -> Seq<char>
    decreases ws.len(),
{
    if ws.len() == 0 {
        seq![]
    } else if ws.len() == 1 {
        choice_line(ws[0])
    } else {
        choices_text(ws.drop_last()) + "\n"@ + choice_line(ws.last())
    }
}

/// Index of the last `c` in `s`; -1 when there is none.
pub open spec fn last_index_of(s: Seq<char>, c: char) -> int
    decreases s.len(),
{
    if s.len() == 0 {
        -1
    } else if s.last() == c {
        s.len() - 1
    } else {
        last_index_of(s.drop_last(), c)
    }
}

/// The address in a selection `Title (Address)`: what stands between the
/// last `(` and the last `)`, when the latter follows the former.
pub open spec fn selection_address(s: Seq<char>) -> Option<Seq<char>> {
    let open = last_index_of(s, '(');
    let close = last_index_of(s, ')');
    if open < 0 || close < 0 || close <= open {
        None
    } else {
        Some(s.subrange(open + 1, close))
    }
}

proof fn lemma_last_index(s: Seq<char>, c: char, k: int)
    requires
        0 <= k <= s.len(),
        forall|j: int| k <= j < s.len() ==> #[trigger] s[j] != c,
        k == 0 || s[k - 1] == c,
    ensures
        last_index_of(s, c) == k - 1,
    decreases s.len() - k,
{
    if k < s.len() {
        let rest = s.drop_last();
        assert forall|j: int| k <= j < rest.len() implies #[trigger] rest[j] != c by {
            assert(rest[j] == s[j]);
        }
        lemma_last_index(rest, c, k);
    }
}

fn rfind(s: &str, c: char) -> (r: Option<usize>)
    ensures
        match r {
            Some(i) => i as int == last_index_of(s@, c) && i < s@.len(),
            None => last_index_of(s@, c) == -1,
        },
{
    let n = s.unicode_len();
    let mut k: usize = n;
    while k > 0 && s.get_char(k - 1) != c
        invariant
            n == s@.len(),
            k <= n,
            forall|j: int| k <= j < n ==> #[trigger] s@[j] != c,
        decreases k,
    {
        k = k - 1;
    }
    proof {
        lemma_last_index(s@, c, k as int);
    }
    if k == 0 {
        None
    } else {
        Some(k - 1)
    }
}

/// Whether `s` holds `x`, by view.
fn holds(s: &Vec<String>, x: &String) -> (r: bool)
    ensures
        r == views(s@).contains(x@),
{
    let mut i: usize = 0;
    while i < s.len()
        invariant
            0 <= i <= s@.len(),
            forall|j: int| 0 <= j < i ==> #[trigger] s@[j]@ != x@,
        decreases s@.len() - i,
    {
        if s[i].eq(x) {
            assert(views(s@)[i as int] == x@);
            return true;
        }
        i = i + 1;
    }
    proof {
        if views(s@).contains(x@) {
            let j = choose|j: int| 0 <= j < views(s@).len() && views(s@)[j] == x@;
            assert(s@[j]@ == x@);
        }
    }
    false
}

/// The windows of `clients` whose address is on the stack, in the order of
/// the window list.
pub fn minimized_windows(entries: &Vec<String>, clients: Vec<WindowInfo>) -> (r: Vec<WindowInfo>)
    ensures
        r@ == clients@.filter(|w: WindowInfo| views(entries@).contains(w.address@)),
{
    let ghost pred = |w: WindowInfo| views(entries@).contains(w.address@);
    let ghost all = clients@;
    let mut rest = clients;
    let mut r: Vec<WindowInfo> = Vec::new();
    let ghost n = all.len();
    while rest.len() > 0
        invariant
            pred == (|w: WindowInfo| views(entries@).contains(w.address@)),
            n == all.len(),
            rest@.len() <= n,
            rest@ == all.subrange(n - rest@.len(), n as int),
            r@ == all.subrange(0, n - rest@.len()).filter(pred),
        decreases rest@.len(),
    {
        let ghost i = n - rest@.len();
        let w = rest.remove(0);
        proof {
            let s = all.subrange(0, i + 1);
            assert(s.drop_last() =~= all.subrange(0, i));
            assert(w == all[i]);
            assert(s.last() == w);
            assert(rest@ =~= all.subrange(n - rest@.len(), n as int));
            reveal(Seq::filter);
            assert(s.filter(pred) == if pred(s.last()) {
                s.drop_last().filter(pred).push(s.last())
            } else {
                s.drop_last().filter(pred)
            });
        }
        if holds(entries, &w.address) {
            r.push(w);
        }
    }
    assert(all.subrange(0, n as int) =~= all);
    r
}

/// Where the restore of a chosen window stands.
#[derive(Clone, Copy, Debug, PartialEq, Eq, Structural)]
pub enum SelectedPhase {
    Acting,
    Removing,
    Finished,
}

/// The restore of a chosen window, as plain values.
pub struct SelectedState {
    pub address: Seq<char>,
    pub phase: SelectedPhase,
    pub action: ActionState,
}

/// The next state and step of the restore of a chosen window after `reply`:
/// open it on the active workspace, then remove it from the stack.
pub open spec fn selected_next(st: SelectedState, reply: Reply) -> (SelectedState, StepView<()>) {
    let done = SelectedState { address: st.address, phase: SelectedPhase::Finished, action: st.action };
    match st.phase {
        SelectedPhase::Acting => {
            let (a, s) = action_next(st.action, reply);
            match s {
                StepView::Finished(Ok(_)) => (
                    SelectedState { address: st.address, phase: SelectedPhase::Removing, action: a },
                    StepView::Ask(Ask::RemoveFromStack(st.address)),
                ),
                StepView::Finished(Err(e)) => (
                    SelectedState { address: st.address, phase: SelectedPhase::Finished, action: a },
                    StepView::Finished(Err(e)),
                ),
                StepView::Ask(q) => (
                    SelectedState { address: st.address, phase: SelectedPhase::Acting, action: a },
                    StepView::Ask(q),
                ),
            }
        },
        SelectedPhase::Removing => match reply {
            Reply::Done => (done, StepView::Finished(Ok(()))),
            Reply::Failed(e) => (done, StepView::Finished(Err(e@))),
            _ => (done, StepView::Finished(Err(unexpected_reply_view()))),
        },
        SelectedPhase::Finished => (done, StepView::Finished(Err(unexpected_reply_view()))),
    }
}

/// The restore of a window chosen from the menu.
#[derive(Debug)]
pub struct RestoreSelected {
    address: String,
    phase: SelectedPhase,
    run: ActionRun,
}

impl View for RestoreSelected {
    type V = SelectedState;

    closed spec fn view(&self) -> SelectedState {
        SelectedState { address: self.address@, phase: self.phase, action: self.run@ }
    }
}

impl RestoreSelected {
    /// Hands the restore the reply to its last request; returns its next step.
    pub fn resume(&mut self, reply: Reply) -> (r: Step<()>)
        ensures
            (final(self)@, r@) == selected_next(old(self)@, reply),
    {
        match self.phase {
            SelectedPhase::Acting => {
                let s = self.run.resume(reply);
                match s {
                    Step::Finished(Ok(_)) => {
                        self.phase = SelectedPhase::Removing;
                        Step::Ask(Request::RemoveFromStack(self.address.clone()))
                    },
                    Step::Finished(Err(e)) => {
                        self.phase = SelectedPhase::Finished;
                        Step::Finished(Err(e))
                    },
                    Step::Ask(q) => Step::Ask(q),
                }
            },
            SelectedPhase::Removing => {
                self.phase = SelectedPhase::Finished;
                match reply {
                    Reply::Done => Step::Finished(Ok(())),
                    Reply::Failed(e) => Step::Finished(Err(e)),
                    _ => Step::Finished(Err(Error::unexpected_reply())),
                }
            },
            SelectedPhase::Finished => Step::Finished(Err(Error::unexpected_reply())),
        }
    }
}

/// The interactive restore menu.
#[derive(Debug)]
pub struct Menu {
    launcher: String,
}

impl Menu {
    /// The command line of the launcher.
    pub closed spec fn spec_launcher(&self) -> Seq<char> {
        self.launcher@
    }

    /// The menu, with the configured launcher or the default one.
    pub fn new(config: &Config) -> (r: Menu)
        ensures
            r.spec_launcher() == match config.launcher {
                Some(l) => l@,
                None => "wofi -dmenu"@,
            },
    {
        let launcher = match &config.launcher {
            Some(l) => l.clone(),
            None => default_launcher(),
        };
        Menu { launcher }
    }

    /// The command line of the launcher, to be run by a shell.
    pub fn launcher(&self) -> (r: &str)
        ensures
            r@ == self.spec_launcher(),
    {
        self.launcher.as_str()
    }

    /// The text handed to the launcher: one `Title (Address)` line per window.
    pub fn choices(&self, windows: &Vec<WindowInfo>) -> (r: String)
        ensures
            r@ == choices_text(windows@),
    {
        let mut r = String::new();
        let mut i: usize = 0;
        while i < windows.len()
            invariant
                0 <= i <= windows@.len(),
                r@ == choices_text(windows@.subrange(0, i as int)),
            decreases windows@.len() - i,
        {
            let ghost before = r@;
            if i > 0 {
                r.append("\n");
            }
            r.append(windows[i].title.as_str());
            r.append(" (");
            r.append(windows[i].address.as_str());
            r.append(")");
            proof {
                let s = windows@.subrange(0, i + 1);
                assert(s.drop_last() =~= windows@.subrange(0, i as int));
                assert(s.last() == windows@[i as int]);
                if i == 0 {
                    assert(before == Seq::<char>::empty());
                    assert(r@ =~= choice_line(s[0]));
                } else {
                    assert(r@ =~= before + "\n"@ + choice_line(s.last()));
                }
            }
            i = i + 1;
        }
        assert(windows@.subrange(0, i as int) =~= windows@);
        r
    }

    /// The address in a selection `Title (Address)`; `None` when the
    /// selection holds no `(` followed later by a `)`.
    pub fn parse_address_from_selection(&self, selection: &str) -> (r: Option<String>)
        ensures
            match selection_address(selection@) {
                Some(a) => r is Some && r->Some_0@ == a,
                None => r is None,
            },
    {
        match (rfind(selection, '('), rfind(selection, ')')) {
            (Some(open), Some(close)) => {
                if close <= open {
                    None
                } else {
                    Some(String::from_str(selection.substring_char(open + 1, close)))
                }
            },
            _ => None,
        }
    }

    /// The first of `windows` at `address`, if any.
    pub fn find_selected(&self, windows: Vec<WindowInfo>, address: &str) -> (r: Option<
        WindowInfo,
    >)
        ensures
            first_at(windows@, address@) < windows@.len() ==> r == Some(
                windows@[first_at(windows@, address@)],
            ),
            first_at(windows@, address@) >= windows@.len() ==> r is None,
    {
        let mut list = windows;
        let key = String::from_str(address);
        let mut i: usize = 0;
        while i < list.len()
            invariant
                0 <= i <= list@.len(),
                list@ == windows@,
                key@ == address@,
                forall|j: int| 0 <= j < i ==> #[trigger] list@[j].address@ != address@,
            decreases list@.len() - i,
        {
            if key.eq(&list[i].address) {
                proof {
                    crate::compositor::lemma_first_at(list@, address@, i as int);
                }
                return Some(list.swap_remove(i));
            }
            i = i + 1;
        }
        proof {
            crate::compositor::lemma_first_at(list@, address@, i as int);
        }
        None
    }

    /// Starts restoring the chosen `window`: move it to the active
    /// workspace, focus it, then remove it from the stack.
    pub fn restore_selected_window(&self, window: &WindowInfo) -> (r: (RestoreSelected, Step<()>))
        ensures
            ({
                let (a, s) = action_start(
                    WindowAction::OpenOnActive,
                    window.address@,
                    window.workspace.id,
                    ErrorPolicy::StopAtFirst,
                );
                r.0@ == SelectedState { address: window.address@, phase: SelectedPhase::Acting, action: a }
                    && r.1@ == s
            }),
    {
        let (run, s) = ActionRun::start(WindowAction::OpenOnActive, window, ErrorPolicy::StopAtFirst);
        (RestoreSelected { address: window.address.clone(), phase: SelectedPhase::Acting, run }, s)
    }
}

} // verus!
