//! The compositor's data, its dispatch commands, and the request/reply protocol
//! through which the workflows of this library talk to it.
//!
//! The workflows never call the compositor themselves: each step names a
//! `Request`, the program performs it and hands the `Reply` back.
use vstd::prelude::*;

use crate::text::{int_decimal, push_decimal};

verus! {

/// A workspace, as the compositor reports it. Negative ids are special
/// (hidden) workspaces.
#[derive(Clone, Copy, Debug, PartialEq, Eq, Structural)]
pub struct Workspace {
    pub id: i32,
}

/// A snapshot of one window as the compositor reports it.
#[derive(Clone, Debug)]
pub struct WindowInfo {
    pub address: String,
    pub workspace: Workspace,
    pub title: String,
    pub class: String,
}

impl WindowInfo {
    /// Whether two snapshots hold the same values.
    pub open spec fn same_as(&self, other: &WindowInfo) -> bool {
        &&& self.address@ == other.address@
        &&& self.workspace == other.workspace
        &&& self.title@ == other.title@
        &&& self.class@ == other.class@
    }

    /// A copy of this snapshot.
    pub fn duplicate(&self) -> (r: WindowInfo)
        ensures
            r.same_as(self),
    {
        WindowInfo {
            address: self.address.clone(),
            workspace: self.workspace,
            title: self.title.clone(),
            class: self.class.clone(),
        }
    }
}

/// The kind of failure behind an `Error`.
#[derive(Clone, Copy, Debug, PartialEq, Eq, Structural)]
pub enum ErrorKind {
    /// A compositor query or dispatch failed.
    Compositor,
    /// Building the session bus connection or registering the tray icon failed.
    IpcSetup,
    /// The stack file could not be read or written.
    StackIo,
    /// The environment lacks what is needed (the invoking user, a directory).
    Environment,
}

/// A failure, with the messages of its context chain, outermost first.
#[derive(Debug)]
pub struct Error {
    pub kind: ErrorKind,
    pub messages: Vec<String>,
}

/// What an `Error` holds, as plain values.
pub struct ErrorView {
    pub kind: ErrorKind,
    pub messages: Seq<Seq<char>>,
}

impl View for Error {
    type V = ErrorView;

    open spec fn view(&self) -> ErrorView {
        ErrorView { kind: self.kind, messages: views(self.messages@) }
    }
}

/// The views of a list of strings.
pub open spec fn views(v: Seq<String>) -> Seq<Seq<char>> {
    v.map_values(|s: String| s@)
}

impl Error {
    /// A new error of `kind` with one message.
    pub fn new(kind: ErrorKind, message: String) -> (r: Error)
        ensures
            r.kind == kind,
            views(r.messages@) == seq![message@],
    {
        let mut messages: Vec<String> = Vec::new();
        messages.push(message);
        let r = Error { kind, messages };
        assert(views(r.messages@) =~= seq![r.messages@[0]@]);
        r
    }

    /// The same error, with `message` as the outermost context.
    pub fn context(self, message: String) -> (r: Error)
        ensures
            r.kind == self.kind,
            views(r.messages@) == seq![message@] + views(self.messages@),
    {
        let mut messages: Vec<String> = Vec::new();
        messages.push(message);
        let ghost first = messages@;
        let mut rest = self.messages;
        messages.append(&mut rest);
        let r = Error { kind: self.kind, messages };
        assert(views(r.messages@) =~= seq![message@] + views(self.messages@)) by {
            assert(r.messages@ == first + self.messages@);
        }
        r
    }

    /// A copy of this error.
    pub fn duplicate(&self) -> (r: Error)
        ensures
            r@ == self@,
    {
        Error { kind: self.kind, messages: self.messages.clone() }
    }

    /// The error for a reply that does not answer the pending request.
    pub fn unexpected_reply() -> (r: Error)
        ensures
            r@ == unexpected_reply_view(),
    {
        Error::new(
            ErrorKind::Compositor,
            String::from_str("the reply does not answer the pending request"),
        )
    }

    /// The outermost message; empty when there is none.
    pub fn message(&self) -> (r: String)
        ensures
            self.messages@.len() > 0 ==> r@ == self.messages@[0]@,
            self.messages@.len() == 0 ==> r@ == Seq::<char>::empty(),
    {
        if self.messages.len() > 0 {
            self.messages[0].clone()
        } else {
            String::new()
        }
    }
}

/// The error for a reply that does not answer the pending request.
pub open spec fn unexpected_reply_view() -> ErrorView {
    ErrorView {
        kind: ErrorKind::Compositor,
        messages: seq!["the reply does not answer the pending request"@],
    }
}

/// `movetoworkspace <workspace>,address:<address>`
pub open spec fn move_command(workspace: int, address: Seq<char>) -> Seq<char> {
    "movetoworkspace "@ + int_decimal(workspace) + ",address:"@ + address
}

/// `movetoworkspacesilent <workspace>,address:<address>`
pub open spec fn hide_command(workspace: Seq<char>, address: Seq<char>) -> Seq<char> {
    "movetoworkspacesilent "@ + workspace + ",address:"@ + address
}

/// `focuswindow address:<address>`
pub open spec fn focus_command(address: Seq<char>) -> Seq<char> {
    "focuswindow address:"@ + address
}

/// `closewindow address:<address>`
pub open spec fn close_command(address: Seq<char>) -> Seq<char> {
    "closewindow address:"@ + address
}

/// The command that moves the window at `address` to the workspace `workspace`.
pub fn move_to_workspace(workspace: i32, address: &str) -> (r: String)
    ensures
        r@ == move_command(workspace as int, address@),
{
    let mut r = String::from_str("movetoworkspace ");
    push_decimal(&mut r, workspace);
    r.append(",address:");
    r.append(address);
    r
}

/// The command that moves the window at `address` to the named workspace
/// without following it.
pub fn hide_in_workspace(workspace: &str, address: &str) -> (r: String)
    ensures
        r@ == hide_command(workspace@, address@),
{
    let mut r = String::from_str("movetoworkspacesilent ");
    r.append(workspace);
    r.append(",address:");
    r.append(address);
    r
}

/// The command that focuses the window at `address`.
pub fn focus_window(address: &str) -> (r: String)
    ensures
        r@ == focus_command(address@),
{
    let mut r = String::from_str("focuswindow address:");
    r.append(address);
    r
}

/// The command that closes the window at `address`.
pub fn close_window(address: &str) -> (r: String)
    ensures
        r@ == close_command(address@),
{
    let mut r = String::from_str("closewindow address:");
    r.append(address);
    r
}

/// `hyprctl command '<command>' failed: <stderr>`
pub open spec fn query_failed_message(command: Seq<char>, stderr: Seq<char>) -> Seq<char> {
    "hyprctl command '"@ + command + "' failed: "@ + stderr
}

/// `hyprctl dispatch command '<command>' failed`
pub open spec fn dispatch_failed_message(command: Seq<char>) -> Seq<char> {
    "hyprctl dispatch command '"@ + command + "' failed"@
}

/// The error for a query whose process exited unsuccessfully, with what it
/// wrote to its error stream.
pub fn query_failed(command: &str, stderr: &str) -> (r: Error)
    ensures
        r.kind == ErrorKind::Compositor,
        views(r.messages@) == seq![query_failed_message(command@, stderr@)],
{
    let mut m = String::from_str("hyprctl command '");
    m.append(command);
    m.append("' failed: ");
    m.append(stderr);
    Error::new(ErrorKind::Compositor, m)
}

/// The outcome of a dispatch of `command` whose process exited with success
/// or not.
pub fn hyprctl_dispatch(command: &str, succeeded: bool) -> (r: Result<(), Error>)
    ensures
        succeeded <==> r is Ok,
        r matches Err(e) ==> e.kind == ErrorKind::Compositor && views(e.messages@) == seq![
            dispatch_failed_message(command@),
        ],
{
    if succeeded {
        Ok(())
    } else {
        let mut m = String::from_str("hyprctl dispatch command '");
        m.append(command);
        m.append("' failed");
        Err(Error::new(ErrorKind::Compositor, m))
    }
}

/// Index of the first window at `address` in `clients`; the length when there
/// is none.
pub open spec fn first_at(clients: Seq<WindowInfo>, address: Seq<char>) -> int
    decreases clients.len(),
{
    if clients.len() == 0 {
        0
    } else if clients[0].address@ == address {
        0
    } else {
        1 + first_at(clients.drop_first(), address)
    }
}

/// Whether some window at `address` sits on a special (negative) workspace.
pub open spec fn is_minimized_in(clients: Seq<WindowInfo>, address: Seq<char>) -> bool {
    exists|i: int|
        0 <= i < clients.len() && #[trigger] clients[i].address@ == address
            && clients[i].workspace.id < 0
}

pub(crate) proof fn lemma_first_at(clients: Seq<WindowInfo>, address: Seq<char>, k: int)
    requires
        0 <= k <= clients.len(),
        forall|j: int| 0 <= j < k ==> #[trigger] clients[j].address@ != address,
        k == clients.len() || clients[k].address@ == address,
    ensures
        first_at(clients, address) == k,
    decreases k,
{
    if k > 0 {
        let rest = clients.drop_first();
        assert forall|j: int| 0 <= j < k - 1 implies #[trigger] rest[j].address@ != address by {
            assert(rest[j] == clients[j + 1]);
        }
        lemma_first_at(rest, address, k - 1);
    }
}

/// `Could not find a window with address '<address>'`
pub open spec fn not_found_message(address: Seq<char>) -> Seq<char> {
    "Could not find a window with address '"@ + address + "'"@
}

/// `Failed to get client list from Hyprland.`
pub open spec fn client_list_context() -> Seq<char> {
    "Failed to get client list from Hyprland."@
}

/// Finds the window at `address` in the outcome of a window-list query: the
/// first window at that address, or an error when the query failed or no
/// window is there.
pub fn get_window_by_address(clients: Result<Vec<WindowInfo>, Error>, address: &str) -> (r:
    Result<WindowInfo, Error>)
    ensures
        clients is Err ==> r is Err && r->Err_0.kind == clients->Err_0.kind && views(
            r->Err_0.messages@,
        ) == seq![client_list_context()] + views(clients->Err_0.messages@),
        clients is Ok && first_at(clients->Ok_0@, address@) < clients->Ok_0@.len() ==> r is Ok
            && r->Ok_0 == clients->Ok_0@[first_at(clients->Ok_0@, address@)],
        clients is Ok && first_at(clients->Ok_0@, address@) >= clients->Ok_0@.len() ==> r is Err
            && r->Err_0.kind == ErrorKind::Compositor && views(r->Err_0.messages@) == seq![
            not_found_message(address@),
        ],
{
    match clients {
        Err(e) => Err(e.context(String::from_str("Failed to get client list from Hyprland."))),
        Ok(mut list) => {
            let key = String::from_str(address);
            let mut i: usize = 0;
            while i < list.len()
                invariant
                    0 <= i <= list@.len(),
                    key@ == address@,
                    clients is Ok && list@ == clients->Ok_0@,
                    forall|j: int| 0 <= j < i ==> #[trigger] list@[j].address@ != address@,
                decreases list@.len() - i,
            {
                if key.eq(&list[i].address) {
                    proof {
                        lemma_first_at(list@, address@, i as int);
                    }
                    return Ok(list.swap_remove(i));
                }
                i = i + 1;
            }
            proof {
                lemma_first_at(list@, address@, i as int);
            }
            let mut m = String::from_str("Could not find a window with address '");
            m.append(address);
            m.append("'");
            Err(Error::new(ErrorKind::Compositor, m))
        },
    }
}

/// Whether some window at `address` sits on a special (negative) workspace.
pub fn is_minimized(clients: &Vec<WindowInfo>, address: &str) -> (r: bool)
    ensures
        r == is_minimized_in(clients@, address@),
{
    let key = String::from_str(address);
    let mut i: usize = 0;
    while i < clients.len()
        invariant
            0 <= i <= clients@.len(),
            key@ == address@,
            forall|j: int|
                0 <= j < i ==> !(#[trigger] clients@[j].address@ == address@
                    && clients@[j].workspace.id < 0),
        decreases clients@.len() - i,
    {
        if key.eq(&clients[i].address) && clients[i].workspace.id < 0 {
            return true;
        }
        i = i + 1;
    }
    false
}

/// What a workflow asks the program to do next.
#[derive(Debug)]
pub enum Request {
    /// Query the full window list.
    QueryClients,
    /// Query the active workspace.
    QueryActiveWorkspace,
    /// Send a dispatch command to the compositor.
    Dispatch(String),
    /// Append an address to the window stack.
    PushStack(String),
    /// Remove every entry of an address from the window stack.
    RemoveFromStack(String),
    /// Connect to the session bus, serve the tray objects and register the icon.
    SetupTray,
    /// Start the monitors and wait for the exit signal or an interrupt.
    AwaitExit,
}

/// What the program hands back after performing a `Request`.
#[derive(Debug)]
pub enum Reply {
    /// The window list.
    Clients(Vec<WindowInfo>),
    /// The active workspace.
    ActiveWorkspace(Workspace),
    /// The request succeeded; for `AwaitExit`, the exit signal fired.
    Done,
    /// `AwaitExit` ended by an interrupt from the operating system.
    Interrupted,
    /// The request failed.
    Failed(Error),
}

/// One step of a workflow: a request to perform, or the end with its result.
#[derive(Debug)]
pub enum Step<T> {
    Ask(Request),
    Finished(Result<T, Error>),
}

/// A `Request` as plain values.
pub enum Ask {
    QueryClients,
    QueryActiveWorkspace,
    Dispatch(Seq<char>),
    PushStack(Seq<char>),
    RemoveFromStack(Seq<char>),
    SetupTray,
    AwaitExit,
}

impl View for Request {
    type V = Ask;

    open spec fn view(&self) -> Ask {
        match self {
            Request::QueryClients => Ask::QueryClients,
            Request::QueryActiveWorkspace => Ask::QueryActiveWorkspace,
            Request::Dispatch(c) => Ask::Dispatch(c@),
            Request::PushStack(a) => Ask::PushStack(a@),
            Request::RemoveFromStack(a) => Ask::RemoveFromStack(a@),
            Request::SetupTray => Ask::SetupTray,
            Request::AwaitExit => Ask::AwaitExit,
        }
    }
}

/// A `Step` as plain values.
pub enum StepView<T> {
    Ask(Ask),
    Finished(Result<T, ErrorView>),
}

impl<T> View for Step<T> {
    type V = StepView<T>;

    open spec fn view(&self) -> StepView<T> {
        match self {
            Step::Ask(q) => StepView::Ask(q@),
            Step::Finished(Ok(t)) => StepView::Finished(Ok(*t)),
            Step::Finished(Err(e)) => StepView::Finished(Err(e@)),
        }
    }
}

impl<T> Step<T> {
    /// Whether the step is a request, not the end.
    pub fn is_ask(&self) -> (r: bool)
        ensures
            r == self is Ask,
    {
        match self {
            Step::Ask(_) => true,
            Step::Finished(_) => false,
        }
    }
}

} // verus!
