//! The tray session: the status-notifier icon and its menu, both bound to one
//! minimized window, and the session's life cycle.
//!
//! The program serves these objects on the session bus; what they answer and
//! which window action a user's click starts is decided here.
use vstd::prelude::*;

use crate::action::{action_start, ActionRun, ErrorPolicy, WindowAction};
use crate::compositor::{Step, WindowInfo};
use crate::text::{int_decimal, push_decimal};

verus! {

/// `Open <title>`
pub open spec fn open_label(title: Seq<char>) -> Seq<char> {
    "Open "@ + title
}

/// `Open on original workspace (<workspace>)`
pub open spec fn origin_label(workspace: int) -> Seq<char> {
    "Open on original workspace ("@ + int_decimal(workspace) + ")"@
}

/// `Close <title>`
pub open spec fn close_label(title: Seq<char>) -> Seq<char> {
    "Close "@ + title
}

/// The label of menu item `id` for `window`.
pub open spec fn item_label(window: WindowInfo, id: i32) -> Seq<char> {
    if id == 1 {
        open_label(window.title@)
    } else if id == 2 {
        origin_label(window.workspace.id as int)
    } else {
        close_label(window.title@)
    }
}

/// Whether `id` names one of the three menu items.
pub open spec fn is_item(id: i32) -> bool {
    1 <= id <= 3
}

/// The action that a menu event starts: a click on one of the three items.
pub open spec fn click_action(id: i32, event_id: Seq<char>) -> Option<WindowAction> {
    if event_id != "clicked"@ {
        None
    } else if id == 1 {
        Some(WindowAction::OpenOnActive)
    } else if id == 2 {
        Some(WindowAction::OpenOnOrigin)
    } else if id == 3 {
        Some(WindowAction::Close)
    } else {
        None
    }
}

fn label_of(window: &WindowInfo, id: i32) -> (r: String)
    ensures
        r@ == item_label(*window, id),
{
    if id == 1 {
        let mut s = String::from_str("Open ");
        s.append(window.title.as_str());
        s
    } else if id == 2 {
        let mut s = String::from_str("Open on original workspace (");
        push_decimal(&mut s, window.workspace.id);
        s.append(")");
        s
    } else {
        let mut s = String::from_str("Close ");
        s.append(window.title.as_str());
        s
    }
}

/// Starts an action that a click on the icon or its menu picked. A failed
/// dispatch is logged by the caller and the action goes on: a failed move is
/// still followed by the focus dispatch.
pub fn tray_action(action: WindowAction, window: &WindowInfo) -> (r: (ActionRun, Step<()>))
    ensures
        (r.0@, r.1@) == action_start(
            action,
            window.address@,
            window.workspace.id,
            ErrorPolicy::Continue,
        ),
{
    ActionRun::start(action, window, ErrorPolicy::Continue)
}

/// The tool tip of the icon: icon name, icon pixmaps, title and description.
#[derive(Debug)]
pub struct ToolTip {
    pub icon_name: String,
    pub icon_pixmaps: Vec<(i32, i32, Vec<u8>)>,
    pub title: String,
    pub description: String,
}

/// The status-notifier icon of a minimized window.
#[derive(Debug)]
pub struct StatusNotifierItem {
    pub window_info: WindowInfo,
}

impl StatusNotifierItem {
    /// The icon of `window_info`.
    pub fn new(window_info: WindowInfo) -> (r: StatusNotifierItem)
        ensures
            r.window_info == window_info,
    {
        StatusNotifierItem { window_info }
    }

    /// The item's category.
    pub fn category(&self) -> (r: &'static str)
        ensures
            r@ == "ApplicationStatus"@,
    {
        "ApplicationStatus"
    }

    /// The item's identifier: the window's class.
    pub fn id(&self) -> (r: &str)
        ensures
            r@ == self.window_info.class@,
    {
        self.window_info.class.as_str()
    }

    /// The item's title: the window's title.
    pub fn title(&self) -> (r: &str)
        ensures
            r@ == self.window_info.title@,
    {
        self.window_info.title.as_str()
    }

    /// The item's status.
    pub fn status(&self) -> (r: &'static str)
        ensures
            r@ == "Active"@,
    {
        "Active"
    }

    /// The item's icon name: the window's class.
    pub fn icon_name(&self) -> (r: &str)
        ensures
            r@ == self.window_info.class@,
    {
        self.window_info.class.as_str()
    }

    /// The tool tip: the window's title, nothing else.
    pub fn tool_tip(&self) -> (r: ToolTip)
        ensures
            r.icon_name@ == Seq::<char>::empty(),
            r.icon_pixmaps@.len() == 0,
            r.title@ == self.window_info.title@,
            r.description@ == Seq::<char>::empty(),
    {
        ToolTip {
            icon_name: String::new(),
            icon_pixmaps: Vec::new(),
            title: self.window_info.title.clone(),
            description: String::new(),
        }
    }

    /// The item is not only a menu: it can be activated.
    pub fn item_is_menu(&self) -> (r: bool)
        ensures
            !r,
    {
        false
    }

    /// The object path of the companion menu.
    pub fn menu(&self) -> (r: &'static str)
        ensures
            r@ == "/Menu"@,
    {
        "/Menu"
    }

    /// A primary click: open the window on the active workspace.
    pub fn activate(&self, x: i32, y: i32) -> (r: WindowAction)
        ensures
            r == WindowAction::OpenOnActive,
    {
        WindowAction::OpenOnActive
    }

    /// A secondary click: close the window.
    pub fn secondary_activate(&self, x: i32, y: i32) -> (r: WindowAction)
        ensures
            r == WindowAction::Close,
    {
        WindowAction::Close
    }
}

/// One leaf of the menu layout.
#[derive(Debug)]
pub struct MenuItem {
    pub id: i32,
    pub label: String,
    pub kind: String,
}

/// The menu layout: a root node with its children.
#[derive(Debug)]
pub struct MenuLayout {
    pub revision: u32,
    pub root_id: i32,
    pub children_display: String,
    pub items: Vec<MenuItem>,
}

/// The properties of one menu item.
#[derive(Debug)]
pub struct ItemProperties {
    pub id: i32,
    pub label: String,
    pub enabled: bool,
    pub visible: bool,
    pub kind: String,
}

/// The menu of the status-notifier icon of a minimized window.
#[derive(Debug)]
pub struct DbusMenu {
    pub window_info: WindowInfo,
}

impl DbusMenu {
    /// The menu of `window_info`.
    pub fn new(window_info: WindowInfo) -> (r: DbusMenu)
        ensures
            r.window_info == window_info,
    {
        DbusMenu { window_info }
    }

    fn item(&self, id: i32) -> (r: MenuItem)
        ensures
            r.id == id,
            r.label@ == item_label(self.window_info, id),
            r.kind@ == "standard"@,
    {
        MenuItem { id, label: label_of(&self.window_info, id), kind: String::from_str("standard") }
    }

    /// The layout: three items, the same for any parent and depth asked for.
    pub fn get_layout(&self, parent_id: i32, recursion_depth: i32) -> (r: MenuLayout)
        ensures
            r.revision == 2,
            r.root_id == 0,
            r.children_display@ == "submenu"@,
            r.items@.len() == 3,
            forall|k: int|
                0 <= k < 3 ==> (#[trigger] r.items@[k]).id == k + 1 && r.items@[k].label@
                    == item_label(self.window_info, (k + 1) as i32) && r.items@[k].kind@
                    == "standard"@,
    {
        let mut items: Vec<MenuItem> = Vec::new();
        items.push(self.item(1));
        items.push(self.item(2));
        items.push(self.item(3));
        MenuLayout {
            revision: 2,
            root_id: 0,
            children_display: String::from_str("submenu"),
            items,
        }
    }

    /// The properties of each requested item, in the order asked; ids of no
    /// item are skipped.
    pub fn get_group_properties(&self, ids: &Vec<i32>) -> (r: Vec<ItemProperties>)
        ensures
            r@.map_values(|p: ItemProperties| p.id) == ids@.filter(|i: i32| is_item(i)),
            forall|k: int|
                0 <= k < r@.len() ==> (#[trigger] r@[k]).label@ == item_label(
                    self.window_info,
                    r@[k].id,
                ) && r@[k].enabled && r@[k].visible && r@[k].kind@ == "standard"@,
    {
        let ghost pred = |i: i32| is_item(i);
        let mut r: Vec<ItemProperties> = Vec::new();
        let mut n: usize = 0;
        while n < ids.len()
            invariant
                0 <= n <= ids@.len(),
                pred == (|i: i32| is_item(i)),
                r@.map_values(|p: ItemProperties| p.id) == ids@.subrange(0, n as int).filter(
                    pred,
                ),
                forall|k: int|
                    0 <= k < r@.len() ==> (#[trigger] r@[k]).label@ == item_label(
                        self.window_info,
                        r@[k].id,
                    ) && r@[k].enabled && r@[k].visible && r@[k].kind@ == "standard"@,
            decreases ids@.len() - n,
        {
            let id = ids[n];
            let ghost before = r@;
            proof {
                let s = ids@.subrange(0, n + 1);
                assert(s.drop_last() =~= ids@.subrange(0, n as int));
                assert(s.last() == id);
                reveal(Seq::filter);
                assert(s.filter(pred) == if pred(s.last()) {
                    s.drop_last().filter(pred).push(s.last())
                } else {
                    s.drop_last().filter(pred)
                });
            }
            if 1 <= id && id <= 3 {
                r.push(
                    ItemProperties {
                        id,
                        label: label_of(&self.window_info, id),
                        enabled: true,
                        visible: true,
                        kind: String::from_str("standard"),
                    },
                );
                proof {
                    assert(r@.map_values(|p: ItemProperties| p.id) =~= before.map_values(
                        |p: ItemProperties| p.id,
                    ).push(id));
                }
            }
            n = n + 1;
        }
        assert(ids@.subrange(0, n as int) =~= ids@);
        r
    }

    /// The action that an event on item `id` starts: only clicks on the three
    /// items start one.
    pub fn event(&self, id: i32, event_id: &str) -> (r: Option<WindowAction>)
        ensures
            r == click_action(id, event_id@),
    {
        let clicked = String::from_str("clicked");
        let e = String::from_str(event_id);
        if !e.eq(&clicked) {
            None
        } else if id == 1 {
            Some(WindowAction::OpenOnActive)
        } else if id == 2 {
            Some(WindowAction::OpenOnOrigin)
        } else if id == 3 {
            Some(WindowAction::Close)
        } else {
            None
        }
    }

    /// The actions that a batch of events `(id, event id)` starts, in order.
    pub fn event_group(&self, events: &Vec<(i32, String)>) -> (r: Vec<WindowAction>)
        ensures
            r@ == events@.filter_map(|e: (i32, String)| click_action(e.0, e.1@)),
    {
        let ghost f = |e: (i32, String)| click_action(e.0, e.1@);
        let mut r: Vec<WindowAction> = Vec::new();
        let mut n: usize = 0;
        while n < events.len()
            invariant
                0 <= n <= events@.len(),
                f == (|e: (i32, String)| click_action(e.0, e.1@)),
                r@ == events@.subrange(0, n as int).filter_map(f),
            decreases events@.len() - n,
        {
            let a = self.event(events[n].0, events[n].1.as_str());
            proof {
                let s = events@.subrange(0, n + 1);
                assert(s.drop_last() =~= events@.subrange(0, n as int));
                assert(s.last() == events@[n as int]);
            }
            match a {
                Some(action) => {
                    r.push(action);
                },
                None => {},
            }
            proof {
                let s = events@.subrange(0, n + 1);
                assert(r@ =~= s.filter_map(f));
            }
            n = n + 1;
        }
        assert(events@.subrange(0, n as int) =~= events@);
        r
    }

    /// Nothing needs updating before the menu is shown.
    pub fn about_to_show(&self, id: i32) -> (r: bool)
        ensures
            !r,
    {
        false
    }

    /// No item needs updating and none was removed.
    pub fn about_to_show_group(&self, ids: &Vec<i32>) -> (r: (Vec<i32>, Vec<i32>))
        ensures
            r.0@.len() == 0,
            r.1@.len() == 0,
    {
        (Vec::new(), Vec::new())
    }

    /// The menu protocol version.
    pub fn version(&self) -> (r: u32)
        ensures
            r == 3,
    {
        3
    }

    /// The text direction.
    pub fn text_direction(&self) -> (r: &'static str)
        ensures
            r@ == "ltr"@,
    {
        "ltr"
    }

    /// The menu's status.
    pub fn status(&self) -> (r: &'static str)
        ensures
            r@ == "normal"@,
    {
        "normal"
    }
}

/// Where a tray session stands.
#[derive(Clone, Copy, Debug, PartialEq, Eq, Structural)]
pub enum SessionState {
    /// The icon is not registered yet.
    Registering,
    /// Waiting for the user or a monitor.
    Registered,
    /// A user's action is running.
    Acting,
    /// The exit signal was observed; nothing follows.
    Done,
}

/// The life cycle of a tray session, with its exit signal: a single slot that
/// any number of producers may fire and one consumer observes.
#[derive(Debug)]
pub struct TraySession {
    state: SessionState,
    exit_pending: bool,
}

impl View for TraySession {
    type V = (SessionState, bool);

    closed spec fn view(&self) -> (SessionState, bool) {
        (self.state, self.exit_pending)
    }
}

impl TraySession {
    /// A session whose icon is being registered.
    pub fn new() -> (r: TraySession)
        ensures
            r@ == (SessionState::Registering, false),
    {
        TraySession { state: SessionState::Registering, exit_pending: false }
    }

    /// The session's state.
    pub fn state(&self) -> (r: SessionState)
        ensures
            r == self@.0,
    {
        self.state
    }

    /// The icon is registered.
    pub fn registered(&mut self)
        ensures
            final(self)@ == if old(self)@.0 == SessionState::Registering {
                (SessionState::Registered, old(self)@.1)
            } else {
                old(self)@
            },
    {
        if self.state == SessionState::Registering {
            self.state = SessionState::Registered;
        }
    }

    /// A user's action starts.
    pub fn begin_action(&mut self)
        ensures
            final(self)@ == if old(self)@.0 == SessionState::Registered {
                (SessionState::Acting, old(self)@.1)
            } else {
                old(self)@
            },
    {
        if self.state == SessionState::Registered {
            self.state = SessionState::Acting;
        }
    }

    /// A user's action ended, whatever its outcome and whatever state the
    /// session is in: the exit signal fires unless the session is done.
    pub fn end_action(&mut self)
        ensures
            final(self)@ == if old(self)@.0 == SessionState::Done {
                old(self)@
            } else if old(self)@.0 == SessionState::Acting {
                (SessionState::Registered, true)
            } else {
                (old(self)@.0, true)
            },
    {
        if self.state == SessionState::Acting {
            self.state = SessionState::Registered;
        }
        if self.state != SessionState::Done {
            self.exit_pending = true;
        }
    }

    /// A monitor or an interrupt fires the exit signal; firing it again before
    /// it is observed changes nothing.
    pub fn fire_exit(&mut self)
        ensures
            final(self)@ == if old(self)@.0 == SessionState::Done {
                old(self)@
            } else {
                (old(self)@.0, true)
            },
    {
        if self.state != SessionState::Done {
            self.exit_pending = true;
        }
    }

    /// The orchestrator looks at the exit signal: when it fired, the session
    /// is done and `true` comes back, once.
    pub fn observe_exit(&mut self) -> (r: bool)
        ensures
            r == (old(self)@.1 && old(self)@.0 != SessionState::Done),
            final(self)@ == if r {
                (SessionState::Done, false)
            } else {
                old(self)@
            },
    {
        if self.exit_pending && self.state != SessionState::Done {
            self.state = SessionState::Done;
            self.exit_pending = false;
            true
        } else {
            false
        }
    }
}

} // verus!
