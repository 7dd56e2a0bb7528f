use hyprland_minimizer::action::{ActionRun, ErrorPolicy, WindowAction};
use hyprland_minimizer::compositor::{
    hyprctl_dispatch, Error, ErrorKind, Reply, Request, Step, WindowInfo, Workspace,
};
use hyprland_minimizer::tray::{
    tray_action, DbusMenu, SessionState, StatusNotifierItem, TraySession,
};

struct Compositor {
    active: i32,
    failing_dispatch: bool,
    failing_query: bool,
    dispatched: Vec<String>,
}

impl Compositor {
    fn new(active: i32) -> Compositor {
        Compositor { active, failing_dispatch: false, failing_query: false, dispatched: Vec::new() }
    }

    fn answer(&mut self, request: &Request) -> Reply {
        match request {
            Request::QueryActiveWorkspace => {
                if self.failing_query {
                    Reply::Failed(Error::new(ErrorKind::Compositor, "no workspace".to_string()))
                } else {
                    Reply::ActiveWorkspace(Workspace { id: self.active })
                }
            }
            Request::Dispatch(c) => {
                self.dispatched.push(c.clone());
                match hyprctl_dispatch(c, !self.failing_dispatch) {
                    Ok(()) => Reply::Done,
                    Err(e) => Reply::Failed(e),
                }
            }
            _ => panic!("unexpected request {:?}", request),
        }
    }
}

fn run(action: WindowAction, window: &WindowInfo, c: &mut Compositor) -> Result<(), Error> {
    let (mut run, mut step) = tray_action(action, window);
    loop {
        match step {
            Step::Ask(request) => {
                let reply = c.answer(&request);
                step = run.resume(reply);
            }
            Step::Finished(r) => return r,
        }
    }
}

/// Runs an action as a tray handler does: the exit signal fires once it ends.
fn handle(action: WindowAction, window: &WindowInfo, c: &mut Compositor) -> (Result<(), Error>, bool) {
    let mut session = TraySession::new();
    session.registered();
    session.begin_action();
    let r = run(action, window, c);
    session.end_action();
    let fired = session.observe_exit();
    assert!(!session.observe_exit());
    assert_eq!(session.state(), SessionState::Done);
    (r, fired)
}

fn test_window(address: &str, class: &str, title: &str) -> WindowInfo {
    WindowInfo {
        address: address.to_string(),
        class: class.to_string(),
        title: title.to_string(),
        workspace: Workspace { id: 1 },
    }
}

fn create_test_menu() -> DbusMenu {
    DbusMenu::new(test_window("0xTEST", "TestApp", "Test Window"))
}

#[test]
fn test_event_click_option_1_open_on_active() {
    let menu = create_test_menu();
    let mut c = Compositor::new(5);
    let action = menu.event(1, "clicked").unwrap();
    let (r, fired) = handle(action, &menu.window_info, &mut c);
    assert!(r.is_ok());
    assert_eq!(c.dispatched.len(), 2);
    assert_eq!(c.dispatched[0], "movetoworkspace 5,address:0xTEST");
    assert_eq!(c.dispatched[1], "focuswindow address:0xTEST");
    assert!(fired);
}

#[test]
fn test_event_click_option_2_open_on_original() {
    let menu = create_test_menu();
    let mut c = Compositor::new(10);
    let action = menu.event(2, "clicked").unwrap();
    let (_, fired) = handle(action, &menu.window_info, &mut c);
    assert_eq!(c.dispatched.len(), 2);
    assert_eq!(c.dispatched[0], "movetoworkspace 1,address:0xTEST");
    assert_eq!(c.dispatched[1], "focuswindow address:0xTEST");
    assert!(fired);
}

#[test]
fn test_event_click_option_3_close_window() {
    let menu = create_test_menu();
    let mut c = Compositor::new(10);
    let action = menu.event(3, "clicked").unwrap();
    let (_, fired) = handle(action, &menu.window_info, &mut c);
    assert_eq!(c.dispatched.len(), 1);
    assert_eq!(c.dispatched[0], "closewindow address:0xTEST");
    assert!(fired);
}

#[test]
fn test_activate_restores_and_focuses_window() {
    let item = StatusNotifierItem::new(test_window("0xNOTIFY_TEST", "NotifierApp", "Notifier Window"));
    let mut c = Compositor::new(7);
    let (_, fired) = handle(item.activate(0, 0), &item.window_info, &mut c);
    assert_eq!(c.dispatched.len(), 2);
    assert_eq!(c.dispatched[0], "movetoworkspace 7,address:0xNOTIFY_TEST");
    assert_eq!(c.dispatched[1], "focuswindow address:0xNOTIFY_TEST");
    assert!(fired);
}

#[test]
fn test_secondary_activate_closes_window() {
    let item = StatusNotifierItem::new(test_window("0xNOTIFY_TEST", "NotifierApp", "Notifier Window"));
    let mut c = Compositor::new(10);
    let (_, fired) = handle(item.secondary_activate(0, 0), &item.window_info, &mut c);
    assert_eq!(c.dispatched.len(), 1);
    assert_eq!(c.dispatched[0], "closewindow address:0xNOTIFY_TEST");
    assert!(fired);
}

#[test]
fn activate_dispatches_move_then_focus() {
    let item = StatusNotifierItem::new(test_window("0xAAA", "App", "Title"));
    let mut c = Compositor::new(5);
    let (r, fired) = handle(item.activate(0, 0), &item.window_info, &mut c);
    assert!(r.is_ok());
    assert_eq!(c.dispatched, vec!["movetoworkspace 5,address:0xAAA", "focuswindow address:0xAAA"]);
    assert!(fired);
}

#[test]
fn activate_fires_exit_once_when_a_dispatch_fails() {
    let item = StatusNotifierItem::new(test_window("0xAAA", "App", "Title"));
    let mut c = Compositor::new(5);
    c.failing_dispatch = true;
    let (r, fired) = handle(item.activate(0, 0), &item.window_info, &mut c);
    assert_eq!(
        r.unwrap_err().message(),
        "hyprctl dispatch command 'movetoworkspace 5,address:0xAAA' failed"
    );
    assert_eq!(c.dispatched, vec!["movetoworkspace 5,address:0xAAA", "focuswindow address:0xAAA"]);
    assert!(fired);
}

#[test]
fn open_on_origin_focuses_after_a_failed_move_and_reports_the_first_error() {
    let menu = create_test_menu();
    let mut c = Compositor::new(5);
    c.failing_dispatch = true;
    let (r, fired) = handle(WindowAction::OpenOnOrigin, &menu.window_info, &mut c);
    assert_eq!(
        r.unwrap_err().message(),
        "hyprctl dispatch command 'movetoworkspace 1,address:0xTEST' failed"
    );
    assert_eq!(c.dispatched, vec!["movetoworkspace 1,address:0xTEST", "focuswindow address:0xTEST"]);
    assert!(fired);
}

#[test]
fn activate_without_an_active_workspace_dispatches_nothing() {
    let item = StatusNotifierItem::new(test_window("0xAAA", "App", "Title"));
    let mut c = Compositor::new(5);
    c.failing_query = true;
    let (r, fired) = handle(item.activate(0, 0), &item.window_info, &mut c);
    assert_eq!(r.unwrap_err().message(), "no workspace");
    assert!(c.dispatched.is_empty());
    assert!(fired);
}

#[test]
fn strict_actions_stop_at_the_first_failure() {
    let w = test_window("0xAAA", "App", "Title");
    let mut c = Compositor::new(5);
    c.failing_dispatch = true;
    let (mut run, mut step) = ActionRun::start(WindowAction::OpenOnActive, &w, ErrorPolicy::StopAtFirst);
    let r = loop {
        match step {
            Step::Ask(request) => {
                let reply = c.answer(&request);
                step = run.resume(reply);
            }
            Step::Finished(r) => break r,
        }
    };
    assert!(r.is_err());
    assert_eq!(c.dispatched, vec!["movetoworkspace 5,address:0xAAA"]);
}

#[test]
fn a_click_before_registration_still_fires_exit() {
    let mut session = TraySession::new();
    session.begin_action();
    assert_eq!(session.state(), SessionState::Registering);
    session.end_action();
    assert!(session.observe_exit());
    assert_eq!(session.state(), SessionState::Done);
    session.end_action();
    assert!(!session.observe_exit());
}

#[test]
fn layout_is_fixed_for_any_parent_and_depth() {
    let mut w = test_window("0xTEST", "TestApp", "Test Window");
    w.workspace = Workspace { id: -3 };
    let menu = DbusMenu::new(w);
    for (parent, depth) in [(0, -1), (1, 0), (-7, 5), (i32::MAX, i32::MIN)] {
        let layout = menu.get_layout(parent, depth);
        assert_eq!(layout.revision, 2);
        assert_eq!(layout.root_id, 0);
        assert_eq!(layout.children_display, "submenu");
        let ids: Vec<i32> = layout.items.iter().map(|i| i.id).collect();
        assert_eq!(ids, vec![1, 2, 3]);
        assert_eq!(layout.items[0].label, "Open Test Window");
        assert_eq!(layout.items[1].label, "Open on original workspace (-3)");
        assert_eq!(layout.items[2].label, "Close Test Window");
        assert!(layout.items.iter().all(|i| i.kind == "standard"));
    }
}

#[test]
fn group_properties_skip_unknown_ids() {
    let menu = create_test_menu();
    let props = menu.get_group_properties(&vec![3, 0, 1, 4, 2, 3]);
    let ids: Vec<i32> = props.iter().map(|p| p.id).collect();
    assert_eq!(ids, vec![3, 1, 2, 3]);
    assert_eq!(props[0].label, "Close Test Window");
    assert_eq!(props[1].label, "Open Test Window");
    assert_eq!(props[2].label, "Open on original workspace (1)");
    assert!(props.iter().all(|p| p.enabled && p.visible && p.kind == "standard"));
    assert!(menu.get_group_properties(&vec![]).is_empty());
}

#[test]
fn only_clicks_on_items_start_actions() {
    let menu = create_test_menu();
    assert_eq!(menu.event(1, "hovered"), None);
    assert_eq!(menu.event(4, "clicked"), None);
    assert_eq!(menu.event(0, "clicked"), None);
    assert_eq!(menu.event(2, "clicked"), Some(WindowAction::OpenOnOrigin));
    let events = vec![
        (1, "opened".to_string()),
        (3, "clicked".to_string()),
        (9, "clicked".to_string()),
        (1, "clicked".to_string()),
    ];
    assert_eq!(menu.event_group(&events), vec![WindowAction::Close, WindowAction::OpenOnActive]);
}

#[test]
fn menu_and_icon_properties() {
    let menu = create_test_menu();
    assert!(!menu.about_to_show(1));
    let (updates, removed) = menu.about_to_show_group(&vec![1, 2]);
    assert!(updates.is_empty() && removed.is_empty());
    assert_eq!(menu.version(), 3);
    assert_eq!(menu.text_direction(), "ltr");
    assert_eq!(menu.status(), "normal");

    let item = StatusNotifierItem::new(test_window("0x1", "kitty", "Shell"));
    assert_eq!(item.category(), "ApplicationStatus");
    assert_eq!(item.id(), "kitty");
    assert_eq!(item.title(), "Shell");
    assert_eq!(item.status(), "Active");
    assert_eq!(item.icon_name(), "kitty");
    let tip = item.tool_tip();
    assert_eq!(tip.title, "Shell");
    assert!(tip.icon_name.is_empty() && tip.icon_pixmaps.is_empty() && tip.description.is_empty());
    assert!(!item.item_is_menu());
    assert_eq!(item.menu(), "/Menu");
}

#[test]
fn exit_signal_is_a_single_slot() {
    let mut session = TraySession::new();
    assert_eq!(session.state(), SessionState::Registering);
    assert!(!session.observe_exit());
    session.registered();
    session.fire_exit();
    session.fire_exit();
    assert!(session.observe_exit());
    assert!(!session.observe_exit());
    session.fire_exit();
    assert!(!session.observe_exit());
}
