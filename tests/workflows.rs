use hyprland_minimizer::compositor::{
    hyprctl_dispatch, Error, ErrorKind, Reply, Request, Step, WindowInfo, Workspace,
};
use hyprland_minimizer::config::{Config, RestoreTarget};
use hyprland_minimizer::launcher::{minimized_windows, Menu, RestoreSelected};
use hyprland_minimizer::minimize::{
    bus_name, poll_window_state, watcher_restarted, MinimizeSession, PollVerdict,
};
use hyprland_minimizer::restore::{RestoreLast, RestoreOutcome};
use hyprland_minimizer::stack::Stack;

/// A compositor, stack and tray host that answer the workflows' requests.
struct World {
    clients: Vec<WindowInfo>,
    active: i32,
    dispatched: Vec<String>,
    queries: usize,
    stack: Stack,
    tray_failure: Option<String>,
    interrupted: bool,
    failing_dispatch: bool,
    failing_workspace_query: bool,
}

impl World {
    fn new() -> World {
        World {
            clients: Vec::new(),
            active: 1,
            dispatched: Vec::new(),
            queries: 0,
            stack: Stack::new("/tmp/stack-under-test"),
            tray_failure: None,
            interrupted: false,
            failing_dispatch: false,
            failing_workspace_query: false,
        }
    }

    fn answer(&mut self, request: &Request) -> Reply {
        match request {
            Request::QueryClients => {
                self.queries += 1;
                Reply::Clients(self.clients.clone())
            }
            Request::QueryActiveWorkspace => {
                self.queries += 1;
                if self.failing_workspace_query {
                    Reply::Failed(Error::new(ErrorKind::Compositor, "no workspace".to_string()))
                } else {
                    Reply::ActiveWorkspace(Workspace { id: self.active })
                }
            }
            Request::Dispatch(c) => {
                self.dispatched.push(c.clone());
                match hyprctl_dispatch(c, !self.failing_dispatch) {
                    Ok(()) => Reply::Done,
                    Err(e) => Reply::Failed(e),
                }
            }
            Request::PushStack(a) => {
                self.stack.push(a);
                Reply::Done
            }
            Request::RemoveFromStack(a) => {
                self.stack.remove(a);
                Reply::Done
            }
            Request::SetupTray => match &self.tray_failure {
                Some(m) => Reply::Failed(Error::new(ErrorKind::IpcSetup, m.clone())),
                None => Reply::Done,
            },
            Request::AwaitExit => {
                if self.interrupted {
                    Reply::Interrupted
                } else {
                    Reply::Done
                }
            }
        }
    }

    fn restore_last(&mut self, config: &Config) -> Result<RestoreOutcome, Error> {
        let popped = self.stack.pop();
        let (mut m, mut step) = RestoreLast::start(popped, config);
        loop {
            match step {
                Step::Ask(q) => {
                    let reply = self.answer(&q);
                    step = m.resume(reply);
                }
                Step::Finished(r) => return r,
            }
        }
    }

    fn minimize(&mut self, window: WindowInfo) -> Result<(), Error> {
        let (mut m, mut step) = MinimizeSession::start(window, "special:minimized");
        loop {
            match step {
                Step::Ask(q) => {
                    let reply = self.answer(&q);
                    step = m.resume(reply);
                }
                Step::Finished(r) => return r,
            }
        }
    }

    fn restore_selected(&mut self, mut m: RestoreSelected, mut step: Step<()>) -> Result<(), Error> {
        loop {
            match step {
                Step::Ask(q) => {
                    let reply = self.answer(&q);
                    step = m.resume(reply);
                }
                Step::Finished(r) => return r,
            }
        }
    }
}

fn window(address: &str, id: i32) -> WindowInfo {
    WindowInfo {
        address: address.to_string(),
        workspace: Workspace { id },
        title: "Test".to_string(),
        class: "Test".to_string(),
    }
}

#[test]
fn test_restore_with_window_in_special_workspace() {
    let mut w = World::new();
    w.stack.push("0xRESTORE_TEST");
    w.active = 3;
    w.clients = vec![window("0xRESTORE_TEST", -99)];

    let r = w.restore_last(&Config::default());
    assert_eq!(r.unwrap(), RestoreOutcome::Restored);

    assert_eq!(w.dispatched.len(), 2);
    assert_eq!(w.dispatched[0], "movetoworkspace 3,address:0xRESTORE_TEST");
    assert_eq!(w.dispatched[1], "focuswindow address:0xRESTORE_TEST");
    assert!(w.stack.pop().is_none());
}

#[test]
fn test_restore_when_window_not_minimized() {
    let mut w = World::new();
    w.stack.push("0xALREADY_OPEN");
    w.clients = vec![window("0xALREADY_OPEN", 2)];

    let r = w.restore_last(&Config::default());
    assert_eq!(r.unwrap(), RestoreOutcome::NotMinimized);
    assert!(w.dispatched.is_empty());
    assert!(w.stack.pop().is_none());
}

#[test]
fn test_restore_with_empty_stack() {
    let mut w = World::new();
    let r = w.restore_last(&Config::default());
    assert_eq!(r.unwrap(), RestoreOutcome::NothingToRestore);
    assert!(w.dispatched.is_empty());
    assert_eq!(w.queries, 0);
}

#[test]
fn restore_last_moves_to_active_then_focuses() {
    let mut w = World::new();
    w.stack.push("0xBBB");
    w.active = 2;
    w.clients = vec![window("0xBBB", -5)];
    assert_eq!(w.restore_last(&Config::default()).unwrap(), RestoreOutcome::Restored);
    assert_eq!(w.dispatched, vec!["movetoworkspace 2,address:0xBBB", "focuswindow address:0xBBB"]);
    assert!(w.stack.entries().is_empty());
}

#[test]
fn restore_last_of_an_externally_restored_window_does_nothing() {
    let mut w = World::new();
    w.stack.push("0xCCC");
    w.clients = vec![window("0xCCC", 4)];
    assert_eq!(w.restore_last(&Config::default()).unwrap(), RestoreOutcome::NotMinimized);
    assert!(w.dispatched.is_empty());
    assert!(w.stack.entries().is_empty());
}

#[test]
fn restore_last_of_a_closed_window_does_nothing() {
    let mut w = World::new();
    w.stack.push("0xGONE");
    w.clients = vec![window("0xOTHER", -99)];
    assert_eq!(w.restore_last(&Config::default()).unwrap(), RestoreOutcome::NotMinimized);
    assert!(w.dispatched.is_empty());
}

#[test]
fn restore_last_to_original_only_focuses() {
    let mut w = World::new();
    w.stack.push("0xBBB");
    w.clients = vec![window("0xBBB", -5)];
    let mut config = Config::default();
    config.restore_to = Some(RestoreTarget::Original);
    assert_eq!(w.restore_last(&config).unwrap(), RestoreOutcome::Restored);
    assert_eq!(w.dispatched, vec!["focuswindow address:0xBBB"]);
}

#[test]
fn restore_last_reports_a_failed_query() {
    let mut config = Config::default();
    config.restore_to = None;
    let (mut m, step) = RestoreLast::start(Some("0x1".to_string()), &config);
    assert!(matches!(step, Step::Ask(Request::QueryClients)));
    let failure = Error::new(ErrorKind::Compositor, "boom".to_string());
    match m.resume(Reply::Failed(failure)) {
        Step::Finished(Err(e)) => {
            assert_eq!(e.messages, vec!["Failed to get client list to verify window existence.", "boom"]);
        }
        other => panic!("unexpected step {:?}", other),
    }
}

#[test]
fn test_watcher_registration_failure_recovery() {
    let mut w = World::new();
    w.tray_failure = Some("Mock D-Bus setup failed".to_string());
    let test_window = WindowInfo {
        address: "0xMINIMIZE_TEST".to_string(),
        class: "TestApp".to_string(),
        title: "Test Window".to_string(),
        workspace: Workspace { id: 1 },
    };

    let result = w.minimize(test_window);

    assert!(result.is_err(), "Expected run_tray_app to fail");
    let err_string = result.unwrap_err().message();
    assert!(
        err_string.contains("Mock D-Bus setup failed"),
        "Error message did not match expected failure reason"
    );
    assert_eq!(w.dispatched.len(), 2, "Expected exactly 2 dispatch calls");
    assert_eq!(w.dispatched[0], "movetoworkspacesilent special:minimized,address:0xMINIMIZE_TEST");
    assert_eq!(w.dispatched[1], "movetoworkspace 1,address:0xMINIMIZE_TEST");
    assert!(w.stack.pop().is_none(), "Stack should be empty after recovery");
}

#[test]
fn minimize_rolls_back_when_tray_setup_fails() {
    let mut w = World::new();
    w.tray_failure = Some("no session bus".to_string());
    let r = w.minimize(window("0xABC", 4));
    assert_eq!(r.unwrap_err().kind, ErrorKind::IpcSetup);
    assert_eq!(
        w.dispatched,
        vec!["movetoworkspacesilent special:minimized,address:0xABC", "movetoworkspace 4,address:0xABC"]
    );
    assert!(w.stack.entries().is_empty());
}

#[test]
fn rollback_removes_the_entry_even_when_the_move_back_fails() {
    let mut w = World::new();
    w.stack.push("0xKEEP");
    w.tray_failure = Some("no session bus".to_string());
    let (mut m, mut step) = MinimizeSession::start(window("0xABC", 4), "special:minimized");
    let mut hidden = false;
    let r = loop {
        match step {
            Step::Ask(q) => {
                // The hiding dispatch succeeds; the move back fails.
                w.failing_dispatch = hidden;
                if let Request::Dispatch(_) = q {
                    hidden = true;
                }
                let reply = w.answer(&q);
                step = m.resume(reply);
            }
            Step::Finished(r) => break r,
        }
    };
    let e = r.unwrap_err();
    assert_eq!(e.kind, ErrorKind::IpcSetup);
    assert_eq!(e.message(), "no session bus");
    assert_eq!(
        w.dispatched,
        vec!["movetoworkspacesilent special:minimized,address:0xABC", "movetoworkspace 4,address:0xABC"]
    );
    assert_eq!(w.stack.entries(), vec!["0xKEEP"]);
}

#[test]
fn restore_last_adds_context_to_a_failed_workspace_query() {
    let mut w = World::new();
    w.stack.push("0xBBB");
    w.clients = vec![window("0xBBB", -5)];
    w.failing_workspace_query = true;
    let e = w.restore_last(&Config::default()).unwrap_err();
    assert_eq!(e.messages, vec!["Failed to get active workspace for restoration.", "no workspace"]);
    assert!(w.dispatched.is_empty());
}

#[test]
fn restore_last_stops_at_a_failed_move() {
    let mut w = World::new();
    w.stack.push("0xBBB");
    w.clients = vec![window("0xBBB", -5)];
    w.failing_dispatch = true;
    assert!(w.restore_last(&Config::default()).is_err());
    assert_eq!(w.dispatched, vec!["movetoworkspace 1,address:0xBBB"]);
}

#[test]
fn minimize_pushes_before_hiding_and_cleans_up_on_exit() {
    let (mut m, step) = MinimizeSession::start(window("0xA", 2), "special:minimized");
    match step {
        Step::Ask(Request::PushStack(a)) => assert_eq!(a, "0xA"),
        other => panic!("unexpected step {:?}", other),
    }
    match m.resume(Reply::Done) {
        Step::Ask(Request::Dispatch(c)) => {
            assert_eq!(c, "movetoworkspacesilent special:minimized,address:0xA")
        }
        other => panic!("unexpected step {:?}", other),
    }

    let mut w = World::new();
    assert!(w.minimize(window("0xA", 2)).is_ok());
    assert_eq!(w.dispatched, vec!["movetoworkspacesilent special:minimized,address:0xA"]);
    assert!(w.stack.entries().is_empty());
}

#[test]
fn minimize_moves_back_on_interrupt() {
    let mut w = World::new();
    w.interrupted = true;
    assert!(w.minimize(window("0xA", 6)).is_ok());
    assert_eq!(
        w.dispatched,
        vec!["movetoworkspacesilent special:minimized,address:0xA", "movetoworkspace 6,address:0xA"]
    );
    assert!(w.stack.entries().is_empty());
}

#[test]
fn minimize_fails_when_the_stack_cannot_be_written() {
    let (mut m, _) = MinimizeSession::start(window("0xA", 2), "special:minimized");
    let failure = Error::new(ErrorKind::StackIo, "Failed to open stack file for appending".to_string());
    match m.resume(Reply::Failed(failure)) {
        Step::Finished(Err(e)) => assert_eq!(e.kind, ErrorKind::StackIo),
        other => panic!("unexpected step {:?}", other),
    }
}

#[test]
fn minimize_names_a_classless_window_by_its_title() {
    let mut w = window("0xA", 2);
    w.class = String::new();
    w.title = "Editor".to_string();
    let (m, _) = MinimizeSession::start(w, "special:minimized");
    assert_eq!(m.window().class, "Editor");
}

#[test]
fn poll_verdicts() {
    let clients = vec![window("0x1", -99), window("0x2", 0), window("0x3", 5)];
    assert_eq!(poll_window_state(&Ok(clients.clone()), "0x1"), PollVerdict::KeepPolling);
    assert_eq!(poll_window_state(&Ok(clients.clone()), "0x2"), PollVerdict::WindowRestored);
    assert_eq!(poll_window_state(&Ok(clients.clone()), "0x3"), PollVerdict::WindowRestored);
    assert_eq!(poll_window_state(&Ok(clients), "0x4"), PollVerdict::WindowClosed);
    let failed = Err(Error::new(ErrorKind::Compositor, "down".to_string()));
    assert_eq!(poll_window_state(&failed, "0x1"), PollVerdict::QueryFailed);
    assert!(PollVerdict::QueryFailed.ends_session());
    assert!(!PollVerdict::KeepPolling.ends_session());
}

#[test]
fn watcher_restart_detection() {
    assert!(watcher_restarted("org.kde.StatusNotifierWatcher", true));
    assert!(!watcher_restarted("org.kde.StatusNotifierWatcher", false));
    assert!(!watcher_restarted("org.freedesktop.Notifications", true));
}

#[test]
fn bus_name_carries_the_process_id() {
    assert_eq!(bus_name(4242), "org.kde.StatusNotifierItem.minimizer.p4242");
    assert_eq!(bus_name(0), "org.kde.StatusNotifierItem.minimizer.p0");
}

#[test]
fn test_parse_address_from_selection() {
    let config = Config::default();
    let menu = Menu::new(&config);

    assert_eq!(menu.parse_address_from_selection("Title (0x123abc)"), Some("0x123abc".to_string()));
    assert_eq!(menu.parse_address_from_selection("No Address"), None);
    assert_eq!(menu.parse_address_from_selection("Mismatched (Brackets]"), None);
    assert_eq!(menu.parse_address_from_selection("Empty ()"), Some("".to_string()));
}

#[test]
fn selection_with_closing_before_opening_has_no_address() {
    let menu = Menu::new(&Config::default());
    assert_eq!(menu.parse_address_from_selection("a) b ("), None);
    assert_eq!(menu.parse_address_from_selection("A (b) (0x9)"), Some("0x9".to_string()));
}

#[test]
fn test_restore_selected_window() {
    let mut w = World::new();
    w.stack.push("0xRESTORE");
    let config = Config::default();
    let menu = Menu::new(&config);
    let window_to_restore = WindowInfo {
        address: "0xRESTORE".to_string(),
        title: "Test".to_string(),
        class: "Test".to_string(),
        workspace: Workspace { id: 1 },
    };
    w.active = 5;

    let (m, step) = menu.restore_selected_window(&window_to_restore);
    assert!(w.restore_selected(m, step).is_ok());

    assert_eq!(w.dispatched.len(), 2);
    assert_eq!(w.dispatched[0], "movetoworkspace 5,address:0xRESTORE");
    assert_eq!(w.dispatched[1], "focuswindow address:0xRESTORE");
    assert!(w.stack.entries().is_empty());
}

#[test]
fn launcher_choices_and_selection() {
    let mut config = Config::default();
    let menu = Menu::new(&config);
    assert_eq!(menu.launcher(), "wofi -dmenu");
    config.launcher = Some("rofi -dmenu".to_string());
    assert_eq!(Menu::new(&config).launcher(), "rofi -dmenu");

    let mut a = window("0x1", -99);
    a.title = "Shell".to_string();
    let mut b = window("0x2", -99);
    b.title = "Editor".to_string();
    let windows = vec![a, b];
    assert_eq!(menu.choices(&windows), "Shell (0x1)\nEditor (0x2)");
    assert_eq!(menu.choices(&Vec::new()), "");
    let chosen = menu.find_selected(windows.clone(), "0x2").unwrap();
    assert_eq!(chosen.title, "Editor");
    assert!(menu.find_selected(windows, "0x3").is_none());
}

#[test]
fn minimized_windows_are_those_on_the_stack() {
    let entries = vec!["0x3".to_string(), "0x1".to_string()];
    let clients = vec![window("0x1", -99), window("0x2", -99), window("0x3", -99)];
    let listed: Vec<String> =
        minimized_windows(&entries, clients).into_iter().map(|w| w.address).collect();
    assert_eq!(listed, vec!["0x1", "0x3"]);
}

#[test]
fn config_defaults() {
    let c = Config::default();
    assert_eq!(c.launcher.as_deref(), Some("wofi -dmenu"));
    assert_eq!(c.stack_base_directory.as_deref(), Some("/tmp"));
    assert_eq!(c.workspace.as_deref(), Some("special:minimized"));
    assert_eq!(c.restore_to, Some(RestoreTarget::Active));
    assert_eq!(c.poll_interval_ms, Some(2000));
    assert_eq!(c.auto_unminimize_on_focus, Some(false));
    assert_eq!(c.restore_target(), RestoreTarget::Active);
    assert_eq!(c.minimized_workspace(), "special:minimized");
    assert_eq!(c.poll_interval(), 2000);
}
