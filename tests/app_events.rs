use rift_core::app_events::AppEventHandler;
use rift_core::model::{
    AppInfo, AppRequest, AppThreadHandle, Command, Quiet, WindowId, WindowInfo, WindowServerId,
    WindowServerInfo,
};
use rift_core::reactor::Reactor;

fn info(name: &str) -> AppInfo {
    AppInfo { bundle_id: Some(format!("com.example.{}", name)), name: name.to_string() }
}

fn wid(pid: i32, idx: u32) -> WindowId {
    WindowId { pid, idx }
}

fn win(manageable: bool, sys: Option<u32>) -> WindowInfo {
    WindowInfo { is_manageable: manageable, sys_id: sys.map(WindowServerId) }
}

fn server(id: u32, pid: i32) -> WindowServerInfo {
    WindowServerInfo { id: WindowServerId(id), pid }
}

fn window_ids_of(r: &Reactor, pid: i32) -> Vec<WindowId> {
    let mut v: Vec<WindowId> = Vec::new();
    for (w, _) in r.windows.iter() {
        if w.pid == pid && r.window_info(*w).is_some() && !v.contains(w) {
            v.push(*w);
        }
    }
    v.sort_by_key(|w| w.idx);
    v
}

#[test]
fn apply_rules_to_discovered_manageable_window() {
    let mut r = Reactor::new(false);
    let cmds = AppEventHandler::handle_windows_discovered(
        &mut r,
        1,
        vec![(wid(1, 1), win(true, Some(10)))],
        vec![],
    );
    assert!(cmds.is_empty());
    let cmds = AppEventHandler::handle_apply_app_rules_to_existing_windows(
        &mut r,
        1,
        info("editor"),
        vec![server(10, 1)],
    );
    assert_eq!(
        cmds,
        vec![Command::ApplyAppRules { pid: 1, windows: vec![wid(1, 1)], info: info("editor") }]
    );
    assert_eq!(r.recent_wsids, vec![WindowServerId(10)]);
    assert_eq!(r.window_server_info.get(&10), Some(&server(10, 1)));
}

#[test]
fn apply_rules_skips_unmanageable_window() {
    let mut r = Reactor::new(false);
    AppEventHandler::handle_windows_discovered(&mut r, 1, vec![(wid(1, 1), win(false, Some(10)))], vec![]);
    let cmds = AppEventHandler::handle_apply_app_rules_to_existing_windows(
        &mut r,
        1,
        info("editor"),
        vec![server(10, 1)],
    );
    assert!(cmds.is_empty());
    assert!(r.recent_wsids.is_empty());
    assert_eq!(r.window_server_info.get(&10), Some(&server(10, 1)));
}

#[test]
fn apply_rules_skips_unresolved_server_ids() {
    let mut r = Reactor::new(false);
    AppEventHandler::handle_windows_discovered(&mut r, 1, vec![(wid(1, 1), win(true, Some(10)))], vec![]);
    let cmds = AppEventHandler::handle_apply_app_rules_to_existing_windows(
        &mut r,
        1,
        info("editor"),
        vec![server(99, 1), server(10, 1)],
    );
    assert_eq!(
        cmds,
        vec![Command::ApplyAppRules { pid: 1, windows: vec![wid(1, 1)], info: info("editor") }]
    );
    assert_eq!(r.recent_wsids, vec![WindowServerId(10)]);
}

#[test]
fn resync_unknown_window_is_noop() {
    let mut r = Reactor::new(true);
    AppEventHandler::handle_application_launched(
        &mut r, 1, info("a"), AppThreadHandle { mailbox: 7 }, vec![], vec![], false, None,
    );
    assert!(AppEventHandler::resync_needs_host_lookup(&r, WindowServerId(2)));
    let cmds = AppEventHandler::handle_resync_app_for_window(&mut r, WindowServerId(2), None);
    assert!(cmds.is_empty());
}

#[test]
fn resync_resolves_through_store_cache_and_host() {
    let mut r = Reactor::new(false);
    let h1 = AppThreadHandle { mailbox: 1 };
    let h2 = AppThreadHandle { mailbox: 2 };
    let h3 = AppThreadHandle { mailbox: 3 };
    AppEventHandler::handle_application_launched(
        &mut r, 1, info("a"), h1, vec![(wid(1, 1), win(true, Some(11)))], vec![], false, None,
    );
    AppEventHandler::handle_application_launched(
        &mut r, 2, info("b"), h2, vec![], vec![server(22, 2)], false, None,
    );
    AppEventHandler::handle_application_launched(&mut r, 3, info("c"), h3, vec![], vec![], false, None);
    let refresh = AppRequest::GetVisibleWindows { force_refresh: true };
    assert!(!AppEventHandler::resync_needs_host_lookup(&r, WindowServerId(11)));
    assert_eq!(
        AppEventHandler::handle_resync_app_for_window(&mut r, WindowServerId(11), Some(server(11, 3))),
        vec![Command::ToApp { pid: 1, handle: h1, request: refresh }]
    );
    assert!(!AppEventHandler::resync_needs_host_lookup(&r, WindowServerId(22)));
    assert_eq!(
        AppEventHandler::handle_resync_app_for_window(&mut r, WindowServerId(22), None),
        vec![Command::ToApp { pid: 2, handle: h2, request: refresh }]
    );
    assert!(AppEventHandler::resync_needs_host_lookup(&r, WindowServerId(33)));
    assert_eq!(
        AppEventHandler::handle_resync_app_for_window(&mut r, WindowServerId(33), Some(server(33, 3))),
        vec![Command::ToApp { pid: 3, handle: h3, request: refresh }]
    );
    assert!(AppEventHandler::handle_resync_app_for_window(&mut r, WindowServerId(44), Some(server(44, 9)))
        .is_empty());
}

#[test]
fn quiet_activation_has_no_workspace_switch() {
    let mut r = Reactor::new(false);
    assert!(AppEventHandler::handle_application_activated(&mut r, 1, Quiet::Yes).is_empty());
    assert_eq!(
        AppEventHandler::handle_application_activated(&mut r, 1, Quiet::No),
        vec![Command::ActivationWorkspaceSwitch(1)]
    );
}

#[test]
fn visible_windows_follow_latest_report_per_process() {
    let mut r = Reactor::new(false);
    AppEventHandler::handle_windows_discovered(
        &mut r, 1, vec![(wid(1, 1), win(true, None)), (wid(1, 2), win(true, None))], vec![],
    );
    AppEventHandler::handle_windows_discovered(&mut r, 2, vec![(wid(2, 1), win(true, None))], vec![]);
    AppEventHandler::handle_windows_discovered(&mut r, 1, vec![(wid(1, 3), win(false, None))], vec![wid(1, 2)]);
    AppEventHandler::handle_windows_discovered(&mut r, 2, vec![], vec![wid(2, 1)]);
    assert_eq!(r.visible_windows.get(&1), Some(&vec![wid(1, 3), wid(1, 2)]));
    assert_eq!(r.visible_windows.get(&2), Some(&vec![wid(2, 1)]));
    assert_eq!(window_ids_of(&r, 1), vec![wid(1, 2), wid(1, 3)]);
    assert_eq!(window_ids_of(&r, 2), vec![wid(2, 1)]);
    assert_eq!(r.window_info(wid(1, 1)), None);
    assert_eq!(r.window_info(wid(1, 3)), Some(win(false, None)));
}

#[test]
fn rediscovery_updates_window_record() {
    let mut r = Reactor::new(false);
    AppEventHandler::handle_windows_discovered(&mut r, 1, vec![(wid(1, 1), win(false, None))], vec![]);
    AppEventHandler::handle_windows_discovered(&mut r, 1, vec![(wid(1, 1), win(true, Some(5)))], vec![]);
    assert_eq!(r.window_info(wid(1, 1)), Some(win(true, Some(5))));
    assert_eq!(r.window_ids.get(&5), Some(&wid(1, 1)));
    assert_eq!(r.windows.len(), 1);
}

#[test]
fn relaunch_replaces_app_state() {
    let mut r = Reactor::new(false);
    let old = AppThreadHandle { mailbox: 1 };
    let new = AppThreadHandle { mailbox: 2 };
    AppEventHandler::handle_application_launched(&mut r, 4, info("a"), old, vec![], vec![], false, None);
    AppEventHandler::handle_application_launched(&mut r, 4, info("b"), new, vec![], vec![], false, None);
    assert_eq!(r.apps.len(), 1);
    assert_eq!(r.apps.get(&4).unwrap().handle, new);
    assert_eq!(r.apps.get(&4).unwrap().info, info("b"));
    assert_eq!(
        AppEventHandler::handle_application_terminated(&mut r, 4),
        vec![Command::ToApp { pid: 4, handle: new, request: AppRequest::Terminate }]
    );
}

#[test]
fn launch_after_thread_exit_is_fresh() {
    let h = AppThreadHandle { mailbox: 9 };
    let windows = vec![(wid(5, 1), win(true, Some(50))), (wid(5, 2), win(false, None))];
    let mut fresh = Reactor::new(true);
    let fresh_cmds = AppEventHandler::handle_application_launched(
        &mut fresh, 5, info("x"), h, windows.clone(), vec![server(50, 5)], true, None,
    );

    let mut r = Reactor::new(true);
    AppEventHandler::handle_application_launched(
        &mut r, 5, info("x"), AppThreadHandle { mailbox: 1 }, vec![], vec![], false, None,
    );
    let exit = AppEventHandler::handle_application_thread_terminated(&mut r, 5);
    assert_eq!(exit, vec![Command::AppThreadTerminated(5)]);
    assert!(r.apps.is_empty());
    let cmds = AppEventHandler::handle_application_launched(
        &mut r, 5, info("x"), h, windows, vec![server(50, 5)], true, None,
    );
    assert_eq!(cmds, fresh_cmds);
    assert_eq!(r.apps.get(&5).unwrap().handle, h);
    assert_eq!(r.apps.len(), fresh.apps.len());
    assert_eq!(window_ids_of(&r, 5), window_ids_of(&fresh, 5));
    assert_eq!(r.visible_windows, fresh.visible_windows);
    assert_eq!(r.window_ids, fresh.window_ids);
}

#[test]
fn launch_forwards_manageable_windows_to_rules() {
    let mut r = Reactor::new(false);
    let h = AppThreadHandle { mailbox: 3 };
    let cmds = AppEventHandler::handle_application_launched(
        &mut r,
        6,
        info("m"),
        h,
        vec![(wid(6, 1), win(false, None)), (wid(6, 2), win(true, None)), (wid(6, 3), win(true, None))],
        vec![],
        false,
        None,
    );
    assert_eq!(
        cmds,
        vec![Command::ApplyAppRules { pid: 6, windows: vec![wid(6, 2), wid(6, 3)], info: info("m") }]
    );
    let none = AppEventHandler::handle_application_launched(
        &mut r, 7, info("n"), h, vec![(wid(7, 1), win(false, None))], vec![], false, None,
    );
    assert!(none.is_empty());
}

#[test]
fn thread_exit_keeps_windows() {
    let mut r = Reactor::new(false);
    AppEventHandler::handle_application_launched(
        &mut r, 8, info("t"), AppThreadHandle { mailbox: 8 }, vec![(wid(8, 1), win(true, Some(80)))], vec![], false, None,
    );
    let cmds = AppEventHandler::handle_application_thread_terminated(&mut r, 8);
    assert!(cmds.is_empty());
    assert!(r.apps.get(&8).is_none());
    assert_eq!(r.window_info(wid(8, 1)), Some(win(true, Some(80))));
    assert_eq!(r.window_ids.get(&80), Some(&wid(8, 1)));
    assert!(AppEventHandler::handle_application_terminated(&mut r, 8).is_empty());
}

#[test]
fn rebinding_replaces_server_id() {
    let mut r = Reactor::new(false);
    let h = AppThreadHandle { mailbox: 4 };
    AppEventHandler::handle_application_launched(
        &mut r, 9, info("r"), h, vec![(wid(9, 1), win(true, Some(5)))], vec![], false, None,
    );
    assert_eq!(r.window_ids.get(&5), Some(&wid(9, 1)));
    AppEventHandler::handle_windows_discovered(&mut r, 9, vec![(wid(9, 1), win(true, Some(6)))], vec![]);
    assert_eq!(r.window_ids.get(&5), None);
    assert_eq!(r.window_ids.get(&6), Some(&wid(9, 1)));
    assert_eq!(r.window_ids.len(), 1);
    assert!(AppEventHandler::resync_needs_host_lookup(&r, WindowServerId(5)));
    let cmds = AppEventHandler::handle_apply_app_rules_to_existing_windows(
        &mut r, 9, info("r"), vec![server(5, 9)],
    );
    assert!(cmds.is_empty());
}

#[test]
fn rebinding_within_one_report_keeps_last_id() {
    let mut r = Reactor::new(false);
    AppEventHandler::handle_windows_discovered(
        &mut r,
        3,
        vec![(wid(3, 1), win(true, Some(30))), (wid(3, 1), win(true, Some(31)))],
        vec![],
    );
    assert_eq!(r.window_ids.get(&30), None);
    assert_eq!(r.window_ids.get(&31), Some(&wid(3, 1)));
    assert_eq!(r.window_info(wid(3, 1)), Some(win(true, Some(31))));
}

#[test]
fn dropped_window_loses_its_binding() {
    let mut r = Reactor::new(false);
    let h = AppThreadHandle { mailbox: 2 };
    AppEventHandler::handle_application_launched(
        &mut r,
        2,
        info("d"),
        h,
        vec![(wid(2, 1), win(true, Some(20))), (wid(2, 2), win(true, Some(21)))],
        vec![],
        false,
        None,
    );
    AppEventHandler::handle_windows_discovered(&mut r, 2, vec![], vec![wid(2, 2)]);
    assert_eq!(r.window_ids.get(&20), None);
    assert_eq!(r.window_ids.get(&21), Some(&wid(2, 2)));
    assert_eq!(r.window_info(wid(2, 1)), None);
}

#[test]
fn resync_of_bound_window_of_untracked_app_sends_nothing() {
    let mut r = Reactor::new(false);
    AppEventHandler::handle_windows_discovered(&mut r, 7, vec![(wid(7, 1), win(true, Some(70)))], vec![]);
    AppEventHandler::handle_application_launched(
        &mut r, 8, info("o"), AppThreadHandle { mailbox: 8 }, vec![], vec![server(70, 8)], false, None,
    );
    assert!(!AppEventHandler::resync_needs_host_lookup(&r, WindowServerId(70)));
    let cmds = AppEventHandler::handle_resync_app_for_window(&mut r, WindowServerId(70), Some(server(70, 8)));
    assert!(cmds.is_empty());
}
