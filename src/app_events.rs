use vstd::prelude::*;

use crate::model::{
    AppInfo, AppRequest, AppThreadHandle, Command, Quiet, WindowId, WindowInfo, WindowServerId,
    WindowServerInfo,
};
use crate::reactor::{
    bindings_injective, discovered_bindings, discovered_windows, ids_of, manageable_ids, merge_server_info, AppState,
    Reactor,
};

verus! {

broadcast use vstd::std_specs::hash::group_hash_axioms;

/// Whether server id `sid` is bound to a window whose record is manageable.
pub open spec fn forwards(ids: Map<u32, WindowId>, wins: Map<WindowId, WindowInfo>, sid: u32) -> bool {
    ids.contains_key(sid) && wins.contains_key(ids[sid]) && wins[ids[sid]].is_manageable
}

/// The windows, in report order, that the store binds the server ids of `infos` to and whose
/// record is manageable.
pub open spec fn resolved_manageable(
    ids: Map<u32, WindowId>,
    wins: Map<WindowId, WindowInfo>,
    infos: Seq<WindowServerInfo>,
) -> Seq<WindowId>
    decreases infos.len(),
{
    if infos.len() == 0 {
        Seq::empty()
    } else {
        let rest = resolved_manageable(ids, wins, infos.drop_last());
        let sid = infos.last().id.0;
        if forwards(ids, wins, sid) {
            rest.push(ids[sid])
        } else {
            rest
        }
    }
}

/// The server ids, in report order, of the windows that `resolved_manageable` keeps.
pub open spec fn forwarded_server_ids(
    ids: Map<u32, WindowId>,
    wins: Map<WindowId, WindowInfo>,
    infos: Seq<WindowServerInfo>,
) -> Seq<WindowServerId>
    decreases infos.len(),
{
    if infos.len() == 0 {
        Seq::empty()
    } else {
        let rest = forwarded_server_ids(ids, wins, infos.drop_last());
        if forwards(ids, wins, infos.last().id.0) {
            rest.push(infos.last().id)
        } else {
            rest
        }
    }
}

/// The process that owns server window `wsid`: from the window the store binds it to, else from the
/// window-server cache, else from what the host reported.
pub open spec fn resync_owner(r: &Reactor, wsid: WindowServerId, host: Option<WindowServerInfo>) -> Option<
    i32,
> {
    if r.window_ids@.contains_key(wsid.0) {
        Some(r.window_ids@[wsid.0].pid)
    } else if r.window_server_info@.contains_key(wsid.0) {
        Some(r.window_server_info@[wsid.0].pid)
    } else {
        match host {
            Some(h) => Some(h.pid),
            None => None,
        }
    }
}

/// The request sent to `pid`'s actor, if the store tracks `pid`.
pub open spec fn request_to_app(apps: Map<i32, AppState>, pid: i32, request: AppRequest) -> Seq<
    Command,
> {
    if apps.contains_key(pid) {
        seq![Command::ToApp { pid, handle: apps[pid].handle, request }]
    } else {
        Seq::empty()
    }
}

/// The reactor's handlers for application lifecycle and discovery events.
pub struct AppEventHandler;

impl AppEventHandler {
    /// Records a launched application, replacing any earlier record for `pid`, and treats
    /// `visible_windows` as the full set of the application's windows.
    pub fn handle_application_launched(
        reactor: &mut Reactor,
        pid: i32,
        info: AppInfo,
        handle: AppThreadHandle,
        visible_windows: Vec<(WindowId, WindowInfo)>,
        window_server_info: Vec<WindowServerInfo>,
        _is_frontmost: bool,
        _main_window: Option<WindowId>,
    ) -> (r: Vec<Command>)
        requires
            old(reactor).wf(),
        ensures
            final(reactor).apps@ == old(reactor).apps@.insert(pid, AppState { info, handle }),
            final(reactor).window_server_info@ == merge_server_info(
                old(reactor).window_server_info@,
                window_server_info@,
            ),
            final(reactor).windows_view() == discovered_windows(
                old(reactor).windows_view(),
                pid,
                visible_windows@,
                Seq::empty(),
            ),
            final(reactor).window_ids@ == discovered_bindings(
                old(reactor).window_ids@,
                pid,
                visible_windows@,
                Seq::empty(),
            ),
            final(reactor).wf(),
            bindings_injective(final(reactor).window_ids@),
            final(reactor).visible_view() == old(reactor).visible_view().insert(
                pid,
                ids_of(visible_windows@),
            ),
            final(reactor).recent_wsids@ == old(reactor).recent_wsids@,
            final(reactor).has_wm_controller == old(reactor).has_wm_controller,
            manageable_ids(visible_windows@).len() > 0 ==> {
                &&& r@.len() == 1
                &&& match r@[0] {
                    Command::ApplyAppRules { pid: p, windows, info: i } => {
                        &&& p == pid
                        &&& windows@ == manageable_ids(visible_windows@)
                        &&& i == info
                    },
                    _ => false,
                }
            },
            manageable_ids(visible_windows@).len() == 0 ==> r@.len() == 0,
    {
        let stored = crate::model::copy_app_info(&info);
        reactor.apps.insert(pid, AppState { info: stored, handle });
        reactor.update_partial_window_server_info(window_server_info);
        let r = reactor.on_windows_discovered_with_app_info(pid, visible_windows, Vec::new(), Some(info));
        assert(ids_of(visible_windows@) + Seq::<WindowId>::empty() =~= ids_of(visible_windows@));
        r
    }

    /// Hands the already discovered, manageable windows among `windows` to the app-rules
    /// engine, after merging `windows` into the window-server cache.
    pub fn handle_apply_app_rules_to_existing_windows(
        reactor: &mut Reactor,
        pid: i32,
        app_info: AppInfo,
        windows: Vec<WindowServerInfo>,
    ) -> (r: Vec<Command>)
        ensures
            final(reactor).window_server_info@ == merge_server_info(
                old(reactor).window_server_info@,
                windows@,
            ),
            final(reactor).apps@ == old(reactor).apps@,
            final(reactor).windows == old(reactor).windows,
            final(reactor).window_ids@ == old(reactor).window_ids@,
            final(reactor).visible_windows@ == old(reactor).visible_windows@,
            final(reactor).has_wm_controller == old(reactor).has_wm_controller,
            ({
                let ids = old(reactor).window_ids@;
                let wins = old(reactor).windows_view();
                let ms = resolved_manageable(ids, wins, windows@);
                if ms.len() > 0 {
                    &&& final(reactor).recent_wsids@ == old(reactor).recent_wsids@
                        + forwarded_server_ids(ids, wins, windows@)
                    &&& r@.len() == 1
                    &&& match r@[0] {
                        Command::ApplyAppRules { pid: p, windows: ws, info: i } => {
                            &&& p == pid
                            &&& ws@ == ms
                            &&& i == app_info
                        },
                        _ => false,
                    }
                } else {
                    &&& final(reactor).recent_wsids@ == old(reactor).recent_wsids@
                    &&& r@.len() == 0
                }
            }),
    {
        let mut all_windows: Vec<WindowId> = Vec::new();
        let mut wsids: Vec<WindowServerId> = Vec::new();
        let mut i: usize = 0;
        while i < windows.len()
            invariant
                i <= windows@.len(),
                reactor.window_ids@ == old(reactor).window_ids@,
                reactor.windows == old(reactor).windows,
                all_windows@ == resolved_manageable(
                    reactor.window_ids@,
                    reactor.windows_view(),
                    windows@.take(i as int),
                ),
                wsids@ == forwarded_server_ids(
                    reactor.window_ids@,
                    reactor.windows_view(),
                    windows@.take(i as int),
                ),
            decreases windows@.len() - i,
        {
            assert(windows@.take(i + 1).drop_last() =~= windows@.take(i as int));
            let sid = windows[i].id;
            match reactor.window_ids.get(&sid.0) {
                Some(wid) => {
                    let wid = *wid;
                    match reactor.window_info(wid) {
                        Some(w) => {
                            if w.is_manageable {
                                all_windows.push(wid);
                                wsids.push(sid);
                            }
                        },
                        None => {},
                    }
                },
                None => {},
            }
            i += 1;
        }
        assert(windows@.take(i as int) =~= windows@);
        let mut cache_update: Vec<WindowServerInfo> = Vec::new();
        let mut k: usize = 0;
        while k < windows.len()
            invariant
                k <= windows@.len(),
                cache_update@ == windows@.take(k as int),
            decreases windows@.len() - k,
        {
            cache_update.push(windows[k]);
            k += 1;
            assert(cache_update@ =~= windows@.take(k as int));
        }
        assert(windows@.take(k as int) =~= windows@);
        reactor.update_partial_window_server_info(cache_update);
        let mut commands: Vec<Command> = Vec::new();
        if all_windows.len() > 0 {
            reactor.mark_wsids_recent(wsids);
            commands.push(Command::ApplyAppRules { pid, windows: all_windows, info: app_info });
        }
        commands
    }

    /// Asks the actor of `pid`, if tracked, to terminate; the store itself is left alone.
    pub fn handle_application_terminated(reactor: &mut Reactor, pid: i32) -> (r: Vec<Command>)
        ensures
            *final(reactor) == *old(reactor),
            r@ == request_to_app(old(reactor).apps@, pid, AppRequest::Terminate),
    {
        let mut commands: Vec<Command> = Vec::new();
        match reactor.apps.get(&pid) {
            Some(app) => {
                commands.push(Command::ToApp { pid, handle: app.handle, request: AppRequest::Terminate });
            },
            None => {},
        }
        assert(commands@ =~= request_to_app(reactor.apps@, pid, AppRequest::Terminate));
        commands
    }

    /// Forgets the actor handle of `pid`, whose thread exited, and tells the lifecycle
    /// controller; window records are kept, since the application may still be alive.
    pub fn handle_application_thread_terminated(reactor: &mut Reactor, pid: i32) -> (r: Vec<
        Command,
    >)
        ensures
            final(reactor).apps@ == old(reactor).apps@.remove(pid),
            final(reactor).windows == old(reactor).windows,
            final(reactor).window_ids@ == old(reactor).window_ids@,
            final(reactor).window_server_info@ == old(reactor).window_server_info@,
            final(reactor).visible_windows@ == old(reactor).visible_windows@,
            final(reactor).recent_wsids@ == old(reactor).recent_wsids@,
            final(reactor).has_wm_controller == old(reactor).has_wm_controller,
            r@ == (if old(reactor).has_wm_controller {
                seq![Command::AppThreadTerminated(pid)]
            } else {
                Seq::<Command>::empty()
            }),
    {
        let mut commands: Vec<Command> = Vec::new();
        if reactor.has_wm_controller {
            commands.push(Command::AppThreadTerminated(pid));
        }
        reactor.apps.remove(&pid);
        assert(commands@ =~= (if old(reactor).has_wm_controller {
            seq![Command::AppThreadTerminated(pid)]
        } else {
            Seq::<Command>::empty()
        }));
        commands
    }

    /// Whether resolving the owner of `wsid` needs the host window server: the store binds
    /// it to no window and the window-server cache does not know it.
    pub fn resync_needs_host_lookup(reactor: &Reactor, wsid: WindowServerId) -> (r: bool)
        ensures
            r == (!reactor.window_ids@.contains_key(wsid.0)
                && !reactor.window_server_info@.contains_key(wsid.0)),
    {
        !reactor.window_ids.contains_key(&wsid.0) && !reactor.window_server_info.contains_key(&wsid.0)
    }

    /// Asks the application that owns server window `wsid` to report its windows afresh.
    /// `host` is what the host window server says of `wsid`; it is consulted only when the
    /// store and the cache do not know the window.
    pub fn handle_resync_app_for_window(
        reactor: &mut Reactor,
        wsid: WindowServerId,
        host: Option<WindowServerInfo>,
    ) -> (r: Vec<Command>)
        ensures
            *final(reactor) == *old(reactor),
            r@ == match resync_owner(old(reactor), wsid, host) {
                Some(p) => request_to_app(
                    old(reactor).apps@,
                    p,
                    AppRequest::GetVisibleWindows { force_refresh: true },
                ),
                None => Seq::empty(),
            },
    {
        let owner: Option<i32> = match reactor.window_ids.get(&wsid.0) {
            Some(wid) => Some(wid.pid),
            None => match reactor.window_server_info.get(&wsid.0) {
                Some(info) => Some(info.pid),
                None => match host {
                    Some(h) => Some(h.pid),
                    None => None,
                },
            },
        };
        let mut commands: Vec<Command> = Vec::new();
        if let Some(p) = owner {
            match reactor.apps.get(&p) {
                Some(app_state) => {
                    commands.push(
                        Command::ToApp {
                            pid: p,
                            handle: app_state.handle,
                            request: AppRequest::GetVisibleWindows { force_refresh: true },
                        },
                    );
                },
                None => {},
            }
            assert(commands@ =~= request_to_app(
                reactor.apps@,
                p,
                AppRequest::GetVisibleWindows { force_refresh: true },
            ));
        }
        commands
    }

    /// Follows an externally initiated activation to its workspace; a quiet one, which the
    /// daemon started itself, has no such effect.
    pub fn handle_application_activated(reactor: &mut Reactor, pid: i32, quiet: Quiet) -> (r: Vec<
        Command,
    >)
        ensures
            *final(reactor) == *old(reactor),
            r@ == (if quiet == Quiet::Yes {
                Seq::<Command>::empty()
            } else {
                seq![Command::ActivationWorkspaceSwitch(pid)]
            }),
    {
        let mut commands: Vec<Command> = Vec::new();
        if quiet == Quiet::Yes {
            assert(commands@ =~= Seq::<Command>::empty());
            return commands;
        }
        commands.push(Command::ActivationWorkspaceSwitch(pid));
        assert(commands@ =~= seq![Command::ActivationWorkspaceSwitch(pid)]);
        commands
    }

    /// Folds a discovery report for `pid` into the store; see
    /// `Reactor::on_windows_discovered_with_app_info`.
    pub fn handle_windows_discovered(
        reactor: &mut Reactor,
        pid: i32,
        new: Vec<(WindowId, WindowInfo)>,
        known_visible: Vec<WindowId>,
    ) -> (r: Vec<Command>)
        requires
            old(reactor).wf(),
        ensures
            final(reactor).windows_view() == discovered_windows(
                old(reactor).windows_view(),
                pid,
                new@,
                known_visible@,
            ),
            final(reactor).window_ids@ == discovered_bindings(
                old(reactor).window_ids@,
                pid,
                new@,
                known_visible@,
            ),
            final(reactor).wf(),
            bindings_injective(final(reactor).window_ids@),
            final(reactor).visible_view() == old(reactor).visible_view().insert(
                pid,
                ids_of(new@) + known_visible@,
            ),
            final(reactor).apps@ == old(reactor).apps@,
            final(reactor).window_server_info@ == old(reactor).window_server_info@,
            final(reactor).recent_wsids@ == old(reactor).recent_wsids@,
            final(reactor).has_wm_controller == old(reactor).has_wm_controller,
            r@.len() == 0,
    {
        reactor.on_windows_discovered_with_app_info(pid, new, known_visible, None)
    }
}

} // verus!
