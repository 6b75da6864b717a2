use vstd::prelude::*;

use crate::app_events::request_to_app;
use crate::model::{AppRequest, Command, WindowId, WindowInfo};
use crate::reactor::{ids_of, lemma_consistent_bindings_are_injective, AppState, Reactor};

verus! {

/// One discovery report: the process, the windows reported now, and those already known visible.
pub type DiscoveryReport = (i32, Seq<(WindowId, WindowInfo)>, Seq<WindowId>);

/// The visible windows of each process after the reports of `events`, in order, each one
/// applied as `AppEventHandler::handle_windows_discovered` applies it.
pub open spec fn visible_after(vis: Map<i32, Seq<WindowId>>, events: Seq<DiscoveryReport>) -> Map<
    i32,
    Seq<WindowId>,
>
    decreases events.len(),
{
    if events.len() == 0 {
        vis
    } else {
        let e = events.last();
        visible_after(vis, events.drop_last()).insert(e.0, ids_of(e.1) + e.2)
    }
}

/// After any sequence of discovery reports, the visible windows of a process are those of
/// its latest report, new and known-visible together, whatever reports for other processes
/// came in between.
pub proof fn law_visible_windows_follow_latest_report(
    vis: Map<i32, Seq<WindowId>>,
    events: Seq<DiscoveryReport>,
    j: int,
)
    requires
        0 <= j < events.len(),
        forall|k: int| j < k < events.len() ==> #[trigger] events[k].0 != events[j].0,
    ensures
        visible_after(vis, events).contains_key(events[j].0),
        visible_after(vis, events)[events[j].0].to_set() == ids_of(events[j].1).to_set().union(
            events[j].2.to_set(),
        ),
    decreases events.len(),
{
    let pid = events[j].0;
    if j == events.len() - 1 {
        let s = ids_of(events[j].1) + events[j].2;
        assert(s.to_set() =~= ids_of(events[j].1).to_set().union(events[j].2.to_set())) by {
            assert forall|w: WindowId| s.to_set().contains(w) implies ids_of(events[j].1).to_set().union(
                events[j].2.to_set(),
            ).contains(w) by {
                let k = choose|k: int| 0 <= k < s.len() && s[k] == w;
                if k >= ids_of(events[j].1).len() {
                    assert(events[j].2[k - ids_of(events[j].1).len()] == w);
                }
            }
            assert forall|w: WindowId| ids_of(events[j].1).to_set().union(
                events[j].2.to_set(),
            ).contains(w) implies s.to_set().contains(w) by {
                if ids_of(events[j].1).contains(w) {
                    let k = choose|k: int| 0 <= k < ids_of(events[j].1).len() && ids_of(events[j].1)[k] == w;
                    assert(s[k] == w);
                } else {
                    let k = choose|k: int| 0 <= k < events[j].2.len() && events[j].2[k] == w;
                    assert(s[k + ids_of(events[j].1).len()] == w);
                }
            }
        }
    } else {
        let rest = events.drop_last();
        assert(rest[j] == events[j]);
        assert forall|k: int| j < k < rest.len() implies #[trigger] rest[k].0 != rest[j].0 by {
            assert(events[k].0 != events[j].0);
        }
        law_visible_windows_follow_latest_report(vis, rest, j);
        assert(events[events.len() - 1].0 != pid);
    }
}

/// Reports for other processes leave a process's visible windows as they were.
pub proof fn law_discovery_is_partitioned_by_process(
    vis: Map<i32, Seq<WindowId>>,
    events: Seq<DiscoveryReport>,
    pid: i32,
)
    requires
        forall|k: int| 0 <= k < events.len() ==> #[trigger] events[k].0 != pid,
    ensures
        visible_after(vis, events).get(pid) == vis.get(pid),
    decreases events.len(),
{
    if events.len() > 0 {
        let rest = events.drop_last();
        assert forall|k: int| 0 <= k < rest.len() implies #[trigger] rest[k].0 != pid by {
            assert(events[k].0 != pid);
        }
        law_discovery_is_partitioned_by_process(vis, rest, pid);
        assert(events[events.len() - 1].0 != pid);
    }
}

/// A launch for a process that already has a record leaves exactly one record for it, the
/// new one, and every later request to that process goes to the new handle.
pub proof fn law_relaunch_replaces_app_state(
    apps: Map<i32, AppState>,
    pid: i32,
    state: AppState,
    request: AppRequest,
)
    ensures
        apps.insert(pid, state).contains_key(pid),
        apps.insert(pid, state)[pid] == state,
        apps.insert(pid, state).dom() == apps.dom().insert(pid),
        request_to_app(apps.insert(pid, state), pid, request) == seq![
            Command::ToApp { pid, handle: state.handle, request },
        ],
{
}

/// A launch that follows the exit of the process's actor thread sees the same store as a
/// launch with no exit before it: `after_exit` is `before` as
/// `AppEventHandler::handle_application_thread_terminated` leaves it, and every part of the
/// store that `AppEventHandler::handle_application_launched` reads or writes agrees.
pub proof fn law_launch_after_thread_exit_is_fresh(
    before: &Reactor,
    after_exit: &Reactor,
    pid: i32,
    state: AppState,
)
    requires
        after_exit.apps@ == before.apps@.remove(pid),
        after_exit.windows == before.windows,
        after_exit.window_ids@ == before.window_ids@,
        after_exit.window_server_info@ == before.window_server_info@,
        after_exit.visible_windows@ == before.visible_windows@,
        after_exit.recent_wsids@ == before.recent_wsids@,
        after_exit.has_wm_controller == before.has_wm_controller,
    ensures
        after_exit.apps@.insert(pid, state) == before.apps@.insert(pid, state),
        after_exit.windows_view() == before.windows_view(),
        after_exit.visible_view() == before.visible_view(),
        after_exit.window_ids@ == before.window_ids@,
        after_exit.wf() == before.wf(),
{
    assert(after_exit.apps@.insert(pid, state) =~= before.apps@.insert(pid, state));
}

/// In a well-formed store a window has at most one server id bound to it: two server ids
/// bound to the same window are the same id.
pub proof fn law_one_server_id_per_window(r: &Reactor, s1: u32, s2: u32)
    requires
        r.wf(),
        r.window_ids@.contains_key(s1),
        r.window_ids@.contains_key(s2),
        r.window_ids@[s1] == r.window_ids@[s2],
    ensures
        s1 == s2,
{
    lemma_consistent_bindings_are_injective(r.window_ids@, r.windows_view());
}

} // verus!
