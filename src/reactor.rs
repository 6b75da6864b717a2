use std::collections::HashMap;
use vstd::prelude::*;

use crate::model::{AppInfo, Command, AppThreadHandle, WindowId, WindowInfo, WindowServerId, WindowServerInfo};

verus! {

broadcast use vstd::std_specs::hash::group_hash_axioms;

/// The reactor's record of a running application.
#[derive(Debug)]
pub struct AppState {
    pub info: AppInfo,
    pub handle: AppThreadHandle,
}

/// The map of windows that a sequence of (id, info) entries describes: a later entry for
/// the same id replaces an earlier one.
pub open spec fn entries_map(s: Seq<(WindowId, WindowInfo)>) -> Map<WindowId, WindowInfo>
    decreases s.len(),
{
    if s.len() == 0 {
        Map::empty()
    } else {
        entries_map(s.drop_last()).insert(s.last().0, s.last().1)
    }
}

/// Every server id bound in `ids` names a window of `wins` whose record carries that id.
pub open spec fn bindings_consistent(ids: Map<u32, WindowId>, wins: Map<WindowId, WindowInfo>) -> bool {
    forall|s: u32| #[trigger]
        ids.contains_key(s) ==> wins.contains_key(ids[s]) && wins[ids[s]].sys_id == Some(
            WindowServerId(s),
        )
}

/// No two server ids are bound to one window.
pub open spec fn bindings_injective(ids: Map<u32, WindowId>) -> bool {
    forall|s1: u32, s2: u32| #[trigger]
        ids.contains_key(s1) && #[trigger] ids.contains_key(s2) && ids[s1] == ids[s2] ==> s1 == s2
}

/// `ids` without any binding to window `w`.
pub open spec fn unbind_window(ids: Map<u32, WindowId>, w: WindowId) -> Map<u32, WindowId> {
    Map::new(|s: u32| ids.contains_key(s) && ids[s] != w, |s: u32| ids[s])
}

/// The bindings after each entry of `s`, in order, rebinds its window: the window loses the
/// server id it had and takes the one the entry carries, if any.
pub open spec fn rebind_all(ids: Map<u32, WindowId>, s: Seq<(WindowId, WindowInfo)>) -> Map<
    u32,
    WindowId,
>
    decreases s.len(),
{
    if s.len() == 0 {
        ids
    } else {
        let m1 = unbind_window(rebind_all(ids, s.drop_last()), s.last().0);
        match s.last().1.sys_id {
            Some(sid) => m1.insert(sid.0, s.last().0),
            None => m1,
        }
    }
}

/// The bindings that survive a discovery event for `pid`: those of windows whose record the
/// event carries over unchanged.
pub open spec fn retained_bindings(
    ids: Map<u32, WindowId>,
    pid: i32,
    new: Seq<(WindowId, WindowInfo)>,
    known_visible: Seq<WindowId>,
) -> Map<u32, WindowId> {
    Map::new(
        |s: u32| ids.contains_key(s) && kept_through(ids[s], pid, new, known_visible),
        |s: u32| ids[s],
    )
}

/// The server-id bindings after a discovery event for `pid`: bindings of windows that the
/// event drops or reports anew go, then each reported window is bound to its server id.
pub open spec fn discovered_bindings(
    ids: Map<u32, WindowId>,
    pid: i32,
    new: Seq<(WindowId, WindowInfo)>,
    known_visible: Seq<WindowId>,
) -> Map<u32, WindowId> {
    rebind_all(retained_bindings(ids, pid, new, known_visible), new)
}

/// Consistent bindings bind at most one server id to each window.
pub proof fn lemma_consistent_bindings_are_injective(
    ids: Map<u32, WindowId>,
    wins: Map<WindowId, WindowInfo>,
)
    requires
        bindings_consistent(ids, wins),
    ensures
        bindings_injective(ids),
{
    assert forall|s1: u32, s2: u32| #[trigger]
        ids.contains_key(s1) && #[trigger] ids.contains_key(s2) && ids[s1] == ids[s2] implies s1
        == s2 by {
        assert(WindowServerId(s1) == WindowServerId(s2));
    }
}

/// A window that `entries_map(s)` holds takes its record from some entry of `s`.
pub proof fn lemma_entries_map_witness(s: Seq<(WindowId, WindowInfo)>, w: WindowId)
    requires
        entries_map(s).contains_key(w),
    ensures
        exists|k: int| 0 <= k < s.len() && s[k].0 == w && s[k].1 == entries_map(s)[w],
    decreases s.len(),
{
    if s.len() > 0 {
        if s.last().0 == w {
            assert(s[s.len() - 1].0 == w);
        } else {
            lemma_entries_map_witness(s.drop_last(), w);
            let k = choose|k: int|
                0 <= k < s.drop_last().len() && s.drop_last()[k].0 == w && s.drop_last()[k].1
                    == entries_map(s.drop_last())[w];
            assert(s[k] == s.drop_last()[k]);
        }
    }
}

/// The record of window `w` in the entries `v`, a later entry winning.
pub fn lookup_entry(v: &Vec<(WindowId, WindowInfo)>, w: WindowId) -> (r: Option<WindowInfo>)
    ensures
        r == entries_map(v@).get(w),
{
    let mut found: Option<WindowInfo> = None;
    let mut i: usize = 0;
    while i < v.len()
        invariant
            i <= v@.len(),
            found == entries_map(v@.take(i as int)).get(w),
        decreases v@.len() - i,
    {
        assert(v@.take(i + 1).drop_last() =~= v@.take(i as int));
        if v[i].0 == w {
            found = Some(v[i].1);
        }
        i += 1;
    }
    assert(v@.take(i as int) =~= v@);
    found
}

/// The window-server cache after merging `infos` into `m`, a later entry winning.
pub open spec fn merge_server_info(m: Map<u32, WindowServerInfo>, infos: Seq<WindowServerInfo>) -> Map<
    u32,
    WindowServerInfo,
>
    decreases infos.len(),
{
    if infos.len() == 0 {
        m
    } else {
        merge_server_info(m, infos.drop_last()).insert(infos.last().id.0, infos.last())
    }
}

/// The ids of a sequence of discovered windows, in order.
pub open spec fn ids_of(s: Seq<(WindowId, WindowInfo)>) -> Seq<WindowId> {
    s.map_values(|e: (WindowId, WindowInfo)| e.0)
}

/// The ids, in order, of the entries of `s` whose window is manageable.
pub open spec fn manageable_ids(s: Seq<(WindowId, WindowInfo)>) -> Seq<WindowId>
    decreases s.len(),
{
    if s.len() == 0 {
        Seq::empty()
    } else if s.last().1.is_manageable {
        manageable_ids(s.drop_last()).push(s.last().0)
    } else {
        manageable_ids(s.drop_last())
    }
}

/// The window store after a discovery event for `pid`: a window of `pid` survives only if it
/// is reported anew or known to be visible, and each reported window takes its new info.
pub open spec fn discovered_windows(
    m: Map<WindowId, WindowInfo>,
    pid: i32,
    new: Seq<(WindowId, WindowInfo)>,
    known_visible: Seq<WindowId>,
) -> Map<WindowId, WindowInfo> {
    Map::new(
        |w: WindowId| m.contains_key(w) && (w.pid != pid || known_visible.contains(w)),
        |w: WindowId| m[w],
    ).union_prefer_right(entries_map(new))
}

/// A window has a record in `entries_map(s)` exactly when some entry of `s` names it.
pub proof fn lemma_entries_map_keys(s: Seq<(WindowId, WindowInfo)>, w: WindowId)
    ensures
        entries_map(s).contains_key(w) <==> ids_of(s).contains(w),
    decreases s.len(),
{
    if s.len() > 0 {
        lemma_entries_map_keys(s.drop_last(), w);
        assert(ids_of(s.drop_last()) =~= ids_of(s).drop_last());
        if ids_of(s).contains(w) && s.last().0 != w {
            let k = choose|k: int| 0 <= k < ids_of(s).len() && ids_of(s)[k] == w;
            assert(k < s.len() - 1);
            assert(ids_of(s.drop_last())[k] == w);
        }
        if ids_of(s.drop_last()).contains(w) {
            let k = choose|k: int| 0 <= k < ids_of(s.drop_last()).len() && ids_of(s.drop_last())[k] == w;
            assert(ids_of(s)[k] == w);
        }
        if s.last().0 == w {
            assert(ids_of(s)[s.len() - 1] == w);
        }
    }
}

/// Whether `v` holds `w`.
pub fn holds_window_id(v: &Vec<WindowId>, w: WindowId) -> (r: bool)
    ensures
        r == v@.contains(w),
{
    let mut i: usize = 0;
    while i < v.len()
        invariant
            i <= v@.len(),
            forall|k: int| 0 <= k < i ==> v@[k] != w,
        decreases v@.len() - i,
    {
        if v[i] == w {
            assert(v@[i as int] == w);
            return true;
        }
        i += 1;
    }
    false
}

/// Whether some entry of `s` names window `w`.
pub fn names_window(s: &Vec<(WindowId, WindowInfo)>, w: WindowId) -> (r: bool)
    ensures
        r == ids_of(s@).contains(w),
{
    let mut i: usize = 0;
    while i < s.len()
        invariant
            i <= s@.len(),
            forall|k: int| 0 <= k < i ==> s@[k].0 != w,
        decreases s@.len() - i,
    {
        if s[i].0 == w {
            assert(ids_of(s@)[i as int] == w);
            return true;
        }
        i += 1;
    }
    assert(!ids_of(s@).contains(w)) by {
        if ids_of(s@).contains(w) {
            let k = choose|k: int| 0 <= k < ids_of(s@).len() && ids_of(s@)[k] == w;
            assert(s@[k].0 == w);
        }
    }
    false
}

/// Whether an existing record of `w` is carried over unchanged by a discovery event for `pid`.
pub open spec fn kept_through(
    w: WindowId,
    pid: i32,
    new: Seq<(WindowId, WindowInfo)>,
    known_visible: Seq<WindowId>,
) -> bool {
    (w.pid != pid || known_visible.contains(w)) && !ids_of(new).contains(w)
}

/// The reconciliation store: applications and windows, mutated only by the reactor's handlers.
pub struct Reactor {
    pub apps: HashMap<i32, AppState>,
    pub windows: Vec<(WindowId, WindowInfo)>,
    pub window_ids: HashMap<u32, WindowId>,
    pub window_server_info: HashMap<u32, WindowServerInfo>,
    pub visible_windows: HashMap<i32, Vec<WindowId>>,
    pub recent_wsids: Vec<WindowServerId>,
    pub has_wm_controller: bool,
}

impl Reactor {
    /// The window records, by window id.
    pub open spec fn windows_view(&self) -> Map<WindowId, WindowInfo> {
        entries_map(self.windows@)
    }

    /// The store's invariant: every server-id binding names a window whose record carries
    /// that id, so a window has at most one server id bound to it.
    pub open spec fn wf(&self) -> bool {
        bindings_consistent(self.window_ids@, self.windows_view())
    }

    /// The visible windows of each process, as last reported.
    pub open spec fn visible_view(&self) -> Map<i32, Seq<WindowId>> {
        self.visible_windows@.map_values(|v: Vec<WindowId>| v@)
    }

    /// An empty store; `has_wm_controller` says whether a lifecycle controller listens.
    pub fn new(has_wm_controller: bool) -> (r: Reactor)
        ensures
            r.apps@ == Map::<i32, AppState>::empty(),
            r.windows_view() == Map::<WindowId, WindowInfo>::empty(),
            r.window_ids@ == Map::<u32, WindowId>::empty(),
            r.window_server_info@ == Map::<u32, WindowServerInfo>::empty(),
            r.visible_view() == Map::<i32, Seq<WindowId>>::empty(),
            r.recent_wsids@ == Seq::<WindowServerId>::empty(),
            r.has_wm_controller == has_wm_controller,
            r.wf(),
    {
        let r = Reactor {
            apps: HashMap::new(),
            windows: Vec::new(),
            window_ids: HashMap::new(),
            window_server_info: HashMap::new(),
            visible_windows: HashMap::new(),
            recent_wsids: Vec::new(),
            has_wm_controller,
        };
        assert(r.visible_view() =~= Map::<i32, Seq<WindowId>>::empty());
        r
    }

    /// The record of window `w`, if the store holds one.
    pub fn window_info(&self, w: WindowId) -> (r: Option<WindowInfo>)
        ensures
            r == self.windows_view().get(w),
    {
        lookup_entry(&self.windows, w)
    }

    /// Merges fresh window-server reports into the cache, a later report winning.
    pub fn update_partial_window_server_info(&mut self, infos: Vec<WindowServerInfo>)
        ensures
            final(self).window_server_info@ == merge_server_info(
                old(self).window_server_info@,
                infos@,
            ),
            final(self).apps@ == old(self).apps@,
            final(self).windows == old(self).windows,
            final(self).window_ids@ == old(self).window_ids@,
            final(self).visible_windows@ == old(self).visible_windows@,
            final(self).recent_wsids@ == old(self).recent_wsids@,
            final(self).has_wm_controller == old(self).has_wm_controller,
    {
        let mut i: usize = 0;
        while i < infos.len()
            invariant
                i <= infos@.len(),
                self.window_server_info@ == merge_server_info(
                    old(self).window_server_info@,
                    infos@.take(i as int),
                ),
                self.apps@ == old(self).apps@,
                self.windows == old(self).windows,
                self.window_ids@ == old(self).window_ids@,
                self.visible_windows@ == old(self).visible_windows@,
                self.recent_wsids@ == old(self).recent_wsids@,
                self.has_wm_controller == old(self).has_wm_controller,
            decreases infos@.len() - i,
        {
            assert(infos@.take(i + 1).drop_last() =~= infos@.take(i as int));
            let info = infos[i];
            self.window_server_info.insert(info.id.0, info);
            i += 1;
        }
        assert(infos@.take(i as int) =~= infos@);
    }

    /// Records `wsids` as recently seen, after those already recorded.
    pub fn mark_wsids_recent(&mut self, wsids: Vec<WindowServerId>)
        ensures
            final(self).recent_wsids@ == old(self).recent_wsids@ + wsids@,
            final(self).apps@ == old(self).apps@,
            final(self).windows == old(self).windows,
            final(self).window_ids@ == old(self).window_ids@,
            final(self).window_server_info@ == old(self).window_server_info@,
            final(self).visible_windows@ == old(self).visible_windows@,
            final(self).has_wm_controller == old(self).has_wm_controller,
    {
        let mut i: usize = 0;
        while i < wsids.len()
            invariant
                i <= wsids@.len(),
                self.recent_wsids@ == old(self).recent_wsids@ + wsids@.take(i as int),
                self.apps@ == old(self).apps@,
                self.windows == old(self).windows,
                self.window_ids@ == old(self).window_ids@,
                self.window_server_info@ == old(self).window_server_info@,
                self.visible_windows@ == old(self).visible_windows@,
                self.has_wm_controller == old(self).has_wm_controller,
            decreases wsids@.len() - i,
        {
            self.recent_wsids.push(wsids[i]);
            assert(old(self).recent_wsids@ + wsids@.take(i + 1) =~= self.recent_wsids@);
            i += 1;
        }
        assert(wsids@.take(i as int) =~= wsids@);
    }

    /// Folds a discovery report for `pid` into the store. `new` are the windows reported now,
    /// `known_visible` those already known to be visible; a window of `pid` that is in neither
    /// is dropped. Where `app_info` is given, the manageable windows of `new` go to the
    /// app-rules engine.
    pub fn on_windows_discovered_with_app_info(
        &mut self,
        pid: i32,
        new: Vec<(WindowId, WindowInfo)>,
        known_visible: Vec<WindowId>,
        app_info: Option<AppInfo>,
    ) -> (r: Vec<Command>)
        requires
            old(self).wf(),
        ensures
            final(self).windows_view() == discovered_windows(
                old(self).windows_view(),
                pid,
                new@,
                known_visible@,
            ),
            final(self).window_ids@ == discovered_bindings(
                old(self).window_ids@,
                pid,
                new@,
                known_visible@,
            ),
            final(self).wf(),
            bindings_injective(final(self).window_ids@),
            final(self).visible_view() == old(self).visible_view().insert(
                pid,
                ids_of(new@) + known_visible@,
            ),
            final(self).apps@ == old(self).apps@,
            final(self).window_server_info@ == old(self).window_server_info@,
            final(self).recent_wsids@ == old(self).recent_wsids@,
            final(self).has_wm_controller == old(self).has_wm_controller,
            match app_info {
                Some(info) if manageable_ids(new@).len() > 0 => {
                    &&& r@.len() == 1
                    &&& match r@[0] {
                        Command::ApplyAppRules { pid: p, windows, info: i } => {
                            &&& p == pid
                            &&& windows@ == manageable_ids(new@)
                            &&& i == info
                        },
                        _ => false,
                    }
                },
                _ => r@.len() == 0,
            },
    {
        let ghost old_map = old(self).windows_view();
        let ghost old_ids = old(self).window_ids@;
        let mut kept: Vec<(WindowId, WindowInfo)> = Vec::new();
        let mut i: usize = 0;
        while i < self.windows.len()
            invariant
                i <= self.windows@.len(),
                self.windows@ == old(self).windows@,
                entries_map(kept@) == Map::new(
                    |w: WindowId| entries_map(self.windows@.take(i as int)).contains_key(w) && kept_through(w, pid, new@, known_visible@),
                    |w: WindowId| entries_map(self.windows@.take(i as int))[w],
                ),
                bindings_consistent(old_ids, old_map),
                forall|s: u32| #[trigger]
                    self.window_ids@.contains_key(s) ==> old_ids.contains_key(s)
                        && self.window_ids@[s] == old_ids[s],
                forall|s: u32| #[trigger]
                    old_ids.contains_key(s) && kept_through(old_ids[s], pid, new@, known_visible@)
                        ==> self.window_ids@.contains_key(s),
                forall|k: int| #![trigger self.windows@[k]]
                    0 <= k < i && !kept_through(self.windows@[k].0, pid, new@, known_visible@)
                        ==> match self.windows@[k].1.sys_id {
                        Some(s0) => !(self.window_ids@.contains_key(s0.0) && self.window_ids@[s0.0]
                            == self.windows@[k].0),
                        None => true,
                    },
                self.apps@ == old(self).apps@,
                self.window_server_info@ == old(self).window_server_info@,
                self.visible_windows@ == old(self).visible_windows@,
                self.recent_wsids@ == old(self).recent_wsids@,
                self.has_wm_controller == old(self).has_wm_controller,
            decreases self.windows@.len() - i,
        {
            assert(self.windows@.take(i + 1).drop_last() =~= self.windows@.take(i as int));
            let e = self.windows[i];
            let retained = (e.0.pid != pid || holds_window_id(&known_visible, e.0)) && !names_window(
                &new,
                e.0,
            );
            assert(retained == kept_through(e.0, pid, new@, known_visible@));
            assert(self.windows@.take(i + 1).last() == e);
            if retained {
                let ghost before = kept@;
                kept.push(e);
                assert(kept@.drop_last() =~= before);
            } else {
                match e.1.sys_id {
                    Some(s0) => {
                        let bound = match self.window_ids.get(&s0.0) {
                            Some(b) => *b == e.0,
                            None => false,
                        };
                        if bound {
                            self.window_ids.remove(&s0.0);
                        }
                    },
                    None => {},
                }
            }
            i += 1;
            assert(entries_map(kept@) =~= Map::new(
                |w: WindowId| entries_map(self.windows@.take(i as int)).contains_key(w) && kept_through(w, pid, new@, known_visible@),
                |w: WindowId| entries_map(self.windows@.take(i as int))[w],
            ));
        }
        assert(self.windows@.take(i as int) =~= self.windows@);
        let ghost b_ids = retained_bindings(old_ids, pid, new@, known_visible@);
        assert forall|s: u32| self.window_ids@.contains_key(s) implies kept_through(
            old_ids[s],
            pid,
            new@,
            known_visible@,
        ) by {
            let w = old_ids[s];
            if !kept_through(w, pid, new@, known_visible@) {
                assert(old_ids.contains_key(s));
                lemma_entries_map_witness(old(self).windows@, w);
                let k = choose|k: int|
                    0 <= k < old(self).windows@.len() && old(self).windows@[k].0 == w
                        && old(self).windows@[k].1 == old_map[w];
                assert(self.windows@[k] == old(self).windows@[k]);
            }
        }
        assert(self.window_ids@ =~= b_ids);
        assert forall|s: u32| #[trigger] b_ids.contains_key(s) implies entries_map(kept@).contains_key(
            b_ids[s],
        ) && entries_map(kept@)[b_ids[s]].sys_id == Some(WindowServerId(s)) by {
            assert(old_ids.contains_key(s));
        }
        assert(new@.take(0) =~= Seq::<(WindowId, WindowInfo)>::empty());
        let ghost base = entries_map(kept@);
        let mut j: usize = 0;
        while j < new.len()
            invariant
                j <= new@.len(),
                entries_map(kept@) == base.union_prefer_right(entries_map(new@.take(j as int))),
                self.window_ids@ == rebind_all(b_ids, new@.take(j as int)),
                bindings_consistent(self.window_ids@, entries_map(kept@)),
                self.apps@ == old(self).apps@,
                self.window_server_info@ == old(self).window_server_info@,
                self.visible_windows@ == old(self).visible_windows@,
                self.recent_wsids@ == old(self).recent_wsids@,
                self.has_wm_controller == old(self).has_wm_controller,
            decreases new@.len() - j,
        {
            assert(new@.take(j + 1).drop_last() =~= new@.take(j as int));
            let e = new[j];
            let ghost ids0 = self.window_ids@;
            let ghost map0 = entries_map(kept@);
            match lookup_entry(&kept, e.0) {
                Some(p) => match p.sys_id {
                    Some(s0) => {
                        let bound = match self.window_ids.get(&s0.0) {
                            Some(b) => *b == e.0,
                            None => false,
                        };
                        if bound {
                            self.window_ids.remove(&s0.0);
                        }
                    },
                    None => {},
                },
                None => {},
            }
            assert forall|s: u32| #[trigger]
                ids0.contains_key(s) && ids0[s] == e.0 implies !self.window_ids@.contains_key(s) by {
                assert(map0.contains_key(ids0[s]));
            }
            assert(self.window_ids@ =~= unbind_window(ids0, e.0));
            let ghost before = kept@;
            kept.push(e);
            assert(kept@.drop_last() =~= before);
            assert(entries_map(kept@) == map0.insert(e.0, e.1));
            match e.1.sys_id {
                Some(sid) => {
                    self.window_ids.insert(sid.0, e.0);
                },
                None => {},
            }
            assert(new@.take(j + 1).last() == e);
            assert forall|s: u32| #[trigger] self.window_ids@.contains_key(s) implies entries_map(
                kept@,
            ).contains_key(self.window_ids@[s]) && entries_map(kept@)[self.window_ids@[s]].sys_id
                == Some(WindowServerId(s)) by {
                if self.window_ids@[s] != e.0 {
                    assert(ids0.contains_key(s));
                }
            }
            j += 1;
            assert(entries_map(kept@) =~= base.union_prefer_right(entries_map(new@.take(j as int))));
        }
        assert(new@.take(j as int) =~= new@);
        self.windows = kept;
        assert forall|w: WindowId| #![auto] true implies (self.windows_view().contains_key(w)
            == discovered_windows(old_map, pid, new@, known_visible@).contains_key(w)) by {
            lemma_entries_map_keys(new@, w);
        }
        assert(self.windows_view() =~= discovered_windows(old_map, pid, new@, known_visible@));
        proof {
            lemma_consistent_bindings_are_injective(self.window_ids@, self.windows_view());
        }

        let mut visible: Vec<WindowId> = Vec::new();
        let mut j: usize = 0;
        while j < new.len()
            invariant
                j <= new@.len(),
                visible@ == ids_of(new@.take(j as int)),
            decreases new@.len() - j,
        {
            visible.push(new[j].0);
            j += 1;
            assert(visible@ =~= ids_of(new@.take(j as int)));
        }
        assert(new@.take(j as int) =~= new@);
        let mut k: usize = 0;
        while k < known_visible.len()
            invariant
                k <= known_visible@.len(),
                visible@ == ids_of(new@) + known_visible@.take(k as int),
            decreases known_visible@.len() - k,
        {
            visible.push(known_visible[k]);
            k += 1;
            assert(visible@ =~= ids_of(new@) + known_visible@.take(k as int));
        }
        assert(known_visible@.take(k as int) =~= known_visible@);
        let ghost old_vis = self.visible_view();
        self.visible_windows.insert(pid, visible);
        assert(self.visible_view() =~= old_vis.insert(pid, ids_of(new@) + known_visible@));

        let mut commands: Vec<Command> = Vec::new();
        if let Some(info) = app_info {
            let mut manageable: Vec<WindowId> = Vec::new();
            let mut j: usize = 0;
            while j < new.len()
                invariant
                    j <= new@.len(),
                    manageable@ == manageable_ids(new@.take(j as int)),
                decreases new@.len() - j,
            {
                assert(new@.take(j + 1).drop_last() =~= new@.take(j as int));
                if new[j].1.is_manageable {
                    manageable.push(new[j].0);
                }
                j += 1;
            }
            assert(new@.take(j as int) =~= new@);
            if manageable.len() > 0 {
                commands.push(Command::ApplyAppRules { pid, windows: manageable, info });
            }
        }
        commands
    }
}

} // verus!
