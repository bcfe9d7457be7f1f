use vstd::prelude::*;

use crate::model::{clone_hosts, hosts_view, Instance, InstanceView, ServiceInfo};

verus! {

/// A change notification as a listener sees it: the cache key and the
/// delivered host list.
pub struct ChangeNoticeView {
    pub key: Seq<char>,
    pub hosts: Seq<InstanceView>,
}

/// A listener for service-membership changes; users of the library
/// implement it.
///
/// `notices` is the listener's own record of the notifications it has
/// received; `changed` must extend it by exactly the delivered one. The
/// library proves against this contract; implementations outside it are
/// trusted to meet it.
pub trait ServiceChangeListener: Sized {
    /// The listener's record of received notifications; a listener that
    /// keeps none leaves the default.
    open spec fn notices(&self) -> Seq<ChangeNoticeView> {
        Seq::empty()
    }

    fn changed(&mut self, service_name: &str, hosts: Vec<Instance>)
        ensures
            final(self).notices() == old(self).notices().push(
                (ChangeNoticeView { key: service_name@, hosts: hosts_view(hosts@) }),
            ),
    ;
}

/// The identities of a host list, in order.
pub open spec fn identities_of(hosts: Seq<InstanceView>) -> Seq<(Seq<char>, Seq<char>, u16, Seq<char>)> {
    hosts.map_values(|h: InstanceView| h.identity())
}

/// Whether some host in the list has the given identity.
pub open spec fn contains_identity(
    hosts: Seq<InstanceView>,
    id: (Seq<char>, Seq<char>, u16, Seq<char>),
) -> bool {
    exists|i: int| 0 <= i < hosts.len() && hosts[i].identity() == id
}

/// The hosts of `old` whose identity no longer occurs in `new`, each marked
/// as logically removed, in their order in `old`.
pub open spec fn removed_of(old: Seq<InstanceView>, new: Seq<InstanceView>) -> Seq<InstanceView>
    decreases old.len(),
{
    if old.len() == 0 {
        Seq::empty()
    } else {
        removed_of(old.drop_last(), new) + if contains_identity(new, old.last().identity()) {
            Seq::empty()
        } else {
            seq![old.last().disabled()]
        }
    }
}

/// What a change delivers to listeners: the new hosts as they are, plus
/// each dropped old host with `enabled == false`.
pub open spec fn spec_diff(
    old: Option<Seq<InstanceView>>,
    new: Seq<InstanceView>,
) -> Seq<InstanceView> {
    match old {
        None => new,
        Some(o) => new + removed_of(o, new),
    }
}

/// The host of `new` that shares `old`'s identity, if one does.
pub fn get_same_instance<'a>(new: &'a Vec<Instance>, old: &Instance) -> (r: Option<&'a Instance>)
    ensures
        match r {
            Some(found) => contains_identity(hosts_view(new@), old@.identity()) && found@.identity()
                == old@.identity(),
            None => !contains_identity(hosts_view(new@), old@.identity()),
        },
{
    let mut i: usize = 0;
    while i < new.len()
        invariant
            i <= new@.len(),
            forall|j: int| 0 <= j < i ==> hosts_view(new@)[j].identity() != old@.identity(),
        decreases new@.len() - i,
    {
        if new[i].same_identity(old) {
            assert(hosts_view(new@)[i as int].identity() == old@.identity());
            return Some(&new[i]);
        }
        i = i + 1;
    }
    None
}

/// Computes the list delivered to listeners: `new` unchanged when there was
/// no previous list or it was empty; else `new` followed by every dropped
/// old host marked disabled.
pub fn diff_instance(old: Option<&Vec<Instance>>, new: &Vec<Instance>) -> (r: Vec<Instance>)
    ensures
        hosts_view(r@) == spec_diff(
            match old {
                Some(o) => Some(hosts_view(o@)),
                None => None,
            },
            hosts_view(new@),
        ),
{
    let mut r = clone_hosts(new);
    let o: &Vec<Instance> = match old {
        None => {
            proof {
                assert(hosts_view(r@) =~= spec_diff(None, hosts_view(new@)));
            }
            return r;
        },
        Some(o) => o,
    };
    let ghost ov = hosts_view(o@);
    let mut i: usize = 0;
    while i < o.len()
        invariant
            i <= o@.len(),
            ov == hosts_view(o@),
            hosts_view(r@) == hosts_view(new@) + removed_of(ov.subrange(0, i as int), hosts_view(new@)),
        decreases o@.len() - i,
    {
        let ghost pre = ov.subrange(0, i as int);
        let ghost cur = ov.subrange(0, i + 1 as int);
        proof {
            assert(cur.drop_last() =~= pre);
            assert(cur.last() == ov[i as int]);
        }
        match get_same_instance(new, &o[i]) {
            Some(_) => {
                proof {
                    assert(hosts_view(r@) =~= hosts_view(new@) + removed_of(cur, hosts_view(new@)));
                }
            },
            None => {
                let mut removed = o[i].clone();
                removed.enabled = false;
                assert(removed@ == ov[i as int].disabled());
                let ghost r0 = r@;
                r.push(removed);
                proof {
                    assert(hosts_view(r@) =~= hosts_view(r0).push(ov[i as int].disabled()));
                    assert(hosts_view(r@) =~= hosts_view(new@) + removed_of(cur, hosts_view(new@)));
                }
            },
        }
        i = i + 1;
    }
    proof {
        assert(ov.subrange(0, o@.len() as int) =~= ov);
    }
    r
}

/// When the old and the new list carry the same identities (as multisets),
/// nothing is marked removed: the delivered list is exactly `new`.
pub proof fn lemma_diff_same_identities(old: Seq<InstanceView>, new: Seq<InstanceView>)
    requires
        identities_of(old).to_multiset() == identities_of(new).to_multiset(),
    ensures
        spec_diff(Some(old), new) == new,
    decreases old.len(),
{
    broadcast use vstd::seq_lib::group_to_multiset_ensures;

    assert forall|i: int| 0 <= i < old.len() implies contains_identity(
        new,
        old[i].identity(),
    ) by {
        let id = old[i].identity();
        assert(identities_of(old)[i] == id);
        assert(identities_of(old).contains(id));
        assert(identities_of(old).to_multiset().count(id) > 0);
        assert(identities_of(new).contains(id));
        let j = choose|j: int| 0 <= j < identities_of(new).len() && identities_of(new)[j] == id;
        assert(new[j].identity() == id);
    }
    lemma_removed_of_empty(old, new);
    assert(spec_diff(Some(old), new) =~= new);
}

/// When every old identity still occurs in `new`, nothing is removed.
pub proof fn lemma_removed_of_empty(old: Seq<InstanceView>, new: Seq<InstanceView>)
    requires
        forall|i: int| 0 <= i < old.len() ==> contains_identity(new, #[trigger] old[i].identity()),
    ensures
        removed_of(old, new) == Seq::<InstanceView>::empty(),
    decreases old.len(),
{
    if old.len() > 0 {
        lemma_removed_of_empty(old.drop_last(), new);
        assert(old.last() == old[old.len() - 1]);
        assert(removed_of(old, new) =~= Seq::<InstanceView>::empty());
    }
}

/// Every old host whose identity dropped out of `new` appears in the
/// delivered list, marked `enabled == false`.
pub proof fn lemma_diff_removal(old: Seq<InstanceView>, new: Seq<InstanceView>, i: int)
    requires
        0 <= i < old.len(),
        !contains_identity(new, old[i].identity()),
    ensures
        spec_diff(Some(old), new).contains(old[i].disabled()),
        !old[i].disabled().enabled,
        old[i].disabled().identity() == old[i].identity(),
    decreases old.len(),
{
    lemma_removed_of_contains(old, new, i);
    let r = removed_of(old, new);
    let j = choose|j: int| 0 <= j < r.len() && r[j] == old[i].disabled();
    assert(spec_diff(Some(old), new)[new.len() + j] == old[i].disabled());
}

proof fn lemma_removed_of_contains(old: Seq<InstanceView>, new: Seq<InstanceView>, i: int)
    requires
        0 <= i < old.len(),
        !contains_identity(new, old[i].identity()),
    ensures
        removed_of(old, new).contains(old[i].disabled()),
    decreases old.len(),
{
    if i == old.len() - 1 {
        let r = removed_of(old, new);
        assert(old.last() == old[i]);
        assert(r[r.len() - 1] == old[i].disabled());
    } else {
        lemma_removed_of_contains(old.drop_last(), new, i);
        let pre = removed_of(old.drop_last(), new);
        let j = choose|j: int| 0 <= j < pre.len() && pre[j] == old[i].disabled();
        assert(removed_of(old, new)[j] == old[i].disabled());
    }
}

} // verus!

// === association-list model ==================================================

verus! {

/// No key occurs twice in an association list.
pub open spec fn assoc_unique<T>(s: Seq<(String, T)>) -> bool {
    forall|i: int, j: int| 0 <= i < j < s.len() ==> s[i].0@ != s[j].0@
}

/// The mapping an association list stands for; a later entry wins.
pub open spec fn map_of<T>(s: Seq<(String, T)>) -> Map<Seq<char>, T>
    decreases s.len(),
{
    if s.len() == 0 {
        Map::empty()
    } else {
        map_of(s.drop_last()).insert(s.last().0@, s.last().1)
    }
}

proof fn lemma_map_of_absent<T>(s: Seq<(String, T)>, key: Seq<char>)
    requires
        forall|i: int| 0 <= i < s.len() ==> s[i].0@ != key,
    ensures
        !map_of(s).dom().contains(key),
    decreases s.len(),
{
    if s.len() > 0 {
        assert(s.last() == s[s.len() - 1]);
        lemma_map_of_absent(s.drop_last(), key);
    }
}

proof fn lemma_map_of_at<T>(s: Seq<(String, T)>, i: int)
    requires
        0 <= i < s.len(),
        forall|j: int| i < j < s.len() ==> s[j].0@ != s[i].0@,
    ensures
        map_of(s).dom().contains(s[i].0@),
        map_of(s)[s[i].0@] == s[i].1,
    decreases s.len(),
{
    assert(s.last() == s[s.len() - 1]);
    if i < s.len() - 1 {
        lemma_map_of_at(s.drop_last(), i);
    }
}

proof fn lemma_map_of_update<T>(s: Seq<(String, T)>, i: int, k: String, v: T)
    requires
        0 <= i < s.len(),
        s[i].0@ == k@,
        forall|j: int| 0 <= j < s.len() && j != i ==> s[j].0@ != k@,
    ensures
        map_of(s.update(i, (k, v))) == map_of(s).insert(k@, v),
    decreases s.len(),
{
    let su = s.update(i, (k, v));
    assert(s.last() == s[s.len() - 1]);
    assert(su.last() == su[s.len() - 1]);
    if i == s.len() - 1 {
        assert(su.drop_last() =~= s.drop_last());
        assert(map_of(su) =~= map_of(s).insert(k@, v));
    } else {
        assert(su.drop_last() =~= s.drop_last().update(i, (k, v)));
        lemma_map_of_update(s.drop_last(), i, k, v);
        assert(map_of(su) =~= map_of(s).insert(k@, v));
    }
}

proof fn lemma_map_of_push<T>(s: Seq<(String, T)>, k: String, v: T)
    ensures
        map_of(s.push((k, v))) == map_of(s).insert(k@, v),
{
    assert(s.push((k, v)).drop_last() =~= s);
    assert(s.push((k, v)).last() == (k, v));
}

} // verus!

// === the holder ==============================================================

verus! {

/// Whether one fan-out delivered `hosts` under `key` to every listener of
/// `key` exactly once, and touched no other listener.
pub open spec fn notified_once<L: ServiceChangeListener>(
    pre: Map<Seq<char>, Vec<L>>,
    post: Map<Seq<char>, Vec<L>>,
    key: Seq<char>,
    hosts: Seq<InstanceView>,
) -> bool {
    &&& post.dom() == pre.dom()
    &&& forall|k2: Seq<char>| pre.dom().contains(k2) && k2 != key ==> post[k2] == pre[k2]
    &&& pre.dom().contains(key) ==> {
        &&& post[key]@.len() == pre[key]@.len()
        &&& forall|i: int|
            0 <= i < pre[key]@.len() ==> (#[trigger] post[key]@[i]).notices() == pre[key]@[i].notices().push(
                (ChangeNoticeView { key: key, hosts: hosts }),
            )
    }
}

/// The in-memory cache of discovered services: the service map, the
/// listeners of each cache key, and the persistence directory the
/// embedding writes snapshots to.
pub struct ServiceHolder<L: ServiceChangeListener> {
    pub entries: Vec<(String, ServiceInfo)>,
    pub listeners: Vec<(String, Vec<L>)>,
    pub cache_dir: String,
    pub update_when_empty: bool,
}

impl<L: ServiceChangeListener> ServiceHolder<L> {
    /// Each key names at most one service entry and one listener line.
    pub open spec fn wf(self) -> bool {
        assoc_unique(self.entries@) && assoc_unique(self.listeners@)
    }

    /// The service map this holder stands for.
    pub open spec fn services(self) -> Map<Seq<char>, ServiceInfo> {
        map_of(self.entries@)
    }

    /// The listeners of each cache key, in registration order.
    pub open spec fn listener_lines(self) -> Map<Seq<char>, Vec<L>> {
        map_of(self.listeners@)
    }

    /// An empty holder over the given persistence directory.
    pub fn new(cache_dir: &str, update_when_empty: bool) -> (r: Self)
        ensures
            r.wf(),
            r.services() == Map::<Seq<char>, ServiceInfo>::empty(),
            r.listener_lines() == Map::<Seq<char>, Vec<L>>::empty(),
            r.cache_dir@ == cache_dir@,
            r.update_when_empty == update_when_empty,
    {
        ServiceHolder {
            entries: Vec::new(),
            listeners: Vec::new(),
            cache_dir: cache_dir.to_owned(),
            update_when_empty,
        }
    }

    /// The index of the entry stored under `key`, if any.
    fn find_entry(&self, key: &String) -> (r: Option<usize>)
        ensures
            match r {
                Some(i) => i < self.entries@.len() && self.entries@[i as int].0@ == key@,
                None => forall|i: int| 0 <= i < self.entries@.len() ==> self.entries@[i].0@ != key@,
            },
    {
        let mut i: usize = 0;
        while i < self.entries.len()
            invariant
                i <= self.entries@.len(),
                forall|j: int| 0 <= j < i ==> self.entries@[j].0@ != key@,
            decreases self.entries@.len() - i,
        {
            if self.entries[i].0.eq(key) {
                return Some(i);
            }
            i = i + 1;
        }
        None
    }

    /// Looks up the snapshot cached for the grouped service name and the
    /// clusters joined in the given order; answers a copy, with no
    /// staleness check.
    pub fn get_service_info(&self, service_name: &str, clusters: &Vec<String>) -> (r: Option<
        ServiceInfo,
    >)
        requires
            self.wf(),
        ensures
            ({
                let k = ServiceInfo::spec_key(
                    service_name@,
                    crate::util::csv_rep(clusters@.map_values(|c: String| c@)),
                );
                match r {
                    Some(info) => self.services().dom().contains(k) && info@ == self.services()[k]@,
                    None => !self.services().dom().contains(k),
                }
            }),
    {
        let joined = crate::util::join_csv(clusters);
        let key = ServiceInfo::generate_key(service_name, joined.as_str());
        match self.find_entry(&key) {
            Some(i) => {
                proof {
                    lemma_map_of_at(self.entries@, i as int);
                }
                Some(self.entries[i].1.clone())
            },
            None => {
                proof {
                    lemma_map_of_absent(self.entries@, key@);
                }
                None
            },
        }
    }

    /// Stores `info` under `key`, replacing the entry `at` points to or
    /// appending a new one.
    fn upsert_at(&mut self, at: Option<usize>, key: String, info: ServiceInfo)
        requires
            old(self).wf(),
            match at {
                Some(i) => i < old(self).entries@.len() && old(self).entries@[i as int].0@ == key@,
                None => forall|i: int|
                    0 <= i < old(self).entries@.len() ==> old(self).entries@[i].0@ != key@,
            },
        ensures
            final(self).wf(),
            final(self).services() == old(self).services().insert(key@, info),
            final(self).listeners == old(self).listeners,
            final(self).cache_dir == old(self).cache_dir,
            final(self).update_when_empty == old(self).update_when_empty,
    {
        let ghost s0 = self.entries@;
        match at {
            Some(i) => {
                proof {
                    assert(forall|j: int|
                        0 <= j < s0.len() && j != i ==> s0[j].0@ != key@);
                }
                let _ = self.entries.remove(i);
                self.entries.insert(i, (key, info));
                proof {
                    assert(self.entries@ =~= s0.update(at->0 as int, (key, info)));
                    lemma_map_of_update(s0, at->0 as int, key, info);
                    assert(assoc_unique(self.entries@));
                }
            },
            None => {
                self.entries.push((key, info));
                proof {
                    assert(self.entries@ =~= s0.push((key, info)));
                    lemma_map_of_push(s0, key, info);
                    assert(assoc_unique(self.entries@));
                }
            },
        }
    }

    /// The index of the listener line stored under `key`, if any.
    fn find_line(&self, key: &String) -> (r: Option<usize>)
        ensures
            match r {
                Some(i) => i < self.listeners@.len() && self.listeners@[i as int].0@ == key@,
                None => forall|i: int|
                    0 <= i < self.listeners@.len() ==> self.listeners@[i].0@ != key@,
            },
    {
        let mut i: usize = 0;
        while i < self.listeners.len()
            invariant
                i <= self.listeners@.len(),
                forall|j: int| 0 <= j < i ==> self.listeners@[j].0@ != key@,
            decreases self.listeners@.len() - i,
        {
            if self.listeners[i].0.eq(key) {
                return Some(i);
            }
            i = i + 1;
        }
        None
    }
}

} // verus!

// === updates and fan-out =====================================================

verus! {

/// Invokes every listener in the line once, in order, each with its own
/// copy of the delivered hosts.
fn notify_all<L: ServiceChangeListener>(items: &mut Vec<L>, key: &str, hosts: &Vec<Instance>)
    ensures
        final(items)@.len() == old(items)@.len(),
        forall|i: int|
            0 <= i < old(items)@.len() ==> (#[trigger] final(items)@[i]).notices()
                == old(items)@[i].notices().push(
                (ChangeNoticeView { key: key@, hosts: hosts_view(hosts@) }),
            ),
{
    let ghost orig = items@;
    let ghost notice = ChangeNoticeView { key: key@, hosts: hosts_view(hosts@) };
    let mut i: usize = 0;
    while i < items.len()
        invariant
            i <= orig.len(),
            items@.len() == orig.len(),
            notice == (ChangeNoticeView { key: key@, hosts: hosts_view(hosts@) }),
            forall|j: int|
                0 <= j < i ==> (#[trigger] items@[j]).notices() == orig[j].notices().push(notice),
            forall|j: int| i <= j < orig.len() ==> items@[j] == orig[j],
        decreases orig.len() - i,
    {
        let ghost pre = items@;
        let mut l = items.remove(i);
        let h = clone_hosts(hosts);
        l.changed(key, h);
        items.insert(i, l);
        proof {
            assert(items@ =~= pre.update(i as int, items@[i as int]));
        }
        i = i + 1;
    }
}

impl<L: ServiceChangeListener> ServiceHolder<L> {
    /// Delivers `hosts` under `key` to every listener of `key`, in
    /// registration order; listeners of other keys see nothing.
    fn notify(&mut self, key: &String, hosts: &Vec<Instance>)
        requires
            old(self).wf(),
        ensures
            final(self).wf(),
            final(self).entries == old(self).entries,
            final(self).cache_dir == old(self).cache_dir,
            final(self).update_when_empty == old(self).update_when_empty,
            notified_once(
                old(self).listener_lines(),
                final(self).listener_lines(),
                key@,
                hosts_view(hosts@),
            ),
    {
        let ghost l0 = self.listeners@;
        match self.find_line(key) {
            None => {
                proof {
                    lemma_map_of_absent(l0, key@);
                }
            },
            Some(j) => {
                proof {
                    lemma_map_of_at(l0, j as int);
                }
                let (k2, mut items) = self.listeners.remove(j);
                notify_all(&mut items, key.as_str(), hosts);
                let newline = (k2, items);
                let ghost np = newline;
                self.listeners.insert(j, newline);
                proof {
                    assert(self.listeners@ =~= l0.update(j as int, np));
                    assert(forall|j2: int|
                        0 <= j2 < l0.len() && j2 != j ==> l0[j2].0@ != np.0@);
                    lemma_map_of_update(l0, j as int, np.0, np.1);
                    assert(assoc_unique(self.listeners@));
                    let pre = map_of::<Vec<L>>(l0);
                    let post = self.listener_lines();
                    assert(post =~= pre.insert(key@, np.1));
                    assert(post.dom() =~= pre.dom());
                }
            },
        }
    }

    /// Replaces the snapshot stored under its cache key, delivers the
    /// diff against the previous hosts to every listener of that key in
    /// registration order, and answers the key so the embedding persists
    /// the snapshot — unless empty updates are ignored and this one would
    /// blank a non-empty entry, in which case nothing changes and `None`
    /// is answered.
    pub fn update_service_info(&mut self, service_info: ServiceInfo) -> (applied: Option<String>)
        requires
            old(self).wf(),
        ensures
            final(self).wf(),
            final(self).cache_dir == old(self).cache_dir,
            final(self).update_when_empty == old(self).update_when_empty,
            ({
                let k = service_info@.key();
                let had = old(self).services().dom().contains(k);
                let suppressed = !old(self).update_when_empty && service_info@.hosts.len() == 0
                    && had && old(self).services()[k]@.hosts.len() > 0;
                if suppressed {
                    &&& applied is None
                    &&& final(self).services() == old(self).services()
                    &&& final(self).listener_lines() == old(self).listener_lines()
                } else {
                    &&& applied matches Some(s) && s@ == k
                    &&& final(self).services() == old(self).services().insert(k, service_info)
                    &&& notified_once(
                        old(self).listener_lines(),
                        final(self).listener_lines(),
                        k,
                        spec_diff(
                            if had {
                                Some(old(self).services()[k]@.hosts)
                            } else {
                                None
                            },
                            service_info@.hosts,
                        ),
                    )
                }
            }),
    {
        let key = service_info.get_key();
        let at = self.find_entry(&key);
        proof {
            match at {
                Some(i) => {
                    lemma_map_of_at(self.entries@, i as int);
                },
                None => {
                    lemma_map_of_absent(self.entries@, key@);
                },
            }
        }
        if let Some(i) = at {
            if !self.update_when_empty && service_info.hosts.len() == 0 && self.entries[i].1.hosts.len()
                > 0 {
                return None;
            }
        }
        let push_instance = match at {
            Some(i) => diff_instance(Some(&self.entries[i].1.hosts), &service_info.hosts),
            None => diff_instance(None, &service_info.hosts),
        };
        self.upsert_at(at, key.clone(), service_info);
        self.notify(&key, &push_instance);
        Some(key)
    }

    /// Appends a listener for the key composed of the grouped service
    /// name and the comma-joined clusters; duplicates fire multiple
    /// times.
    pub fn register_subscribe(&mut self, service_name: String, clusters: String, listener: L)
        requires
            old(self).wf(),
        ensures
            final(self).wf(),
            final(self).entries == old(self).entries,
            final(self).cache_dir == old(self).cache_dir,
            final(self).update_when_empty == old(self).update_when_empty,
            ({
                let k = ServiceInfo::spec_key(service_name@, clusters@);
                &&& final(self).listener_lines().dom() == old(self).listener_lines().dom().insert(k)
                &&& forall|k2: Seq<char>|
                    old(self).listener_lines().dom().contains(k2) && k2 != k
                        ==> final(self).listener_lines()[k2] == old(self).listener_lines()[k2]
                &&& final(self).listener_lines()[k]@ == (if old(self).listener_lines().dom().contains(k) {
                    old(self).listener_lines()[k]@
                } else {
                    Seq::<L>::empty()
                }).push(listener)
            }),
    {
        let key = ServiceInfo::generate_key(service_name.as_str(), clusters.as_str());
        let ghost l0 = self.listeners@;
        match self.find_line(&key) {
            Some(j) => {
                proof {
                    lemma_map_of_at(l0, j as int);
                }
                let (k2, mut items) = self.listeners.remove(j);
                let ghost items0 = items@;
                items.push(listener);
                let newline = (k2, items);
                let ghost np = newline;
                self.listeners.insert(j, newline);
                proof {
                    assert(self.listeners@ =~= l0.update(j as int, np));
                    assert(forall|j2: int|
                        0 <= j2 < l0.len() && j2 != j ==> l0[j2].0@ != np.0@);
                    lemma_map_of_update(l0, j as int, np.0, np.1);
                    assert(assoc_unique(self.listeners@));
                    assert(final(self).listener_lines().dom() =~= map_of::<Vec<L>>(
                        l0,
                    ).dom().insert(key@));
                }
            },
            None => {
                proof {
                    lemma_map_of_absent(l0, key@);
                }
                let mut items: Vec<L> = Vec::new();
                items.push(listener);
                let newline = (key, items);
                let ghost np = newline;
                self.listeners.push(newline);
                proof {
                    assert(self.listeners@ =~= l0.push(np));
                    lemma_map_of_push(l0, np.0, np.1);
                    assert(assoc_unique(self.listeners@));
                    assert(np.1@ =~= Seq::<L>::empty().push(np.1@[0]));
                }
            },
        }
    }

    /// A copy of the whole service map, as the push receiver dumps it.
    pub fn get_service_info_map(&self) -> (r: Vec<(String, ServiceInfo)>)
        ensures
            r@.len() == self.entries@.len(),
            forall|i: int|
                0 <= i < r@.len() ==> (#[trigger] r@[i]).0@ == self.entries@[i].0@ && r@[i].1@
                    == self.entries@[i].1@,
    {
        let mut r: Vec<(String, ServiceInfo)> = Vec::new();
        let mut i: usize = 0;
        while i < self.entries.len()
            invariant
                i <= self.entries@.len(),
                r@.len() == i,
                forall|j: int|
                    0 <= j < i ==> (#[trigger] r@[j]).0@ == self.entries@[j].0@ && r@[j].1@
                        == self.entries@[j].1@,
            decreases self.entries@.len() - i,
        {
            let pair = (self.entries[i].0.clone(), self.entries[i].1.clone());
            r.push(pair);
            proof {
                assert(r@[i as int].0@ == self.entries@[i as int].0@);
                assert(r@[i as int].1@ == self.entries@[i as int].1@);
            }
            i = i + 1;
        }
        r
    }
}

/// The service map after hydrating with a list of snapshots; a later
/// duplicate key wins.
pub open spec fn extended_with(
    m: Map<Seq<char>, ServiceInfo>,
    loaded: Seq<(String, ServiceInfo)>,
) -> Map<Seq<char>, ServiceInfo>
    decreases loaded.len(),
{
    if loaded.len() == 0 {
        m
    } else {
        extended_with(m, loaded.drop_last()).insert(loaded.last().0@, loaded.last().1)
    }
}

impl<L: ServiceChangeListener> ServiceHolder<L> {
    /// Hydrates the map with the snapshots the embedding read from the
    /// cache directory, in order; listeners see nothing and nothing is
    /// written back.
    pub fn load_entries(&mut self, loaded: Vec<(String, ServiceInfo)>)
        requires
            old(self).wf(),
        ensures
            final(self).wf(),
            final(self).services() == extended_with(old(self).services(), loaded@),
            final(self).listeners == old(self).listeners,
            final(self).cache_dir == old(self).cache_dir,
            final(self).update_when_empty == old(self).update_when_empty,
    {
        let ghost all = loaded@;
        let ghost m0 = map_of(old(self).entries@);
        let mut rest = loaded;
        while rest.len() > 0
            invariant
                self.wf(),
                rest@.len() <= all.len(),
                rest@ == all.subrange(all.len() - rest@.len(), all.len() as int),
                self.services() == extended_with(m0, all.subrange(0, all.len() - rest@.len())),
                self.listeners == old(self).listeners,
                self.cache_dir == old(self).cache_dir,
                self.update_when_empty == old(self).update_when_empty,
            decreases rest@.len(),
        {
            let ghost done = all.subrange(0, all.len() - rest@.len());
            let pair = rest.remove(0);
            proof {
                assert(pair == all[done.len() as int]);
            }
            let at = self.find_entry(&pair.0);
            self.upsert_at(at, pair.0, pair.1);
            proof {
                let done2 = all.subrange(0, all.len() - rest@.len());
                assert(done2.drop_last() =~= done);
                assert(done2.last() == all[done.len() as int]);
                assert(rest@ =~= all.subrange(all.len() - rest@.len(), all.len() as int));
            }
        }
        proof {
            assert(all.subrange(0, all.len() as int) =~= all);
        }
    }
}

/// After an update is applied with snapshot `s`, the cache answers `s`'s
/// key with `s` itself: a value with the same key and identical hosts.
pub proof fn lemma_update_then_get<L: ServiceChangeListener>(
    pre: ServiceHolder<L>,
    post: ServiceHolder<L>,
    s: ServiceInfo,
)
    requires
        post.services() == pre.services().insert(s@.key(), s),
    ensures
        post.services().dom().contains(s@.key()),
        post.services()[s@.key()] == s,
        post.services()[s@.key()]@.key() == s@.key(),
        post.services()[s@.key()]@.hosts == s@.hosts,
{
}

} // verus!
