use vstd::prelude::*;

use crate::error::Error;
use crate::model::{BeatAck, BeatInfo, BeatRequest, Instance};
use crate::util;

verus! {

/// The period a beat loop starts with, in milliseconds.
pub const INITIAL_BEAT_PERIOD_MS: u64 = 5000;

/// The guard subtracted from the server's interval so the next beat
/// arrives ahead of the server's timeout, in milliseconds.
pub const BEAT_PERIOD_GUARD_MS: u64 = 2000;

/// The key of a beat task: `{service_name}#{ip}#{port}`.
pub open spec fn spec_beat_key(service_name: Seq<char>, ip: Seq<char>, port: u16) -> Seq<char> {
    service_name + "#"@ + ip + "#"@ + util::dec_rep(port as nat)
}

/// What starting a new beat loop takes: the task's key and the first
/// request of its loop.
pub struct BeatTask {
    pub key: String,
    pub request: BeatRequest,
}

/// The registry of running beat tasks, one per registered instance.
///
/// The embedding owns the loops themselves; this registry decides when
/// one must start or stop, and never holds two tasks with one key.
pub struct HeartBeatReactor {
    pub task_keys: Vec<String>,
}

impl HeartBeatReactor {
    /// No key names two tasks.
    pub open spec fn wf(self) -> bool {
        forall|i: int, j: int|
            0 <= i < j < self.task_keys@.len() ==> self.task_keys@[i]@ != self.task_keys@[j]@
    }

    /// Whether a beat task exists for the key.
    pub open spec fn has_task(self, key: Seq<char>) -> bool {
        exists|i: int| 0 <= i < self.task_keys@.len() && self.task_keys@[i]@ == key
    }

    /// An empty registry.
    pub fn new() -> (r: Self)
        ensures
            r.wf(),
            r.task_keys@.len() == 0,
            forall|k: Seq<char>| !r.has_task(k),
    {
        HeartBeatReactor { task_keys: Vec::new() }
    }

    /// The key of an instance's beat task.
    pub fn build_key(instance: &Instance) -> (r: String)
        ensures
            r@ == spec_beat_key(instance.service_name@, instance.ip@, instance.port),
    {
        let mut r = instance.service_name.clone();
        r.append("#");
        r.append(instance.ip.as_str());
        r.append("#");
        let p = util::u64_to_dec(instance.port as u64);
        r.append(p.as_str());
        proof {
            assert(r@ =~= spec_beat_key(instance.service_name@, instance.ip@, instance.port));
        }
        r
    }

    /// The index of the task stored under `key`, if any.
    fn find_task(&self, key: &String) -> (r: Option<usize>)
        ensures
            match r {
                Some(i) => i < self.task_keys@.len() && self.task_keys@[i as int]@ == key@,
                None => forall|i: int|
                    0 <= i < self.task_keys@.len() ==> self.task_keys@[i]@ != key@,
            },
    {
        let mut i: usize = 0;
        while i < self.task_keys.len()
            invariant
                i <= self.task_keys@.len(),
                forall|j: int| 0 <= j < i ==> self.task_keys@[j]@ != key@,
            decreases self.task_keys@.len() - i,
        {
            if self.task_keys[i].eq(key) {
                return Some(i);
            }
            i = i + 1;
        }
        None
    }

    /// Registers a beat task for the instance: when its key is free, the
    /// key is taken and the first request of the new loop is handed
    /// back, with the token read for this iteration and the initial
    /// five-second period; when a task already runs, nothing changes.
    pub fn add_task(
        &mut self,
        namespace_id: &str,
        access_token: Option<String>,
        instance: Instance,
    ) -> (r: Option<BeatTask>)
        requires
            old(self).wf(),
        ensures
            final(self).wf(),
            ({
                let k = spec_beat_key(instance.service_name@, instance.ip@, instance.port);
                if old(self).has_task(k) {
                    &&& r is None
                    &&& final(self).task_keys == old(self).task_keys
                } else {
                    &&& r matches Some(t) && {
                        &&& t.key@ == k
                        &&& t.request.namespace_id@ == namespace_id@
                        &&& t.request.access_token == access_token
                        &&& t.request.service_name@ == instance.service_name@
                        &&& t.request.beat_info.ip@ == instance.ip@
                        &&& t.request.beat_info.port == instance.port
                        &&& t.request.beat_info.weight == instance.weight
                        &&& t.request.beat_info.service_name@ == instance.service_name@
                        &&& t.request.beat_info.cluster@ == instance.cluster_name@
                        &&& crate::model::pairs_view(t.request.beat_info.metadata@)
                            == instance@.metadata
                        &&& t.request.period_ms == INITIAL_BEAT_PERIOD_MS
                    }
                    &&& final(self).has_task(k)
                    &&& forall|k2: Seq<char>|
                        k2 != k ==> final(self).has_task(k2) == old(self).has_task(k2)
                }
            }),
    {
        let key = Self::build_key(&instance);
        match self.find_task(&key) {
            Some(_) => None,
            None => {
                let ghost s0 = self.task_keys@;
                self.task_keys.push(key.clone());
                proof {
                    let k = spec_beat_key(instance.service_name@, instance.ip@, instance.port);
                    assert(self.task_keys@[s0.len() as int]@ == k);
                    assert(self.has_task(k));
                    assert forall|k2: Seq<char>| k2 != k implies self.has_task(k2) == old(
                        self,
                    ).has_task(k2) by {
                        if old(self).has_task(k2) {
                            let i = choose|i: int| 0 <= i < s0.len() && s0[i]@ == k2;
                            assert(self.task_keys@[i]@ == k2);
                        }
                        if self.has_task(k2) {
                            let i = choose|i: int|
                                0 <= i < self.task_keys@.len() && self.task_keys@[i]@ == k2;
                            assert(i < s0.len());
                            assert(s0[i]@ == k2);
                        }
                    }
                }
                let beat_info = BeatInfo::from_instance(&instance);
                let request = BeatRequest {
                    namespace_id: namespace_id.to_owned(),
                    access_token,
                    service_name: instance.service_name,
                    beat_info,
                    period_ms: INITIAL_BEAT_PERIOD_MS,
                };
                Some(BeatTask { key, request })
            },
        }
    }

    /// Removes the instance's beat task so its loop stops; idempotent.
    /// Answers whether a task was removed.
    pub fn remove_task(&mut self, _namespace_id: &str, instance: &Instance) -> (removed: bool)
        requires
            old(self).wf(),
        ensures
            final(self).wf(),
            ({
                let k = spec_beat_key(instance.service_name@, instance.ip@, instance.port);
                &&& removed == old(self).has_task(k)
                &&& !final(self).has_task(k)
                &&& forall|k2: Seq<char>|
                    k2 != k ==> final(self).has_task(k2) == old(self).has_task(k2)
            }),
    {
        let key = Self::build_key(instance);
        match self.find_task(&key) {
            None => false,
            Some(i) => {
                let ghost s0 = self.task_keys@;
                let _ = self.task_keys.remove(i);
                proof {
                    assert(forall|j: int|
                        0 <= j < self.task_keys@.len() ==> self.task_keys@[j] == (if j < i {
                            s0[j]
                        } else {
                            s0[j + 1]
                        }));
                    assert forall|k2: Seq<char>| self.has_task(k2) implies exists|j: int|
                        0 <= j < s0.len() && j != i && s0[j]@ == k2 by {
                        let j = choose|j: int|
                            0 <= j < self.task_keys@.len() && self.task_keys@[j]@ == k2;
                        if j < i {
                            assert(s0[j]@ == k2);
                        } else {
                            assert(s0[j + 1]@ == k2);
                        }
                    }
                    assert forall|k2: Seq<char>|
                        k2 != key@ && old(self).has_task(k2) implies self.has_task(k2) by {
                        let j = choose|j: int| 0 <= j < s0.len() && s0[j]@ == k2;
                        if j < i {
                            assert(self.task_keys@[j]@ == k2);
                        } else {
                            assert(j != i);
                            assert(self.task_keys@[j - 1]@ == k2);
                        }
                    }
                }
                true
            },
        }
    }

    /// Drops every task so all loops stop.
    pub fn shutdown(&mut self)
        ensures
            final(self).wf(),
            final(self).task_keys@.len() == 0,
            forall|k: Seq<char>| !final(self).has_task(k),
    {
        self.task_keys.clear();
    }
}

/// A registry never holds two beat tasks under one key: whatever index
/// the key is found at, it is the only one.
pub proof fn lemma_one_task_per_key(r: HeartBeatReactor, k: Seq<char>, i: int, j: int)
    requires
        r.wf(),
        0 <= i < r.task_keys@.len(),
        0 <= j < r.task_keys@.len(),
        r.task_keys@[i]@ == k,
        r.task_keys@[j]@ == k,
    ensures
        i == j,
{
}

/// The next beat period after one loop iteration, in milliseconds: a
/// successful ack tunes the period to the server's interval minus the
/// two-second guard; an error keeps the previous period.
pub fn next_beat_period(current_ms: u64, outcome: Result<BeatAck, Error>) -> (r: u64)
    ensures
        match outcome {
            Ok(ack) => r == (if ack.client_beat_interval >= BEAT_PERIOD_GUARD_MS {
                ack.client_beat_interval - BEAT_PERIOD_GUARD_MS
            } else {
                0
            }),
            Err(_) => r == current_ms,
        },
{
    match outcome {
        Ok(ack) => {
            if ack.client_beat_interval >= BEAT_PERIOD_GUARD_MS {
                ack.client_beat_interval - BEAT_PERIOD_GUARD_MS
            } else {
                0
            }
        },
        Err(_) => current_ms,
    }
}

} // verus!
