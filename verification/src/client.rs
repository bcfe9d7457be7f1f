use vstd::prelude::*;

use crate::beat_reactor::{spec_beat_key, BeatTask, HeartBeatReactor};
use crate::config::NamingConfig;
use crate::error::Error;
use crate::model::{hosts_view, Instance, InstanceView, ServiceInfo};
use crate::remote::{DeregisterRequest, QueryInstanceRequest};
use crate::security::AccessTokenHolder;
use crate::service_holder::{ServiceChangeListener, ServiceHolder};
use crate::util;

verus! {

/// Whether a host answers a selection: it must be enabled, carry
/// weight, and, when only healthy hosts are asked for, be healthy.
pub open spec fn keeps(h: InstanceView, healthy_only: bool) -> bool {
    h.enabled && h.weight > 0 && (healthy_only ==> h.healthy)
}

/// The hosts that answer a selection, in order.
pub open spec fn selected_of(hosts: Seq<InstanceView>, healthy_only: bool) -> Seq<InstanceView>
    decreases hosts.len(),
{
    if hosts.len() == 0 {
        Seq::empty()
    } else {
        selected_of(hosts.drop_last(), healthy_only) + if keeps(hosts.last(), healthy_only) {
            seq![hosts.last()]
        } else {
            Seq::empty()
        }
    }
}

/// Filters a host list down to the hosts that answer a selection.
pub fn filter_instances(hosts: &Vec<Instance>, healthy_only: bool) -> (r: Vec<Instance>)
    ensures
        hosts_view(r@) == selected_of(hosts_view(hosts@), healthy_only),
{
    let ghost hv = hosts_view(hosts@);
    let mut r: Vec<Instance> = Vec::new();
    let mut i: usize = 0;
    while i < hosts.len()
        invariant
            i <= hosts@.len(),
            hv == hosts_view(hosts@),
            hosts_view(r@) == selected_of(hv.subrange(0, i as int), healthy_only),
        decreases hosts@.len() - i,
    {
        let ghost pre = hv.subrange(0, i as int);
        let ghost cur = hv.subrange(0, i + 1 as int);
        proof {
            assert(cur.drop_last() =~= pre);
            assert(cur.last() == hv[i as int]);
        }
        let h = &hosts[i];
        let keep = h.enabled && h.weight > 0 && (if healthy_only {
            h.healthy
        } else {
            true
        });
        if keep {
            let ghost r0 = r@;
            r.push(h.clone());
            proof {
                assert(hosts_view(r@) =~= hosts_view(r0).push(hv[i as int]));
            }
        }
        proof {
            assert(hosts_view(r@) =~= selected_of(cur, healthy_only));
        }
        i = i + 1;
    }
    proof {
        assert(hv.subrange(0, hosts@.len() as int) =~= hv);
    }
    r
}

/// The facade that composes the subsystems: the configuration, the
/// service cache, the token holder and the beat registry.
///
/// The embedding owns the transport; it performs the wire calls this
/// facade asks for and feeds their outcomes back in.
pub struct NamingClient<L: ServiceChangeListener> {
    pub config: NamingConfig,
    pub service_holder: ServiceHolder<L>,
    pub token_holder: AccessTokenHolder,
    pub beat_reactor: HeartBeatReactor,
}

impl<L: ServiceChangeListener> NamingClient<L> {
    pub open spec fn wf(self) -> bool {
        self.service_holder.wf() && self.beat_reactor.wf()
    }

    /// A client over the given configuration, with an empty cache, no
    /// beat task and the invalid default token; the embedding hydrates
    /// the cache, logs in and starts its loops around it.
    pub fn new(config: NamingConfig) -> (r: Self)
        ensures
            r.wf(),
            r.config == config,
            r.service_holder.update_when_empty == config.update_when_empty,
            r.service_holder.cache_dir@ == config.cache_dir@,
            r.service_holder.services() == Map::<Seq<char>, ServiceInfo>::empty(),
            r.beat_reactor.task_keys@.len() == 0,
            !r.token_holder.token.spec_valid(),
            r.token_holder.user_name == config.user_name,
            r.token_holder.password == config.password,
    {
        let service_holder = ServiceHolder::new(config.cache_dir.as_str(), config.update_when_empty);
        let token_holder = AccessTokenHolder::new(config.user_name.clone(), config.password.clone());
        let beat_reactor = HeartBeatReactor::new();
        NamingClient { config, service_holder, token_holder, beat_reactor }
    }

    pub fn get_group(&self) -> (r: &str)
        ensures
            r@ == self.config.group@,
    {
        self.config.group.as_str()
    }

    pub fn get_cluster(&self) -> (r: &str)
        ensures
            r@ == self.config.cluster@,
    {
        self.config.cluster.as_str()
    }

    /// Finishes a registration with the POST's outcome. The POST
    /// precedes the beat task: only a successful outcome creates one,
    /// and a failed POST changes nothing and surfaces its error.
    pub fn register_instance(&mut self, instance: Instance, post_outcome: Result<(), Error>) -> (r:
        Result<Option<BeatTask>, Error>)
        requires
            old(self).wf(),
        ensures
            final(self).wf(),
            final(self).config == old(self).config,
            final(self).service_holder == old(self).service_holder,
            final(self).token_holder == old(self).token_holder,
            ({
                let k = spec_beat_key(instance.service_name@, instance.ip@, instance.port);
                match post_outcome {
                    Err(e) => r == Err::<Option<BeatTask>, Error>(e) && final(self).beat_reactor
                        == old(self).beat_reactor,
                    Ok(_) => {
                        &&& r is Ok
                        &&& final(self).beat_reactor.has_task(k)
                        &&& (old(self).beat_reactor.has_task(k) <==> (r matches Ok(t) && t is None))
                        &&& forall|k2: Seq<char>|
                            k2 != k ==> final(self).beat_reactor.has_task(k2) == old(
                                self,
                            ).beat_reactor.has_task(k2)
                    },
                }
            }),
    {
        if let Err(e) = post_outcome {
            return Err(e);
        }
        let token = self.token_holder.get_token();
        let task = self.beat_reactor.add_task(self.config.namespace_id.as_str(), token, instance);
        Ok(task)
    }

    /// Starts a deregistration: the beat task is removed first, so the
    /// loop stops before the wire call, and the DELETE request to send
    /// is handed back.
    pub fn deregister_instance(&mut self, instance: Instance) -> (r: DeregisterRequest)
        requires
            old(self).wf(),
        ensures
            final(self).wf(),
            final(self).config == old(self).config,
            final(self).service_holder == old(self).service_holder,
            final(self).token_holder == old(self).token_holder,
            !final(self).beat_reactor.has_task(
                spec_beat_key(instance.service_name@, instance.ip@, instance.port),
            ),
            forall|k2: Seq<char>|
                k2 != spec_beat_key(instance.service_name@, instance.ip@, instance.port)
                    ==> final(self).beat_reactor.has_task(k2) == old(self).beat_reactor.has_task(
                    k2,
                ),
            r.namespace_id@ == old(self).config.namespace_id@,
            r.service_name@ == instance.service_name@,
            r.cluster_name@ == instance.cluster_name@,
            r.ip@ == instance.ip@,
            r.port == instance.port,
            r.ephemeral == instance.ephemeral,
    {
        let _ = self.beat_reactor.remove_task(self.config.namespace_id.as_str(), &instance);
        let token = self.token_holder.get_token();
        DeregisterRequest::from_instance(self.config.namespace_id.clone(), token, instance)
    }

    /// Answers a selection from the cache alone: the filtered hosts when
    /// the cache holds the composed key, nothing when the remote must be
    /// queried first.
    pub fn select_instances_cached(
        &self,
        service_name: &str,
        group_name: &str,
        clusters: &Vec<String>,
        healthy: bool,
    ) -> (r: Option<Vec<Instance>>)
        requires
            self.wf(),
        ensures
            ({
                let grouped = util::spec_grouped(group_name@, service_name@);
                let k = ServiceInfo::spec_key(
                    grouped,
                    util::csv_rep(clusters@.map_values(|c: String| c@)),
                );
                match r {
                    Some(v) => self.service_holder.services().dom().contains(k) && hosts_view(v@)
                        == selected_of(self.service_holder.services()[k]@.hosts, healthy),
                    None => !self.service_holder.services().dom().contains(k),
                }
            }),
    {
        let grouped = util::grouped_service_name(service_name, group_name);
        match self.service_holder.get_service_info(grouped.as_str(), clusters) {
            Some(info) => Some(filter_instances(&info.hosts, healthy)),
            None => None,
        }
    }

    /// Continues a selection after a cache miss: feeds the queried
    /// snapshot into the cache (listeners fire, and the answered key, if
    /// any, is to be persisted), then filters the snapshot's own hosts.
    pub fn select_instances_after_query(&mut self, queried: ServiceInfo, healthy: bool) -> (r: (
        Option<String>,
        Vec<Instance>,
    ))
        requires
            old(self).wf(),
        ensures
            final(self).wf(),
            final(self).config == old(self).config,
            final(self).token_holder == old(self).token_holder,
            final(self).beat_reactor == old(self).beat_reactor,
            hosts_view(r.1@) == selected_of(queried@.hosts, healthy),
            ({
                let k = queried@.key();
                let had = old(self).service_holder.services().dom().contains(k);
                let suppressed = !old(self).service_holder.update_when_empty && queried@.hosts.len()
                    == 0 && had && old(self).service_holder.services()[k]@.hosts.len() > 0;
                if suppressed {
                    r.0 is None && final(self).service_holder.services() == old(
                        self,
                    ).service_holder.services()
                } else {
                    (r.0 matches Some(s) && s@ == k) && final(self).service_holder.services()
                        == old(self).service_holder.services().insert(k, queried)
                }
            }),
    {
        let filtered = filter_instances(&queried.hosts, healthy);
        let applied = self.service_holder.update_service_info(queried);
        (applied, filtered)
    }

    /// Registers the listener under the subscription's key and hands
    /// back the query the embedding's nine-second polling loop repeats.
    pub fn subscribe(
        &mut self,
        service_name: &str,
        group_name: &str,
        clusters: &Vec<String>,
        listener: L,
        udp_port: u16,
        client_ip: String,
    ) -> (r: QueryInstanceRequest)
        requires
            old(self).wf(),
        ensures
            final(self).wf(),
            final(self).config == old(self).config,
            final(self).token_holder == old(self).token_holder,
            final(self).beat_reactor == old(self).beat_reactor,
            final(self).service_holder.entries == old(self).service_holder.entries,
            ({
                let grouped = util::spec_grouped(group_name@, service_name@);
                let csv = util::csv_rep(clusters@.map_values(|c: String| c@));
                let k = ServiceInfo::spec_key(grouped, csv);
                &&& final(self).service_holder.listener_lines().dom() == old(
                    self,
                ).service_holder.listener_lines().dom().insert(k)
                &&& final(self).service_holder.listener_lines()[k]@ == (if old(
                    self,
                ).service_holder.listener_lines().dom().contains(k) {
                    old(self).service_holder.listener_lines()[k]@
                } else {
                    Seq::<L>::empty()
                }).push(listener)
                &&& r.namespace_id@ == old(self).config.namespace_id@
                &&& r.service_name@ == grouped
                &&& r.group_name@ == group_name@
                &&& r.clusters@ == csv
                &&& r.udp_port == udp_port
                &&& r.client_ip == client_ip
                &&& r.healthy_only == false
            }),
    {
        let grouped = util::grouped_service_name(service_name, group_name);
        let joined = util::join_csv(clusters);
        let token = self.token_holder.get_token();
        let request = QueryInstanceRequest::new(
            self.config.namespace_id.as_str(),
            token,
            grouped.clone(),
            group_name,
            clusters,
            udp_port,
            client_ip,
            false,
        );
        self.service_holder.register_subscribe(grouped, joined, listener);
        request
    }

    /// Unsubscribing is a no-op at the wire level; the polling loop is
    /// torn down at shutdown.
    pub fn unsubscribe(
        &self,
        _service_name: &str,
        _group_name: &str,
        _clusters: &Vec<String>,
    ) -> (r: Result<(), Error>)
        ensures
            r is Ok,
    {
        Ok(())
    }

    /// Drops every beat task; the embedding cancels its receiver, its
    /// loops and the token refresh around this.
    pub fn shutdown(&mut self)
        requires
            old(self).wf(),
        ensures
            final(self).wf(),
            final(self).config == old(self).config,
            final(self).service_holder == old(self).service_holder,
            final(self).token_holder == old(self).token_holder,
            final(self).beat_reactor.task_keys@.len() == 0,
            forall|k: Seq<char>| !final(self).beat_reactor.has_task(k),
    {
        self.beat_reactor.shutdown();
    }
}

} // verus!
