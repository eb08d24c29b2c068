//! Startup validation and the fleet of Sentinels. Configuration arrives
//! already shaped into plain values; this module checks it — every notifier
//! kind known, every referenced notifier name bound, every resource kind
//! known and its checker configuration valid — builds one Sentinel per
//! resource, and models the runner that drives all Sentinels: one resource's
//! fatal fault stops only that resource's slot.

use vstd::prelude::*;

use crate::http::{
    all_codes_valid, codes_match, is_first_bad_code, raw_codes, url_is_valid, HttpSentinel,
    HttpSentinelConfig, HttpSentinelError,
};
use crate::sentinel::{
    event_fits, poll_event_spec, Sentinel, SentinelEvent, SentinelImpl, SentinelStep,
};
use crate::smtp::{sender_of, SmtpConfig, SmtpSender};

verus! {

/// The per-resource checker configuration, by checker kind.
#[derive(Debug)]
pub enum CheckerConfig {
    Http(HttpSentinelConfig),
}

/// One resource's entry in the configuration.
#[derive(Debug)]
pub struct ResourceConfig {
    pub interval: u64,
    pub name: String,
    pub type_: String,
    pub notifiers: Vec<String>,
    pub config: CheckerConfig,
}

/// The per-notifier backend configuration, by backend kind.
#[derive(Debug)]
pub enum BackendConfig {
    Smtp(SmtpConfig),
}

/// One notification backend's entry in the configuration.
#[derive(Debug)]
pub struct NotifierConfig {
    pub name: String,
    pub type_: String,
    pub config: BackendConfig,
}

/// The whole validated-shape configuration: the resources to watch and the
/// notification backends they may reference.
#[derive(Debug)]
pub struct GlobalConfig {
    pub resources: Vec<ResourceConfig>,
    pub notifiers: Vec<NotifierConfig>,
}

/// A startup failure: every variant names the offending kind or name, so the
/// operator can fix the configuration. Nothing starts polling after one.
#[derive(Debug)]
pub enum SentinelAppError {
    UnknownNotifierType { ty: String },
    UnknownNotifierName { name: String },
    UnknownSentinelType { ty: String },
    Sentinel(HttpSentinelError),
}

/// The constructed notification backends, keyed by their configured names.
#[derive(Debug)]
pub struct NotifierRegistry {
    pub entries: Vec<(String, SmtpSender)>,
}

/// Some registry entry bears this name.
pub open spec fn registry_has(entries: Seq<(String, SmtpSender)>, name: Seq<char>) -> bool {
    exists|i: int| 0 <= i < entries.len() && (#[trigger] entries[i]).0@ == name
}

impl NotifierRegistry {
    pub fn contains_name(&self, name: &String) -> (r: bool)
        ensures
            r == registry_has(self.entries@, name@),
    {
        let mut i: usize = 0;
        while i < self.entries.len()
            invariant
                i <= self.entries.len(),
                forall|j: int| 0 <= j < i as int ==> (#[trigger] self.entries@[j]).0@ != name@,
            decreases self.entries.len() - i,
        {
            if self.entries[i].0.eq(name) {
                return true;
            }
            i = i + 1;
        }
        false
    }
}

/// One slot of the fleet: a Sentinel and whether it has stopped on a fatal
/// fault. A stopped slot is never dispatched again.
pub struct FleetSlot<S: SentinelImpl> {
    pub sentinel: Sentinel<S>,
    pub stopped: bool,
}

/// All configured Sentinels, driven to completion or forever. Each slot is
/// dispatched independently: an event for one slot touches no other, so a
/// resource whose checker keeps faulting cannot keep a sibling from ticking.
pub struct Fleet<S: SentinelImpl> {
    pub slots: Vec<FleetSlot<S>>,
}

impl<S: SentinelImpl> Fleet<S> {
    /// Hands one observed event to one running slot. Every other slot is
    /// left exactly as it was — a slot's fatal stop isolates that resource
    /// and nothing else — and the target slot steps by the Sentinel's
    /// transition relation, recording whether it stopped.
    pub fn dispatch(&mut self, i: usize, ev: SentinelEvent<S::ResourceOk, S::ResourceErr>) -> (step:
        SentinelStep)
        requires
            i < old(self).slots@.len(),
            !old(self).slots@[i as int].stopped,
            event_fits(old(self).slots@[i as int].sentinel, ev),
        ensures
            final(self).slots@.len() == old(self).slots@.len(),
            forall|j: int|
                0 <= j < old(self).slots@.len() && j != i as int ==> final(self).slots@[j] == old(
                    self,
                ).slots@[j],
            poll_event_spec(
                old(self).slots@[i as int].sentinel,
                ev,
                final(self).slots@[i as int].sentinel,
                step,
            ),
            final(self).slots@[i as int].stopped == (step is Stopped),
    {
        let mut slot = self.slots.remove(i);
        let step = slot.sentinel.poll_event(ev);
        slot.stopped = match &step {
            SentinelStep::Stopped(_) => true,
            _ => false,
        };
        self.slots.insert(i, slot);
        proof {
            assert forall|j: int|
                0 <= j < old(self).slots@.len() && j != i as int implies self.slots@[j] == old(
                self,
            ).slots@[j] by {
                if j < i as int {
                } else {
                }
            }
        }
        step
    }
}

/// Every notifier entry is of a known backend kind.
pub open spec fn notifier_type_ok(c: NotifierConfig) -> bool {
    c.type_@ == "smtp"@
}

pub open spec fn all_notifier_types_ok(cs: Seq<NotifierConfig>) -> bool {
    forall|i: int| 0 <= i < cs.len() ==> notifier_type_ok(#[trigger] cs[i])
}

/// `ty` is the kind of the first notifier entry of unknown kind.
pub open spec fn is_first_bad_notifier_type(cs: Seq<NotifierConfig>, ty: Seq<char>) -> bool {
    exists|i: int|
        {
            &&& 0 <= i < cs.len()
            &&& !notifier_type_ok(#[trigger] cs[i])
            &&& forall|j: int| 0 <= j < i ==> notifier_type_ok(#[trigger] cs[j])
            &&& ty == cs[i].type_@
        }
}

/// Some notifier entry is configured under this name.
pub open spec fn config_has_notifier(ns: Seq<NotifierConfig>, name: Seq<char>) -> bool {
    exists|i: int| 0 <= i < ns.len() && (#[trigger] ns[i]).name@ == name
}

/// Every notifier name a resource references is configured.
pub open spec fn resource_names_resolve(rc: ResourceConfig, ns: Seq<NotifierConfig>) -> bool {
    forall|i: int|
        0 <= i < rc.notifiers@.len() ==> config_has_notifier(ns, (#[trigger] rc.notifiers@[i])@)
}

pub open spec fn all_names_resolve(rs: Seq<ResourceConfig>, ns: Seq<NotifierConfig>) -> bool {
    forall|i: int| 0 <= i < rs.len() ==> resource_names_resolve(#[trigger] rs[i], ns)
}

/// `name` is the first unresolved notifier reference, walking resources in
/// order and each resource's references in order.
pub open spec fn is_first_unresolved_name(
    rs: Seq<ResourceConfig>,
    ns: Seq<NotifierConfig>,
    name: Seq<char>,
) -> bool {
    exists|i: int, k: int|
        {
            &&& 0 <= i < rs.len()
            &&& 0 <= k < rs[i].notifiers@.len()
            &&& forall|j: int| 0 <= j < i ==> resource_names_resolve(#[trigger] rs[j], ns)
            &&& forall|l: int|
                0 <= l < k ==> config_has_notifier(ns, (#[trigger] rs[i].notifiers@[l])@)
            &&& !config_has_notifier(ns, rs[i].notifiers@[k]@)
            &&& name == rs[i].notifiers@[k]@
        }
}

/// A resource entry passes startup validation: its kind is known, its URL
/// parses and its configured codes are valid.
pub open spec fn resource_valid(rc: ResourceConfig) -> bool {
    &&& rc.type_@ == "http"@
    &&& rc.config matches CheckerConfig::Http(hc) && url_is_valid(hc.url@) && all_codes_valid(
        raw_codes(hc.codes),
    )
}

pub open spec fn all_resources_valid(rs: Seq<ResourceConfig>) -> bool {
    forall|i: int| 0 <= i < rs.len() ==> resource_valid(#[trigger] rs[i])
}

/// The startup error an invalid resource entry causes.
pub open spec fn err_for_resource(rc: ResourceConfig, e: SentinelAppError) -> bool {
    if rc.type_@ != "http"@ {
        e matches SentinelAppError::UnknownSentinelType { ty } && ty@ == rc.type_@
    } else {
        rc.config matches CheckerConfig::Http(hc) && (e matches SentinelAppError::Sentinel(he)
            && (if !url_is_valid(hc.url@) {
            he matches HttpSentinelError::UrlParseError { url } && url == hc.url
        } else {
            he matches HttpSentinelError::InvalidStatusCode { code } && is_first_bad_code(
                raw_codes(hc.codes),
                code,
            )
        }))
    }
}

/// `e` is the error of the first invalid resource entry.
pub open spec fn is_first_invalid_resource_err(rs: Seq<ResourceConfig>, e: SentinelAppError) -> bool {
    exists|i: int|
        {
            &&& 0 <= i < rs.len()
            &&& !resource_valid(#[trigger] rs[i])
            &&& forall|j: int| 0 <= j < i ==> resource_valid(#[trigger] rs[j])
            &&& err_for_resource(rs[i], e)
        }
}

/// The registry holds exactly the configured backends, in configuration
/// order, each built from its entry.
pub open spec fn registry_matches(reg: NotifierRegistry, ns: Seq<NotifierConfig>) -> bool {
    &&& reg.entries@.len() == ns.len()
    &&& forall|i: int|
        0 <= i < ns.len() ==> {
            &&& (#[trigger] reg.entries@[i]).0 == ns[i].name
            &&& ns[i].config matches BackendConfig::Smtp(sc) && reg.entries@[i].1 == sender_of(sc)
        }
}

/// A built slot carries a fresh Sentinel for its resource entry.
pub open spec fn slot_matches(slot: FleetSlot<HttpSentinel>, rc: ResourceConfig) -> bool {
    &&& !slot.stopped
    &&& rc.config matches CheckerConfig::Http(hc) && {
        &&& slot.sentinel.phase is Checking
        &&& slot.sentinel.active_error is None
        &&& slot.sentinel.interval == rc.interval
        &&& slot.sentinel.notifiers == rc.notifiers
        &&& slot.sentinel.resource_name == rc.name
        &&& slot.sentinel.sentinel_impl.url == hc.url
        &&& codes_match(hc.codes, slot.sentinel.sentinel_impl.codes)
    }
}

fn string_matches(a: &String, b: &str) -> (r: bool)
    ensures
        r == (a@ == b@),
{
    let bs = String::from_str(b);
    a.eq(&bs)
}

/// The application: the constructed backends and the fleet of Sentinels,
/// ready to be driven.
pub struct SentinelApp {
    pub notifiers: NotifierRegistry,
    pub fleet: Fleet<HttpSentinel>,
}

impl SentinelApp {
    /// Builds every configured backend, rejecting the first entry of unknown
    /// kind.
    pub fn notifiers_from_configs(configs: Vec<NotifierConfig>) -> (r: Result<
        NotifierRegistry,
        SentinelAppError,
    >)
        ensures
            r is Ok <==> all_notifier_types_ok(configs@),
            r matches Ok(reg) ==> registry_matches(reg, configs@),
            r matches Err(e) ==> (e matches SentinelAppError::UnknownNotifierType { ty }
                && is_first_bad_notifier_type(configs@, ty@)),
    {
        let ghost orig = configs@;
        let mut rest = configs;
        let mut entries: Vec<(String, SmtpSender)> = Vec::new();
        let ghost mut i: int = 0;
        while rest.len() > 0
            invariant
                orig == configs@,
                0 <= i,
                orig.len() == i + rest@.len(),
                rest@ =~= orig.subrange(i, orig.len() as int),
                entries@.len() == i,
                forall|j: int|
                    0 <= j < i ==> {
                        &&& notifier_type_ok(#[trigger] orig[j])
                        &&& entries@[j].0 == orig[j].name
                        &&& orig[j].config matches BackendConfig::Smtp(sc) && entries@[j].1
                            == sender_of(sc)
                    },
            decreases rest@.len(),
        {
            let c = rest.remove(0);
            proof {
                assert(c == orig[i]);
            }
            if !string_matches(&c.type_, "smtp") {
                proof {
                    assert(!notifier_type_ok(orig[i]));
                    assert(!all_notifier_types_ok(orig));
                    assert(is_first_bad_notifier_type(orig, orig[i].type_@));
                }
                return Err(SentinelAppError::UnknownNotifierType { ty: c.type_ });
            }
            let NotifierConfig { name, type_: _, config } = c;
            match config {
                BackendConfig::Smtp(sc) => {
                    let sender = SmtpSender::from_config(sc);
                    entries.push((name, sender));
                },
            }
            proof {
                i = i + 1;
            }
        }
        Ok(NotifierRegistry { entries })
    }

    /// Validates the whole configuration and builds the application, failing
    /// fast — before any polling starts — on the first unknown backend kind,
    /// then the first unresolved notifier reference, then the first invalid
    /// resource entry, in that order.
    pub fn new(config: GlobalConfig) -> (r: Result<SentinelApp, SentinelAppError>)
        ensures
            r is Ok <==> all_notifier_types_ok(config.notifiers@) && all_names_resolve(
                config.resources@,
                config.notifiers@,
            ) && all_resources_valid(config.resources@),
            r matches Ok(app) ==> {
                &&& registry_matches(app.notifiers, config.notifiers@)
                &&& app.fleet.slots@.len() == config.resources@.len()
                &&& forall|i: int|
                    0 <= i < config.resources@.len() ==> slot_matches(
                        #[trigger] app.fleet.slots@[i],
                        config.resources@[i],
                    )
            },
            r matches Err(e) ==> (if !all_notifier_types_ok(config.notifiers@) {
                e matches SentinelAppError::UnknownNotifierType { ty }
                    && is_first_bad_notifier_type(config.notifiers@, ty@)
            } else if !all_names_resolve(config.resources@, config.notifiers@) {
                e matches SentinelAppError::UnknownNotifierName { name }
                    && is_first_unresolved_name(config.resources@, config.notifiers@, name@)
            } else {
                is_first_invalid_resource_err(config.resources@, e)
            }),
    {
        let GlobalConfig { resources, notifiers } = config;
        let registry = match Self::notifiers_from_configs(notifiers) {
            Ok(reg) => reg,
            Err(e) => {
                return Err(e);
            },
        };
        let ghost ns = config.notifiers@;

        // Resolve every resource's notifier references against the registry
        // before any resource's own configuration is examined.
        let mut ri: usize = 0;
        while ri < resources.len()
            invariant
                resources == config.resources,
                ns == config.notifiers@,
                all_notifier_types_ok(ns),
                ri <= resources.len(),
                registry_matches(registry, ns),
                forall|j: int|
                    0 <= j < ri as int ==> resource_names_resolve(#[trigger] resources@[j], ns),
            decreases resources.len() - ri,
        {
            let mut ni: usize = 0;
            while ni < resources[ri].notifiers.len()
                invariant
                    resources == config.resources,
                    ns == config.notifiers@,
                    all_notifier_types_ok(ns),
                    ri < resources.len(),
                    ni as int <= resources@[ri as int].notifiers@.len(),
                    registry_matches(registry, ns),
                    forall|j: int|
                        0 <= j < ri as int ==> resource_names_resolve(#[trigger] resources@[j], ns),
                    forall|l: int|
                        0 <= l < ni as int ==> config_has_notifier(
                            ns,
                            (#[trigger] resources@[ri as int].notifiers@[l])@,
                        ),
                decreases resources@[ri as int].notifiers@.len() - ni as int,
            {
                let name = &resources[ri].notifiers[ni];
                let found = registry.contains_name(name);
                proof {
                    if registry_has(registry.entries@, name@) {
                        let w = choose|w: int|
                            0 <= w < registry.entries@.len() && (#[trigger] registry.entries@[w]).0@
                                == name@;
                        assert(ns[w].name@ == name@);
                        assert(config_has_notifier(ns, name@));
                    }
                    if config_has_notifier(ns, name@) {
                        let w = choose|w: int|
                            0 <= w < ns.len() && (#[trigger] ns[w]).name@ == name@;
                        assert(registry.entries@[w].0@ == name@);
                        assert(registry_has(registry.entries@, name@));
                    }
                }
                if !found {
                    proof {
                        assert(!config_has_notifier(ns, name@));
                        assert({
                            let i = ri as int;
                            let k = ni as int;
                            &&& 0 <= i < resources@.len()
                            &&& 0 <= k < resources@[i].notifiers@.len()
                            &&& forall|j: int|
                                0 <= j < i ==> resource_names_resolve(
                                    #[trigger] resources@[j],
                                    ns,
                                )
                            &&& forall|l: int|
                                0 <= l < k ==> config_has_notifier(
                                    ns,
                                    (#[trigger] resources@[i].notifiers@[l])@,
                                )
                            &&& !config_has_notifier(ns, resources@[i].notifiers@[k]@)
                        });
                        assert(is_first_unresolved_name(resources@, ns, name@));
                        assert(!resource_names_resolve(resources@[ri as int], ns));
                        assert(!all_names_resolve(resources@, ns));
                    }
                    return Err(SentinelAppError::UnknownNotifierName { name: name.clone() });
                }
                ni = ni + 1;
            }
            ri = ri + 1;
        }

        // Dispatch each resource to its checker kind and build its Sentinel.
        let ghost rs = config.resources@;
        let mut rest = resources;
        let mut slots: Vec<FleetSlot<HttpSentinel>> = Vec::new();
        let ghost mut i: int = 0;
        while rest.len() > 0
            invariant
                rs == config.resources@,
                ns == config.notifiers@,
                all_notifier_types_ok(ns),
                0 <= i,
                rs.len() == i + rest@.len(),
                rest@ =~= rs.subrange(i, rs.len() as int),
                slots@.len() == i,
                all_names_resolve(rs, ns),
                registry_matches(registry, ns),
                forall|j: int|
                    0 <= j < i ==> resource_valid(#[trigger] rs[j]) && slot_matches(
                        slots@[j],
                        rs[j],
                    ),
            decreases rest@.len(),
        {
            let rc = rest.remove(0);
            proof {
                assert(rc == rs[i]);
            }
            if !string_matches(&rc.type_, "http") {
                proof {
                    assert(!resource_valid(rs[i]));
                    assert(!all_resources_valid(rs));
                }
                let err = SentinelAppError::UnknownSentinelType { ty: rc.type_ };
                proof {
                    assert(err_for_resource(rs[i], err));
                    assert(is_first_invalid_resource_err(rs, err));
                }
                return Err(err);
            }
            let ResourceConfig { interval, name, type_: _, notifiers: bound, config: checker } =
                rc;
            match checker {
                CheckerConfig::Http(hc) => {
                    match HttpSentinel::create_sentinel(hc, interval, bound, name) {
                        Ok(s) => {
                            slots.push(FleetSlot { sentinel: s, stopped: false });
                        },
                        Err(e) => {
                            proof {
                                assert(!resource_valid(rs[i]));
                                assert(!all_resources_valid(rs));
                            }
                            let err = SentinelAppError::Sentinel(e);
                            proof {
                                assert(err_for_resource(rs[i], err));
                                assert(is_first_invalid_resource_err(rs, err));
                            }
                            return Err(err);
                        },
                    }
                },
            }
            proof {
                i = i + 1;
            }
        }
        Ok(SentinelApp { notifiers: registry, fleet: Fleet { slots } })
    }
}

} // verus!
