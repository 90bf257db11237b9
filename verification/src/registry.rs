//! The registry coordinator: the one component request handlers touch.
//!
//! It composes the pool registry and the routing table and sequences the
//! multi-step operations so that no caller ever observes a route pointing at
//! missing pool entries: `register` builds both handles first (aborting with
//! no state change if either construction fails), then writes both pool
//! entries and the route entry as one logical unit; `resolve` reads the
//! route, then both pool entries. The coordinator itself holds no lock —
//! the adapter layer wraps it in one shared read-write lock and keeps every
//! critical section to pure in-memory work.

use vstd::prelude::*;
use crate::cluster::ClusterPools;
use crate::handles::{new_broker_producer, new_cache_pool, BrokerProducer, CachePool};
use crate::ids::{broker_id, cache_id, spec_broker_id, spec_cache_id};
use crate::ids::{lemma_broker_id_injective, lemma_cache_id_injective, lemma_ids_nonempty};
use crate::routing::ServiceRoutingConfig;

verus! {

/// Why a registration was aborted. Either way, no state was mutated.
#[derive(Clone, Copy, Debug, PartialEq, Eq, Structural)]
pub enum RegisterError {
    /// The broker client library rejected the broker address.
    BrokerConnectError,
    /// The cache client library rejected the cache address.
    CacheConnectError,
}

/// Why a lookup returned no handles.
#[derive(Clone, Copy, Debug, PartialEq, Eq, Structural)]
pub enum ResolveError {
    /// No route exists for the service name.
    RouteNotFound,
    /// A route exists but a pool entry it references does not: an internal
    /// consistency violation that registration's sequencing makes
    /// unreachable, handled defensively all the same.
    PoolEntryMissing,
}

/// A registration request: the service name and the two backend addresses
/// from which its connection handles are built.
pub struct ConnectRequest {
    /// The service name to register.
    pub service: String,
    /// The broker address handed to the broker client library.
    pub broker_address: String,
    /// The cache address handed to the cache client library.
    pub cache_address: String,
}

/// The mathematical state of the registry: the two pool namespaces and the
/// routing table.
#[verifier::ext_equal]
pub struct RegistryView {
    /// Broker namespace: cluster identifier to producer handle.
    pub brokers: Map<Seq<char>, BrokerProducer>,
    /// Cache namespace: cluster identifier to pool handle.
    pub caches: Map<Seq<char>, CachePool>,
    /// Routing table: service name to its identifier pair.
    pub routes: Map<Seq<char>, (Seq<char>, Seq<char>)>,
}

impl RegistryView {
    /// The state with nothing registered.
    pub open spec fn empty() -> RegistryView {
        RegistryView { brokers: Map::empty(), caches: Map::empty(), routes: Map::empty() }
    }

    /// Every route points only at pool entries that exist: the invariant
    /// registration's sequencing upholds.
    pub open spec fn wf(self) -> bool {
        forall|s: Seq<char>| #[trigger] self.routes.contains_key(s) ==> self.brokers.contains_key(
            self.routes[s].0,
        ) && self.caches.contains_key(self.routes[s].1)
    }

    /// The effect of registering `service` with freshly built handles: both
    /// pool entries are written under the derived identifiers, and the route
    /// entry is written to point at them. Entries of other keys are kept;
    /// entries under the same keys are overwritten.
    pub open spec fn register(
        self,
        service: Seq<char>,
        producer: BrokerProducer,
        pool: CachePool,
    ) -> RegistryView {
        RegistryView {
            brokers: self.brokers.insert(spec_broker_id(service), producer),
            caches: self.caches.insert(spec_cache_id(service), pool),
            routes: self.routes.insert(service, (spec_broker_id(service), spec_cache_id(service))),
        }
    }
}

/// The shared, lock-guarded container exposed to request handlers: owns the
/// pool registry and the routing table and provides the atomic register and
/// resolve operations.
pub struct RegistryCoordinator {
    clusters: ClusterPools,
    routing: ServiceRoutingConfig,
}

impl View for RegistryCoordinator {
    type V = RegistryView;

    closed spec fn view(&self) -> RegistryView {
        RegistryView {
            brokers: self.clusters.kafka_map(),
            caches: self.clusters.redis_map(),
            routes: self.routing@,
        }
    }
}

/// Builds a broker-producer handle from a broker address; fails with
/// `BrokerConnectError` exactly when the client library rejects the address,
/// and touches no registry state either way.
pub fn connect_broker(broker_address: &str) -> (r: Result<BrokerProducer, RegisterError>)
    ensures
        r matches Err(e) ==> e is BrokerConnectError,
{
    match new_broker_producer(broker_address) {
        Ok(p) => Ok(p),
        Err(_) => Err(RegisterError::BrokerConnectError),
    }
}

/// Builds a cache-pool handle from a cache address; fails with
/// `CacheConnectError` exactly when the client library rejects the address,
/// and touches no registry state either way.
pub fn connect_cache(cache_address: &str) -> (r: Result<CachePool, RegisterError>)
    ensures
        r matches Err(e) ==> e is CacheConnectError,
{
    match new_cache_pool(cache_address) {
        Ok(c) => Ok(c),
        Err(_) => Err(RegisterError::CacheConnectError),
    }
}

impl RegistryCoordinator {
    /// Creates a coordinator with nothing registered.
    pub fn new() -> (r: Self)
        ensures
            r@ == RegistryView::empty(),
            r@.wf(),
    {
        let r = RegistryCoordinator {
            clusters: ClusterPools::new(),
            routing: ServiceRoutingConfig::new(),
        };
        proof {
            assert(r@ =~= RegistryView::empty());
        }
        r
    }

    /// Writes both pool entries, then the route entry, for `service` and the
    /// two already-built handles: the in-memory half of registration, done
    /// while the caller holds exclusive access so that no concurrent
    /// resolver observes a partially registered service.
    pub fn register_handles(&mut self, service: &str, producer: BrokerProducer, pool: CachePool)
        ensures
            final(self)@ == old(self)@.register(service@, producer, pool),
            old(self)@.wf() ==> final(self)@.wf(),
    {
        let broker_key = broker_id(service);
        let cache_key = cache_id(service);
        proof {
            lemma_ids_nonempty(service@);
        }
        self.clusters.add_kafka_cluster(broker_key.as_str(), producer);
        self.clusters.add_redis_cluster(cache_key.as_str(), pool);
        self.routing.add_mapping(service, broker_key.as_str(), cache_key.as_str());
        proof {
            assert(self@ =~= old(self)@.register(service@, producer, pool));
            if old(self)@.wf() {
                lemma_register_preserves_wf(old(self)@, service@, producer, pool);
            }
        }
    }

    /// Registers `service`: builds a broker producer from `broker_address`
    /// and a cache pool from `cache_address`, and only if both constructions
    /// succeed writes the pool entries and the route entry as one logical
    /// unit. On a construction failure the error names the backend whose
    /// client library refused, and no state is mutated — a handle already
    /// built for the other backend is discarded, never stored.
    pub fn register(
        &mut self,
        service: &str,
        broker_address: &str,
        cache_address: &str,
    ) -> (r: Result<(), RegisterError>)
        ensures
            r is Ok ==> exists|p: BrokerProducer, c: CachePool|
                final(self)@ == #[trigger] old(self)@.register(service@, p, c),
            r is Ok && old(self)@.wf() ==> final(self)@.wf(),
            r matches Err(e) ==> final(self)@ == old(self)@ && (e is BrokerConnectError
                || e is CacheConnectError),
    {
        let producer = match connect_broker(broker_address) {
            Ok(p) => p,
            Err(e) => {
                return Err(e);
            },
        };
        let pool = match connect_cache(cache_address) {
            Ok(c) => c,
            Err(e) => {
                return Err(e);
            },
        };
        self.register_handles(service, producer, pool);
        Ok(())
    }

    /// Registers the service named by a connect request, with the addresses
    /// it carries.
    pub fn register_request(&mut self, req: &ConnectRequest) -> (r: Result<(), RegisterError>)
        ensures
            r is Ok ==> exists|p: BrokerProducer, c: CachePool|
                final(self)@ == #[trigger] old(self)@.register(req.service@, p, c),
            r is Ok && old(self)@.wf() ==> final(self)@.wf(),
            r matches Err(e) ==> final(self)@ == old(self)@ && (e is BrokerConnectError
                || e is CacheConnectError),
    {
        self.register(req.service.as_str(), req.broker_address.as_str(), req.cache_address.as_str())
    }

    /// Pure lookup of the route entry for `service`: the pair of cluster
    /// identifiers under which its handles are stored.
    pub fn get_mapping(&self, service: &str) -> (r: Option<(String, String)>)
        ensures
            match r {
                Some(ids) => self@.routes.contains_key(service@) && self@.routes[service@] == (
                ids.0@,
                ids.1@,
                ),
                None => !self@.routes.contains_key(service@),
            },
    {
        self.routing.get_mapping(service)
    }

    /// Looks the handles for `service` up: reads the route, then both pool
    /// entries. Returns `RouteNotFound` exactly when no route exists, and
    /// the pair of handles the route points at otherwise — except in the
    /// defensively handled, well-formedness-excluded case of a dangling
    /// route, reported as `PoolEntryMissing`.
    pub fn resolve(&self, service: &str) -> (r: Result<(&BrokerProducer, &CachePool), ResolveError>)
        ensures
            match r {
                Ok(handles) => {
                    &&& self@.routes.contains_key(service@)
                    &&& self@.brokers.contains_key(self@.routes[service@].0)
                    &&& self@.caches.contains_key(self@.routes[service@].1)
                    &&& *handles.0 == self@.brokers[self@.routes[service@].0]
                    &&& *handles.1 == self@.caches[self@.routes[service@].1]
                },
                Err(ResolveError::RouteNotFound) => !self@.routes.contains_key(service@),
                Err(ResolveError::PoolEntryMissing) => self@.routes.contains_key(service@) && (
                !self@.brokers.contains_key(self@.routes[service@].0)
                    || !self@.caches.contains_key(self@.routes[service@].1)),
            },
            self@.wf() && self@.routes.contains_key(service@) ==> r is Ok,
    {
        let mapping = match self.routing.get_mapping(service) {
            Some(ids) => ids,
            None => {
                return Err(ResolveError::RouteNotFound);
            },
        };
        let (kafka_cluster_id, redis_cluster_id) = mapping;
        let producer = match self.clusters.get_kafka_producer(kafka_cluster_id.as_str()) {
            Some(p) => p,
            None => {
                return Err(ResolveError::PoolEntryMissing);
            },
        };
        let pool = match self.clusters.get_redis_pool(redis_cluster_id.as_str()) {
            Some(c) => c,
            None => {
                return Err(ResolveError::PoolEntryMissing);
            },
        };
        Ok((producer, pool))
    }
}

/// Law: registration preserves well-formedness. In a state where every route
/// points at existing pool entries, registering any service — new or already
/// registered — leaves every route, old and new, pointing at pool entries
/// that exist.
pub proof fn lemma_register_preserves_wf(
    s: RegistryView,
    service: Seq<char>,
    producer: BrokerProducer,
    pool: CachePool,
)
    requires
        s.wf(),
    ensures
        s.register(service, producer, pool).wf(),
{
    let s2 = s.register(service, producer, pool);
    assert forall|n: Seq<char>| #[trigger] s2.routes.contains_key(n) implies s2.brokers.contains_key(
        s2.routes[n].0,
    ) && s2.caches.contains_key(s2.routes[n].1) by {
        if n != service {
            assert(s.routes.contains_key(n));
            assert(s2.routes[n] == s.routes[n]);
        }
    }
}

/// Law: a resolve issued immediately after a successful registration of
/// `service` finds the route pointing at the identifiers derived from the
/// service name, and the pool entries under them holding exactly the
/// freshly attached handles.
pub proof fn lemma_resolve_after_register(
    s: RegistryView,
    service: Seq<char>,
    producer: BrokerProducer,
    pool: CachePool,
)
    ensures
        ({
            let s2 = s.register(service, producer, pool);
            &&& s2.routes.contains_key(service)
            &&& s2.routes[service] == (spec_broker_id(service), spec_cache_id(service))
            &&& s2.brokers.contains_key(spec_broker_id(service))
            &&& s2.brokers[spec_broker_id(service)] == producer
            &&& s2.caches.contains_key(spec_cache_id(service))
            &&& s2.caches[spec_cache_id(service)] == pool
        }),
{
}

/// Law: registration creates no route for any other service name. Starting
/// from the empty state, a name no registration was issued for therefore
/// never gains a route, and resolving it returns `RouteNotFound`.
pub proof fn lemma_register_keeps_others_unregistered(
    s: RegistryView,
    registered_name: Seq<char>,
    producer: BrokerProducer,
    pool: CachePool,
    other_name: Seq<char>,
)
    requires
        registered_name != other_name,
        !s.routes.contains_key(other_name),
    ensures
        !s.register(registered_name, producer, pool).routes.contains_key(other_name),
{
}

/// Law: registrations of distinct service names never interfere. After both
/// registrations complete, in this serialisation order, each service's route
/// points at the identifiers derived from its own name and each identifier
/// holds that service's own handles.
pub proof fn lemma_distinct_registrations_independent(
    s: RegistryView,
    name_a: Seq<char>,
    producer_a: BrokerProducer,
    pool_a: CachePool,
    name_b: Seq<char>,
    producer_b: BrokerProducer,
    pool_b: CachePool,
)
    requires
        name_a != name_b,
    ensures
        ({
            let s2 = s.register(name_a, producer_a, pool_a).register(name_b, producer_b, pool_b);
            &&& s2.routes.contains_key(name_a)
            &&& s2.routes[name_a] == (spec_broker_id(name_a), spec_cache_id(name_a))
            &&& s2.brokers[spec_broker_id(name_a)] == producer_a
            &&& s2.caches[spec_cache_id(name_a)] == pool_a
            &&& s2.routes.contains_key(name_b)
            &&& s2.routes[name_b] == (spec_broker_id(name_b), spec_cache_id(name_b))
            &&& s2.brokers[spec_broker_id(name_b)] == producer_b
            &&& s2.caches[spec_cache_id(name_b)] == pool_b
        }),
{
    lemma_broker_id_injective(name_a, name_b);
    lemma_cache_id_injective(name_a, name_b);
}

/// Law: re-registering an already registered service name updates the route
/// to the newest handles. After registering `service` twice, a resolve
/// yields the handles of the second registration, and — whenever a fresh
/// handle differs from the original one — never the original handle.
pub proof fn lemma_reregistration_updates(
    s: RegistryView,
    service: Seq<char>,
    producer_1: BrokerProducer,
    pool_1: CachePool,
    producer_2: BrokerProducer,
    pool_2: CachePool,
)
    ensures
        ({
            let s2 = s.register(service, producer_1, pool_1).register(service, producer_2, pool_2);
            &&& s2.routes.contains_key(service)
            &&& s2.routes[service] == (spec_broker_id(service), spec_cache_id(service))
            &&& s2.brokers[spec_broker_id(service)] == producer_2
            &&& s2.caches[spec_cache_id(service)] == pool_2
            &&& (producer_2 != producer_1 ==> s2.brokers[s2.routes[service].0] != producer_1)
            &&& (pool_2 != pool_1 ==> s2.caches[s2.routes[service].1] != pool_1)
        }),
{
}

} // verus!
