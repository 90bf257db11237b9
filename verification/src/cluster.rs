//! The connection-pool registry: two independent mappings from cluster
//! identifiers to live backend handles, one for the broker namespace and one
//! for the cache namespace.
//!
//! Pure in-memory store: inserting overwrites silently (the shadowed handle
//! stays owned until process exit), lookups never block on I/O, and no
//! locking happens here — serialising access is the coordinator's job.

use vstd::prelude::*;
use crate::handles::{BrokerProducer, CachePool};
use crate::store::KeyedStore;

verus! {

/// Holds the broker-producer handles and the cache-pool handles, each under
/// its own cluster-identifier namespace.
pub struct ClusterPools {
    kafka: KeyedStore<BrokerProducer>,
    redis: KeyedStore<CachePool>,
}

impl ClusterPools {
    /// The broker namespace: cluster identifier to producer handle.
    pub closed spec fn kafka_map(self) -> Map<Seq<char>, BrokerProducer> {
        self.kafka@
    }

    /// The cache namespace: cluster identifier to pool handle.
    pub closed spec fn redis_map(self) -> Map<Seq<char>, CachePool> {
        self.redis@
    }

    /// Creates a registry with both namespaces empty.
    pub fn new() -> (r: Self)
        ensures
            r.kafka_map() == Map::<Seq<char>, BrokerProducer>::empty(),
            r.redis_map() == Map::<Seq<char>, CachePool>::empty(),
    {
        ClusterPools { kafka: KeyedStore::new(), redis: KeyedStore::new() }
    }

    /// Inserts or overwrites the broker handle stored under `key`; the cache
    /// namespace is untouched. Keys carry no format constraint beyond being
    /// non-empty.
    pub fn add_kafka_cluster(&mut self, key: &str, producer: BrokerProducer)
        requires
            key@.len() > 0,
        ensures
            final(self).kafka_map() == old(self).kafka_map().insert(key@, producer),
            final(self).redis_map() == old(self).redis_map(),
    {
        self.kafka.insert(key, producer);
    }

    /// Inserts or overwrites the cache handle stored under `key`; the broker
    /// namespace is untouched. Keys carry no format constraint beyond being
    /// non-empty.
    pub fn add_redis_cluster(&mut self, key: &str, pool: CachePool)
        requires
            key@.len() > 0,
        ensures
            final(self).redis_map() == old(self).redis_map().insert(key@, pool),
            final(self).kafka_map() == old(self).kafka_map(),
    {
        self.redis.insert(key, pool);
    }

    /// Pure lookup in the broker namespace.
    pub fn get_kafka_producer(&self, key: &str) -> (r: Option<&BrokerProducer>)
        ensures
            match r {
                Some(p) => self.kafka_map().contains_key(key@) && *p == self.kafka_map()[key@],
                None => !self.kafka_map().contains_key(key@),
            },
    {
        self.kafka.get(key)
    }

    /// Pure lookup in the cache namespace.
    pub fn get_redis_pool(&self, key: &str) -> (r: Option<&CachePool>)
        ensures
            match r {
                Some(p) => self.redis_map().contains_key(key@) && *p == self.redis_map()[key@],
                None => !self.redis_map().contains_key(key@),
            },
    {
        self.redis.get(key)
    }
}

} // verus!
