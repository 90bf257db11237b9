//! The opaque connection-handle types and the trusted constructors that
//! produce them.
//!
//! The registry never looks inside a broker producer or a cache pool: both
//! are opaque capabilities built by the client libraries from an address
//! string, stored under a cluster identifier, and handed back on resolve.
//! rdkafka's `FutureProducer` and deadpool's `Pool` carry trait-bounded
//! generics the verifier cannot re-state, so each lives inside an opaque
//! wrapper struct whose `raw` field the adapter layer uses to drive the
//! actual probes. Everything in this module is trusted; nothing else in the
//! crate is.

use vstd::prelude::*;

verus! {

/// rdkafka's error type, carried opaquely out of producer construction.
#[verifier::external_type_specification]
#[verifier::external_body]
pub struct ExKafkaError(rdkafka::error::KafkaError);

/// deadpool's error type for pool construction, carried opaquely.
#[verifier::external_type_specification]
#[verifier::external_body]
#[verifier::reject_recursive_types(C)]
pub struct ExCreatePoolError<C>(deadpool::managed::CreatePoolError<C>);

/// deadpool-redis's configuration error, the parameter `ExCreatePoolError`
/// is instantiated with here.
#[verifier::external_type_specification]
#[verifier::external_body]
pub struct ExRedisConfigError(deadpool_redis::ConfigError);

/// The broker-producer handle: shareable, thread-safe, able to send a keyed
/// payload to a topic with a bounded wait. Opaque to the verifier; the raw
/// rdkafka producer is reachable through the public field.
#[verifier::external_body]
pub struct BrokerProducer {
    pub raw: rdkafka::producer::FutureProducer,
}

/// The cache-pool handle: a shareable pool from which connections are
/// checked out for get/set operations. Opaque to the verifier; the raw
/// deadpool-redis pool is reachable through the public field.
#[verifier::external_body]
pub struct CachePool {
    pub raw: deadpool_redis::Pool,
}

/// Relies on rdkafka's `ClientConfig::create`: builds a broker producer for
/// the given "bootstrap.servers" address, without touching any registry
/// state, and fails with the client library's error on a configuration it
/// rejects.
#[verifier::external_body]
pub(crate) fn new_broker_producer(broker_address: &str) -> (r: Result<
    BrokerProducer,
    rdkafka::error::KafkaError,
>) {
    match rdkafka::config::ClientConfig::new().set(
        "bootstrap.servers",
        broker_address,
    ).create::<rdkafka::producer::FutureProducer>() {
        Ok(p) => Ok(BrokerProducer { raw: p }),
        Err(e) => Err(e),
    }
}

/// Relies on deadpool-redis's `Config::from_url` and `Config::create_pool`:
/// builds a cache pool for the given URL, without touching any registry
/// state, and fails with the client library's error on a URL or pool
/// configuration it rejects.
#[verifier::external_body]
pub(crate) fn new_cache_pool(cache_address: &str) -> (r: Result<
    CachePool,
    deadpool_redis::CreatePoolError,
>) {
    match deadpool_redis::Config::from_url(cache_address).create_pool(
        Some(deadpool_redis::Runtime::Tokio1),
    ) {
        Ok(p) => Ok(CachePool { raw: p }),
        Err(e) => Err(e),
    }
}

} // verus!
