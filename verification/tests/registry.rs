use service_registry::cluster::ClusterPools;
use service_registry::ids::{broker_id, cache_id};
use service_registry::registry::{
    connect_broker, connect_cache, ConnectRequest, RegisterError, RegistryCoordinator,
    ResolveError,
};
use service_registry::routing::ServiceRoutingConfig;

#[test]
fn derives_cluster_identifiers() {
    assert_eq!(broker_id("billing"), "broker_billing".to_string());
    assert_eq!(cache_id("billing"), "cache_billing".to_string());
    assert_eq!(broker_id(""), "broker_".to_string());
    assert_eq!(cache_id(""), "cache_".to_string());
}

#[test]
fn register_billing_then_resolve() {
    let mut coordinator = RegistryCoordinator::new();
    let outcome = coordinator.register("billing", "localhost:9092", "redis://localhost:6379");
    assert!(outcome.is_ok());

    let mapping = coordinator.get_mapping("billing");
    assert_eq!(
        mapping,
        Some(("broker_billing".to_string(), "cache_billing".to_string()))
    );

    assert!(coordinator.resolve("billing").is_ok());
    assert!(matches!(
        coordinator.resolve("unknown"),
        Err(ResolveError::RouteNotFound)
    ));
}

#[test]
fn resolve_never_registered_is_not_found() {
    let coordinator = RegistryCoordinator::new();
    assert!(matches!(
        coordinator.resolve("billing"),
        Err(ResolveError::RouteNotFound)
    ));
    assert_eq!(coordinator.get_mapping("billing"), None);
}

#[test]
fn distinct_registrations_both_resolve() {
    let mut coordinator = RegistryCoordinator::new();
    assert!(coordinator
        .register("alpha", "localhost:9092", "redis://localhost:6379")
        .is_ok());
    assert!(coordinator
        .register("beta", "localhost:9093", "redis://localhost:6380")
        .is_ok());

    assert_eq!(
        coordinator.get_mapping("alpha"),
        Some(("broker_alpha".to_string(), "cache_alpha".to_string()))
    );
    assert_eq!(
        coordinator.get_mapping("beta"),
        Some(("broker_beta".to_string(), "cache_beta".to_string()))
    );
    assert!(coordinator.resolve("alpha").is_ok());
    assert!(coordinator.resolve("beta").is_ok());
}

#[test]
fn failed_cache_construction_commits_nothing() {
    let mut coordinator = RegistryCoordinator::new();
    let outcome = coordinator.register("billing", "localhost:9092", "not a url");
    assert_eq!(outcome, Err(RegisterError::CacheConnectError));

    assert!(matches!(
        coordinator.resolve("billing"),
        Err(ResolveError::RouteNotFound)
    ));
    assert_eq!(coordinator.get_mapping("billing"), None);
}

#[test]
fn reregistration_keeps_single_route() {
    let mut coordinator = RegistryCoordinator::new();
    assert!(coordinator
        .register("billing", "localhost:9092", "redis://localhost:6379")
        .is_ok());
    assert!(coordinator
        .register("billing", "localhost:9192", "redis://localhost:6380")
        .is_ok());

    assert_eq!(
        coordinator.get_mapping("billing"),
        Some(("broker_billing".to_string(), "cache_billing".to_string()))
    );
    assert!(coordinator.resolve("billing").is_ok());
}

#[test]
fn register_request_registers_named_service() {
    let mut coordinator = RegistryCoordinator::new();
    let request = ConnectRequest {
        service: "billing".to_string(),
        broker_address: "localhost:9092".to_string(),
        cache_address: "redis://localhost:6379".to_string(),
    };
    assert!(coordinator.register_request(&request).is_ok());
    assert!(coordinator.resolve("billing").is_ok());
}

#[test]
fn connect_cache_rejects_malformed_url() {
    assert!(matches!(
        connect_cache("not a url"),
        Err(RegisterError::CacheConnectError)
    ));
}

#[test]
fn routing_table_add_get_and_overwrite() {
    let mut routing = ServiceRoutingConfig::new();
    assert_eq!(routing.get_mapping("svc"), None);

    routing.add_mapping("svc", "broker_svc", "cache_svc");
    assert_eq!(
        routing.get_mapping("svc"),
        Some(("broker_svc".to_string(), "cache_svc".to_string()))
    );

    routing.add_mapping("svc", "broker_new", "cache_new");
    assert_eq!(
        routing.get_mapping("svc"),
        Some(("broker_new".to_string(), "cache_new".to_string()))
    );
    assert_eq!(routing.get_mapping("other"), None);
}

#[test]
fn cluster_pools_store_and_look_up_handles() {
    let mut pools = ClusterPools::new();
    assert!(pools.get_kafka_producer("broker_svc").is_none());
    assert!(pools.get_redis_pool("cache_svc").is_none());

    let producer = connect_broker("localhost:9092").expect("producer construction");
    let pool = connect_cache("redis://localhost:6379").expect("pool construction");
    pools.add_kafka_cluster("broker_svc", producer);
    pools.add_redis_cluster("cache_svc", pool);

    assert!(pools.get_kafka_producer("broker_svc").is_some());
    assert!(pools.get_redis_pool("cache_svc").is_some());
    assert!(pools.get_kafka_producer("cache_svc").is_none());
    assert!(pools.get_redis_pool("broker_svc").is_none());
}
