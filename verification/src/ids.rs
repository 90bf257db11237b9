//! Derivation of cluster identifiers from service names.
//!
//! A cluster identifier is the string key under which one backend connection
//! handle is stored. It is derived deterministically from the service name
//! and a role prefix: `"broker_"` for the broker-producer namespace and
//! `"cache_"` for the cache-pool namespace. The two namespaces are held in
//! disjoint maps, so a raw-text collision between roles is harmless.

use vstd::prelude::*;
use vstd::string::StringExecFns;

verus! {

/// The broker-role cluster identifier for a service name.
pub open spec fn spec_broker_id(service: Seq<char>) -> Seq<char> {
    "broker_"@ + service
}

/// The cache-role cluster identifier for a service name.
pub open spec fn spec_cache_id(service: Seq<char>) -> Seq<char> {
    "cache_"@ + service
}

/// Builds the broker-role cluster identifier for `service`.
pub fn broker_id(service: &str) -> (r: String)
    ensures
        r@ == spec_broker_id(service@),
{
    String::from_str("broker_").concat(service)
}

/// Builds the cache-role cluster identifier for `service`.
pub fn cache_id(service: &str) -> (r: String)
    ensures
        r@ == spec_cache_id(service@),
{
    String::from_str("cache_").concat(service)
}

/// A derived cluster identifier is never empty: it starts with its role
/// prefix, which is what the pool registry asks of its keys.
pub proof fn lemma_ids_nonempty(service: Seq<char>)
    ensures
        spec_broker_id(service).len() > 0,
        spec_cache_id(service).len() > 0,
{
    reveal_strlit("broker_");
    reveal_strlit("cache_");
}

/// Appending two different suffixes to one prefix yields different strings,
/// so identifier derivation is injective in the service name within a role.
pub proof fn lemma_prefixed_injective(prefix: Seq<char>, a: Seq<char>, b: Seq<char>)
    requires
        a != b,
    ensures
        prefix + a != prefix + b,
{
    if prefix + a == prefix + b {
        assert((prefix + a).len() == prefix.len() + a.len());
        assert((prefix + b).len() == prefix.len() + b.len());
        assert(a.len() == b.len());
        assert forall|i: int| 0 <= i < a.len() implies a[i] == b[i] by {
            assert((prefix + a)[prefix.len() + i] == a[i]);
            assert((prefix + b)[prefix.len() + i] == b[i]);
        }
        assert(a =~= b);
    }
}

/// Distinct service names get distinct broker-role identifiers.
pub proof fn lemma_broker_id_injective(a: Seq<char>, b: Seq<char>)
    requires
        a != b,
    ensures
        spec_broker_id(a) != spec_broker_id(b),
{
    lemma_prefixed_injective("broker_"@, a, b);
}

/// Distinct service names get distinct cache-role identifiers.
pub proof fn lemma_cache_id_injective(a: Seq<char>, b: Seq<char>)
    requires
        a != b,
    ensures
        spec_cache_id(a) != spec_cache_id(b),
{
    lemma_prefixed_injective("cache_"@, a, b);
}

} // verus!
