//! The routing table: a mapping from service name to the pair of cluster
//! identifiers under which the service's broker and cache handles are
//! stored.
//!
//! Pure in-memory store, entries kept append-only with the latest mapping
//! for a name shadowing earlier ones. It does not validate that the
//! identifiers exist in the pool registry — upholding that invariant by
//! sequencing is the coordinator's job.

use vstd::prelude::*;
use vstd::string::StringExecFns;
use crate::store::{assoc_map, lemma_assoc_map_absent, lemma_assoc_map_found};

verus! {

/// Maps each service name to its (broker cluster identifier, cache cluster
/// identifier) pair.
pub struct ServiceRoutingConfig {
    routes: Vec<(String, (String, String))>,
}

impl ServiceRoutingConfig {
    /// The stored routes as view-level entries, oldest first.
    pub closed spec fn entry_seq(self) -> Seq<(Seq<char>, (Seq<char>, Seq<char>))> {
        self.routes@.map_values(|p: (String, (String, String))| (p.0@, (p.1.0@, p.1.1@)))
    }

    /// Creates an empty routing table.
    pub fn new() -> (r: Self)
        ensures
            r@ == Map::<Seq<char>, (Seq<char>, Seq<char>)>::empty(),
    {
        let r = ServiceRoutingConfig { routes: Vec::new() };
        proof {
            assert(r.entry_seq() =~= Seq::<(Seq<char>, (Seq<char>, Seq<char>))>::empty());
        }
        r
    }

    /// Inserts or overwrites the route for `service`.
    pub fn add_mapping(&mut self, service: &str, kafka: &str, redis: &str)
        ensures
            final(self)@ == old(self)@.insert(service@, (kafka@, redis@)),
    {
        let name: String = String::from_str(service);
        let kafka_id: String = String::from_str(kafka);
        let redis_id: String = String::from_str(redis);
        self.routes.push((name, (kafka_id, redis_id)));
        proof {
            assert(self.entry_seq() =~= old(self).entry_seq().push(
                (service@, (kafka@, redis@)),
            ));
            assert(self.entry_seq().drop_last() =~= old(self).entry_seq());
        }
    }

    /// Pure lookup of the route for `service`.
    pub fn get_mapping(&self, service: &str) -> (r: Option<(String, String)>)
        ensures
            match r {
                Some(ids) => self@.contains_key(service@) && self@[service@] == (ids.0@, ids.1@),
                None => !self@.contains_key(service@),
            },
    {
        let target: String = String::from_str(service);
        let n: usize = self.routes.len();
        let mut i: usize = n;
        while i > 0
            invariant
                i <= n,
                n == self.routes.len(),
                target@ == service@,
                forall|j: int| i <= j < n ==> (#[trigger] self.entry_seq()[j]).0 != service@,
            decreases i,
        {
            i = i - 1;
            if self.routes[i].0 == target {
                proof {
                    assert(self.entry_seq()[i as int].0 == service@);
                    lemma_assoc_map_found(self.entry_seq(), service@, i as int);
                }
                return Some((self.routes[i].1.0.clone(), self.routes[i].1.1.clone()));
            }
            proof {
                assert(self.entry_seq()[i as int].0 != service@);
            }
        }
        proof {
            lemma_assoc_map_absent(self.entry_seq(), service@);
        }
        None
    }
}

impl View for ServiceRoutingConfig {
    type V = Map<Seq<char>, (Seq<char>, Seq<char>)>;

    closed spec fn view(&self) -> Map<Seq<char>, (Seq<char>, Seq<char>)> {
        assoc_map(self.entry_seq())
    }
}

} // verus!
