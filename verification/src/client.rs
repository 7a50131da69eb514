//! The client: cache validity checks, refresh, ordered iteration, per-target
//! invocation of the caller's operation, outcome notification, and fallback.

use vstd::prelude::*;
use crate::cache::Cache;
use crate::endpoint::{allow_list_views, candidate_endpoints, Endpoint, EndpointView, Scheme};
use crate::host::{Host, HostView};
use crate::policy::{index_permutation, Affinity, Policy};
use crate::record::{SrvRecord, SrvRecordView};
use crate::resolver::SrvResolver;

verus! {

/// Errors encountered by a [`SrvClient`] while discovering targets. None of
/// them reaches the caller of [`SrvClient::execute`]: the client absorbs
/// every discovery failure by falling back to its static fallback endpoint.
#[derive(Debug)]
pub enum Error<Lookup> {
    /// The resolver failed to answer.
    Lookup(Lookup),
    /// A record's target could not be parsed; holds the target's name. Such
    /// a record is dropped, the remaining records are kept.
    RecordParsing(String),
    /// There are no targets for a client to use.
    NoTargets,
}

/// Client for performing operations on a service located by SRV-style
/// records: it discovers targets through its resolver, caches them until
/// the validity instant the resolver gave, orders them by its policy, and
/// drives a caller-supplied operation target by target until one succeeds,
/// falling back to a static endpoint when discovery or every target fails.
pub struct SrvClient<Resolver, P: Policy = Affinity> {
    srv: String,
    fallback: Endpoint,
    allowed_suffixes: Option<Vec<Host>>,
    resolver: Resolver,
    http_scheme: Scheme,
    path_prefix: String,
    policy: P,
    cache: Cache<P::CacheItem>,
}

impl<Resolver, P: Policy> SrvClient<Resolver, P> {
    /// The service name the client looks up.
    pub closed spec fn spec_srv(&self) -> Seq<char> {
        self.srv@
    }

    /// The static fallback endpoint.
    pub closed spec fn spec_fallback(&self) -> EndpointView {
        self.fallback@
    }

    /// The configured allow-list, if any.
    pub closed spec fn spec_allowed(&self) -> Option<Seq<HostView>> {
        allow_list_views(self.allowed_suffixes)
    }

    /// The scheme of constructed endpoints.
    pub closed spec fn spec_scheme(&self) -> Scheme {
        self.http_scheme
    }

    /// The path prefix of constructed endpoints.
    pub closed spec fn spec_path_prefix(&self) -> Seq<char> {
        self.path_prefix@
    }

    /// The client's policy state.
    pub closed spec fn spec_policy(&self) -> P {
        self.policy
    }

    /// The current cache snapshot.
    pub closed spec fn spec_cache(&self) -> Cache<P::CacheItem> {
        self.cache
    }

    /// The configuration both clients share: everything but policy state,
    /// resolver state and the cache snapshot.
    pub open spec fn same_config(&self, other: &Self) -> bool {
        &&& self.spec_srv() == other.spec_srv()
        &&& self.spec_fallback() == other.spec_fallback()
        &&& self.spec_allowed() == other.spec_allowed()
        &&& self.spec_scheme() == other.spec_scheme()
        &&& self.spec_path_prefix() == other.spec_path_prefix()
    }
}

impl<Resolver, P: Policy + Default> SrvClient<Resolver, P> {
    /// Creates a new client for communicating with services located by
    /// `srv_name`, with the given resolver backend. The cache starts out
    /// expired, the scheme encrypted, the path prefix at the root.
    pub fn new_with_resolver(
        srv_name: String,
        fallback: Endpoint,
        allowed_suffixes: Option<Vec<Host>>,
        resolver: Resolver,
    ) -> (r: Self)
        ensures
            r.spec_srv() == srv_name@,
            r.spec_fallback() == fallback@,
            r.spec_allowed() == allow_list_views(allowed_suffixes),
            r.spec_scheme() == Scheme::Https,
            r.spec_path_prefix() == "/"@,
            r.spec_cache().spec_items() == Seq::<P::CacheItem>::empty(),
            r.spec_cache().spec_valid_until() == 0,
    {
        SrvClient {
            srv: srv_name,
            fallback,
            allowed_suffixes,
            resolver,
            http_scheme: Scheme::Https,
            path_prefix: "/".to_owned(),
            policy: Default::default(),
            cache: Default::default(),
        }
    }
}

impl<Resolver: Default, P: Policy + Default> SrvClient<Resolver, P> {
    /// Creates a new client for communicating with services located by
    /// `srv_name`, with the default resolver backend.
    pub fn new(srv_name: String, fallback: Endpoint, allowed_suffixes: Option<Vec<Host>>) -> (r:
        Self)
        ensures
            r.spec_srv() == srv_name@,
            r.spec_fallback() == fallback@,
            r.spec_allowed() == allow_list_views(allowed_suffixes),
            r.spec_scheme() == Scheme::Https,
            r.spec_path_prefix() == "/"@,
            r.spec_cache().spec_items() == Seq::<P::CacheItem>::empty(),
            r.spec_cache().spec_valid_until() == 0,
    {
        Self::new_with_resolver(srv_name, fallback, allowed_suffixes, Resolver::default())
    }
}

impl<Resolver: SrvResolver, P: Policy> SrvClient<Resolver, P> {
    /// Gets a fresh set of SRV-style records from the client's resolver,
    /// returning them along with the instant they are valid until.
    fn get_srv_records(&mut self) -> (r: Result<(Vec<SrvRecord>, u64), Error<Resolver::Error>>)
        ensures
            final(self).same_config(old(self)),
            final(self).spec_policy() == old(self).spec_policy(),
            final(self).spec_cache() == old(self).spec_cache(),
            r matches Err(e) ==> e matches Error::Lookup(_),
    {
        match self.resolver.get_srv_records(self.srv.as_str()) {
            Ok(answer) => Ok(answer),
            Err(e) => Err(Error::Lookup(e)),
        }
    }

    /// Gets a fresh set of records from the client's resolver and parses and
    /// filters them into candidate endpoints, which are returned along with
    /// the instant they are valid until — the instant a cache holding them
    /// should expire. Neither the cache nor the policy state is touched.
    pub fn get_fresh_uri_candidates(&mut self) -> (r: Result<
        (Vec<Endpoint>, u64),
        Error<Resolver::Error>,
    >)
        ensures
            final(self).same_config(old(self)),
            final(self).spec_policy() == old(self).spec_policy(),
            final(self).spec_cache() == old(self).spec_cache(),
            match r {
                Ok((uris, valid_until)) => exists|records: Seq<SrvRecordView>|
                    crate::views_of(uris@) == candidate_endpoints(
                        records,
                        old(self).spec_scheme(),
                        old(self).spec_path_prefix(),
                        old(self).spec_allowed(),
                    ),
                Err(e) => e matches Error::Lookup(_),
            },
    {
        let (records, valid_until) = match self.get_srv_records() {
            Ok(answer) => answer,
            Err(e) => {
                return Err(e);
            },
        };
        let uris = crate::endpoint::uri_candidates_from_records(
            &records,
            self.http_scheme,
            &self.path_prefix,
            &self.allowed_suffixes,
        );
        proof {
            let recs_v = crate::views_of(records@);
            assert(crate::views_of(uris@) == candidate_endpoints(
                recs_v,
                self.spec_scheme(),
                self.spec_path_prefix(),
                self.spec_allowed(),
            ));
        }
        Ok((uris, valid_until))
    }

    /// Replaces the cache with a snapshot freshly built by the policy from
    /// a new lookup, or leaves it untouched when the lookup fails.
    fn refresh_cache(&mut self) -> (r: Result<(), Error<Resolver::Error>>)
        ensures
            final(self).same_config(old(self)),
            final(self).spec_policy() == old(self).spec_policy(),
            match r {
                Ok(_) => exists|records: Seq<SrvRecordView>|
                    crate::views_of(final(self).spec_cache().spec_items()) == P::built_items(
                        records,
                        old(self).spec_scheme(),
                        old(self).spec_path_prefix(),
                        old(self).spec_allowed(),
                    ),
                Err(e) => final(self).spec_cache() == old(self).spec_cache() && e matches Error::Lookup(
                    _,
                ),
            },
    {
        let (records, valid_until) = match self.get_srv_records() {
            Ok(answer) => answer,
            Err(e) => {
                return Err(e);
            },
        };
        let new_cache = self.policy.refresh_cache(
            &records,
            valid_until,
            self.http_scheme,
            &self.path_prefix,
            &self.allowed_suffixes,
        );
        self.cache = new_cache;
        proof {
            let recs_v = crate::views_of(records@);
            assert(crate::views_of(self.spec_cache().spec_items()) == P::built_items(
                recs_v,
                self.spec_scheme(),
                self.spec_path_prefix(),
                self.spec_allowed(),
            ));
        }
        Ok(())
    }

    /// Makes the cache usable: kept as it is when still valid at `now`, and
    /// refreshed by exactly one lookup otherwise.
    fn get_valid_cache(&mut self, now: u64) -> (r: Result<(), Error<Resolver::Error>>)
        ensures
            final(self).same_config(old(self)),
            final(self).spec_policy() == old(self).spec_policy(),
            old(self).spec_cache().spec_valid(now) ==> *final(self) == *old(self) && r is Ok,
            match r {
                Ok(_) => old(self).spec_cache().spec_valid(now) || exists|
                    records: Seq<SrvRecordView>,
                |
                    crate::views_of(final(self).spec_cache().spec_items()) == P::built_items(
                        records,
                        old(self).spec_scheme(),
                        old(self).spec_path_prefix(),
                        old(self).spec_allowed(),
                    ),
                Err(e) => final(self).spec_cache() == old(self).spec_cache() && e matches Error::Lookup(
                    _,
                ),
            },
    {
        if self.cache.valid(now) {
            Ok(())
        } else {
            self.refresh_cache()
        }
    }

    /// Performs an operation on the client's discovered targets, in the order
    /// the policy gives, producing the first successful result. A successful
    /// target is reported to the policy, a failing one too, and the next
    /// target is tried. When discovery fails or every target has failed, the
    /// operation runs once on the static fallback endpoint and its outcome,
    /// success or error, is the final one: of all discovery-layer failures
    /// only the operation's own error type ever reaches the caller.
    pub fn execute<T, E, F: Fn(&Endpoint) -> Result<T, E>>(&mut self, now: u64, op: F) -> (r:
        Result<T, E>)
        requires
            forall|e: &Endpoint| #[trigger] call_requires(op, (e,)),
        ensures
            final(self).same_config(old(self)),
            old(self).spec_cache().spec_valid(now) ==> final(self).spec_cache() == old(
                self,
            ).spec_cache(),
            final(self).spec_cache() == old(self).spec_cache() || exists|
                records: Seq<SrvRecordView>,
            |
                crate::views_of(final(self).spec_cache().spec_items()) == P::built_items(
                    records,
                    old(self).spec_scheme(),
                    old(self).spec_path_prefix(),
                    old(self).spec_allowed(),
                ),
            match r {
                Ok(v) => exists|e: &Endpoint|
                    #[trigger] call_ensures(op, (e,), Ok(v)) && (e@ == old(self).spec_fallback()
                        || exists|i: int|
                        0 <= i < final(self).spec_cache().spec_items().len() && e@ == P::uri_view(
                            final(self).spec_cache().spec_items()[i]@,
                        )),
                Err(err) => exists|e: &Endpoint|
                    #[trigger] call_ensures(op, (e,), Err(err)) && e@ == old(self).spec_fallback(),
            },
    {
        match self.get_valid_cache(now) {
            Ok(_) => {},
            Err(_) => {
                let result = op(&self.fallback);
                proof {
                    if result is Ok {
                        assert(call_ensures(op, (&self.fallback,), Ok::<T, E>(result->Ok_0)));
                    } else {
                        assert(call_ensures(op, (&self.fallback,), Err::<T, E>(result->Err_0)));
                    }
                }
                return result;
            },
        }
        let order = self.policy.order(self.cache.items());
        let ghost snapshot = self.spec_cache();
        let mut k: usize = 0;
        while k < order.len()
            invariant
                forall|e: &Endpoint| #[trigger] call_requires(op, (e,)),
                index_permutation(order@, snapshot.spec_items().len() as nat),
                self.spec_cache() == snapshot,
                self.same_config(old(self)),
                old(self).spec_cache().spec_valid(now) ==> self.spec_cache() == old(
                    self,
                ).spec_cache(),
                self.spec_cache() == old(self).spec_cache() || exists|
                    records: Seq<SrvRecordView>,
                |
                    crate::views_of(self.spec_cache().spec_items()) == P::built_items(
                        records,
                        old(self).spec_scheme(),
                        old(self).spec_path_prefix(),
                        old(self).spec_allowed(),
                    ),
            decreases order.len() - k,
        {
            let idx = order[k];
            let uri = P::cache_item_to_uri(&self.cache.items()[idx]);
            let outcome = op(uri);
            match outcome {
                Ok(res) => {
                    self.policy.note_success(uri);
                    proof {
                        assert(self.spec_cache() == snapshot);
                        assert(call_ensures(op, (uri,), Ok::<T, E>(res)));
                        assert(uri@ == P::uri_view(self.spec_cache().spec_items()[idx as int]@));
                        assert(exists|i: int|
                            0 <= i < self.spec_cache().spec_items().len() && uri@ == P::uri_view(
                                self.spec_cache().spec_items()[i]@,
                            ));
                        assert(exists|e: &Endpoint|
                            call_ensures(op, (e,), Ok::<T, E>(res)) && (e@ == old(
                                self,
                            ).spec_fallback() || exists|i: int|
                                0 <= i < self.spec_cache().spec_items().len() && e@ == P::uri_view(
                                    self.spec_cache().spec_items()[i]@,
                                )));
                    }
                    return Ok(res);
                },
                Err(_) => {
                    self.policy.note_failure(uri);
                },
            }
            k += 1;
        }
        let result = op(&self.fallback);
        proof {
            if result is Ok {
                assert(call_ensures(op, (&self.fallback,), Ok::<T, E>(result->Ok_0)));
            } else {
                assert(call_ensures(op, (&self.fallback,), Err::<T, E>(result->Err_0)));
            }
        }
        result
    }
}

impl<Resolver, P: Policy> SrvClient<Resolver, P> {
    /// Sets the service name of the client.
    pub fn srv_name(self, srv_name: String) -> (r: Self)
        ensures
            r.spec_srv() == srv_name@,
            r.spec_fallback() == self.spec_fallback(),
            r.spec_allowed() == self.spec_allowed(),
            r.spec_scheme() == self.spec_scheme(),
            r.spec_path_prefix() == self.spec_path_prefix(),
            r.spec_policy() == self.spec_policy(),
            r.spec_cache() == self.spec_cache(),
    {
        Self { srv: srv_name, ..self }
    }

    /// Sets the resolver of the client; the cache starts over expired.
    pub fn resolver<R>(self, resolver: R) -> (r: SrvClient<R, P>)
        ensures
            r.spec_srv() == self.spec_srv(),
            r.spec_fallback() == self.spec_fallback(),
            r.spec_allowed() == self.spec_allowed(),
            r.spec_scheme() == self.spec_scheme(),
            r.spec_path_prefix() == self.spec_path_prefix(),
            r.spec_policy() == self.spec_policy(),
            r.spec_cache().spec_items() == Seq::<P::CacheItem>::empty(),
            r.spec_cache().spec_valid_until() == 0,
    {
        SrvClient {
            resolver,
            cache: Default::default(),
            policy: self.policy,
            srv: self.srv,
            fallback: self.fallback,
            allowed_suffixes: self.allowed_suffixes,
            http_scheme: self.http_scheme,
            path_prefix: self.path_prefix,
        }
    }

    /// Sets the policy of the client; the cache starts over expired.
    pub fn policy<Q: Policy>(self, policy: Q) -> (r: SrvClient<Resolver, Q>)
        ensures
            r.spec_srv() == self.spec_srv(),
            r.spec_fallback() == self.spec_fallback(),
            r.spec_allowed() == self.spec_allowed(),
            r.spec_scheme() == self.spec_scheme(),
            r.spec_path_prefix() == self.spec_path_prefix(),
            r.spec_policy() == policy,
            r.spec_cache().spec_items() == Seq::<Q::CacheItem>::empty(),
            r.spec_cache().spec_valid_until() == 0,
    {
        SrvClient {
            policy,
            cache: Default::default(),
            resolver: self.resolver,
            srv: self.srv,
            fallback: self.fallback,
            allowed_suffixes: self.allowed_suffixes,
            http_scheme: self.http_scheme,
            path_prefix: self.path_prefix,
        }
    }

    /// Sets the scheme of the client's constructed endpoints.
    pub fn http_scheme(self, http_scheme: Scheme) -> (r: Self)
        ensures
            r.spec_scheme() == http_scheme,
            r.spec_srv() == self.spec_srv(),
            r.spec_fallback() == self.spec_fallback(),
            r.spec_allowed() == self.spec_allowed(),
            r.spec_path_prefix() == self.spec_path_prefix(),
            r.spec_policy() == self.spec_policy(),
            r.spec_cache() == self.spec_cache(),
    {
        Self { http_scheme, ..self }
    }

    /// Sets the path prefix of the client's constructed endpoints.
    pub fn path_prefix(self, path_prefix: String) -> (r: Self)
        ensures
            r.spec_path_prefix() == path_prefix@,
            r.spec_srv() == self.spec_srv(),
            r.spec_fallback() == self.spec_fallback(),
            r.spec_allowed() == self.spec_allowed(),
            r.spec_scheme() == self.spec_scheme(),
            r.spec_policy() == self.spec_policy(),
            r.spec_cache() == self.spec_cache(),
    {
        Self { path_prefix, ..self }
    }
}

} // verus!
