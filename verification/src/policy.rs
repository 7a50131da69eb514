//! Selection policies: the order in which candidate items are tried.
//!
//! A policy builds the cache items a refresh stores, produces a traversal
//! order over a snapshot's indices — computed fresh on every call — and is
//! told about the outcome of each attempt. Two policies are provided:
//! [`Affinity`], which prefers the last endpoint that succeeded, and
//! [`Rfc2782`], which orders by priority and re-randomizes by weight on
//! every call.

use vstd::prelude::*;
use crate::cache::Cache;
use crate::endpoint::{allow_list_views, candidate_endpoints, Endpoint, EndpointView, Scheme};
use crate::host::{Host, HostView};
use crate::record::{SrvRecord, SrvRecordView};

verus! {

/// The indices of an order, as mathematical integers.
pub open spec fn ints_of(s: Seq<usize>) -> Seq<int> {
    s.map_values(|x: usize| x as int)
}

/// Holds when `s` is a permutation of the indices `0 .. n`.
pub open spec fn index_permutation(s: Seq<usize>, n: nat) -> bool {
    &&& s.len() == n
    &&& forall|i: int| 0 <= i < s.len() ==> (s[i] as nat) < n
    &&& forall|i: int, j: int| 0 <= i < j < s.len() ==> s[i] != s[j]
}

/// Policy for a client to use when selecting targets to recommend.
pub trait Policy: Sized {
    /// Type of item stored in a client's cache.
    type CacheItem: View;

    /// The endpoint a cache item dispatches to.
    spec fn uri_view(v: <Self::CacheItem as View>::V) -> EndpointView;

    /// The items a refresh builds from a record list under a client's
    /// configuration: one item for each kept record, in record order.
    spec fn built_items(
        records: Seq<SrvRecordView>,
        scheme: Scheme,
        path: Seq<char>,
        allowed: Option<Seq<HostView>>,
    ) -> Seq<<Self::CacheItem as View>::V>;

    /// Builds a fresh cache snapshot from resolver records: the kept records'
    /// items in record order, expiring at `valid_until`.
    fn refresh_cache(
        &self,
        records: &Vec<SrvRecord>,
        valid_until: u64,
        scheme: Scheme,
        path_prefix: &String,
        allowed: &Option<Vec<Host>>,
    ) -> (r: Cache<Self::CacheItem>)
        ensures
            r.spec_valid_until() == valid_until,
            crate::views_of(r.spec_items()) == Self::built_items(
                crate::views_of(records@),
                scheme,
                path_prefix@,
                allow_list_views(*allowed),
            ),
    ;

    /// The order in which a client should try the items of the current
    /// snapshot: a permutation of the snapshot's indices, computed fresh on
    /// every call.
    fn order(&self, items: &Vec<Self::CacheItem>) -> (r: Vec<usize>)
        ensures
            index_permutation(r@, items@.len() as nat),
    ;

    /// The endpoint to dispatch to for one cached item.
    fn cache_item_to_uri(item: &Self::CacheItem) -> (r: &Endpoint)
        ensures
            r@ == Self::uri_view(item@),
    ;

    /// Told after a successful attempt on `uri`.
    fn note_success(&mut self, uri: &Endpoint);

    /// Told after a failed attempt on `uri`.
    fn note_failure(&mut self, uri: &Endpoint);
}

/// The affinity traversal order over `n` items when index `k` is preferred:
/// `k` first, then all other indices in their original relative order.
pub open spec fn affinity_order(n: int, k: int) -> Seq<int> {
    Seq::new(
        n as nat,
        |i: int|
            if i == 0 {
                k
            } else if i <= k {
                i - 1
            } else {
                i
            },
    )
}

/// The view of an optionally referenced endpoint.
pub open spec fn preferred_of(o: Option<&Endpoint>) -> Option<EndpointView> {
    match o {
        Some(p) => Some(p@),
        None => None,
    }
}

/// Holds when `k` is the index the affinity order starts from: the first
/// index holding the preferred endpoint where one is remembered and present,
/// and `0` otherwise.
pub open spec fn affinity_pick(items: Seq<EndpointView>, pref: Option<EndpointView>, k: int) -> bool {
    match pref {
        None => k == 0,
        Some(p) => {
            if exists|i: int| 0 <= i < items.len() && items[i] == p {
                &&& 0 <= k < items.len()
                &&& items[k] == p
                &&& forall|j: int| 0 <= j < k ==> items[j] != p
            } else {
                k == 0
            }
        },
    }
}

/// Law: with no remembered endpoint, the affinity order over `items` is the
/// identity order `0, 1, ..., n-1`.
pub proof fn lemma_affinity_order_identity(items: Seq<EndpointView>, k: int)
    requires
        affinity_pick(items, None, k),
    ensures
        affinity_order(items.len() as int, k) =~= Seq::new(items.len(), |i: int| i),
{
}

/// Law: when the remembered endpoint stands at index `k` of `items`, the
/// affinity order is `k, 0, ..., k-1, k+1, ..., n-1`.
pub proof fn lemma_affinity_order_preferred(items: Seq<EndpointView>, p: EndpointView, k: int)
    requires
        affinity_pick(items, Some(p), k),
        exists|i: int| 0 <= i < items.len() && items[i] == p,
    ensures
        items[k] == p,
        affinity_order(items.len() as int, k).len() == items.len(),
        affinity_order(items.len() as int, k)[0] == k,
        forall|i: int| 1 <= i <= k ==> affinity_order(items.len() as int, k)[i] == i - 1,
        forall|i: int| k < i < items.len() ==> affinity_order(items.len() as int, k)[i] == i,
{
}

/// The affinity order is a permutation of `0 .. n`.
pub proof fn lemma_affinity_order_permutation(n: int, k: int)
    requires
        0 <= k < n || (n == 0 && k == 0),
    ensures
        affinity_order(n, k).len() == n,
        forall|i: int| 0 <= i < n ==> 0 <= #[trigger] affinity_order(n, k)[i] < n,
        forall|i: int, j: int| 0 <= i < j < n ==> affinity_order(n, k)[i] != affinity_order(n, k)[j],
{
}

/// Iterator over endpoint indices based on affinity. See [`Affinity`].
#[derive(Debug)]
pub struct AffinityUrlIter {
    /// Number of endpoints in the snapshot.
    pub n: usize,
    /// Index of the endpoint to produce first (the preferred endpoint);
    /// `0` if the first is preferred or there is no preferred one at all.
    pub preferred: usize,
    /// Index of the next endpoint to be produced. If `None`, the preferred
    /// endpoint will be produced.
    pub next: Option<usize>,
}

impl AffinityUrlIter {
    /// Well-formedness: the preferred index lies in range (or the snapshot
    /// is empty), and the cursor never runs past the item count.
    pub open spec fn wf(&self) -> bool {
        &&& (self.preferred as int) < (self.n as int) || (self.n == 0 && self.preferred == 0)
        &&& match self.next {
            Some(nx) => nx <= self.n,
            None => true,
        }
    }

    /// How many indices the iterator has produced so far.
    pub open spec fn produced(&self) -> int {
        match self.next {
            None => 0,
            Some(nx) => if nx <= self.preferred {
                nx + 1
            } else {
                nx as int
            },
        }
    }

    /// Produces the next index of the affinity order, or nothing once all
    /// `n` indices are out.
    pub fn next(&mut self) -> (r: Option<usize>)
        requires
            old(self).wf(),
        ensures
            final(self).wf(),
            final(self).n == old(self).n,
            final(self).preferred == old(self).preferred,
            ({
                let out = affinity_order(old(self).n as int, old(self).preferred as int);
                let k = old(self).produced();
                if 0 <= k < out.len() {
                    &&& r matches Some(v) && v as int == out[k]
                    &&& final(self).produced() == k + 1
                } else {
                    r is None
                }
            }),
    {
        let n = self.n;
        let p = self.preferred;
        match self.next {
            None => {
                self.next = Some(0);
                if p < n {
                    Some(p)
                } else {
                    None
                }
            },
            Some(nx) => {
                let idx = if nx == p {
                    nx + 1
                } else {
                    nx
                };
                if idx < n {
                    self.next = Some(idx + 1);
                    Some(idx)
                } else {
                    None
                }
            },
        }
    }

    /// Drains the iterator into the full index order it stands for.
    pub fn into_vec(self) -> (r: Vec<usize>)
        requires
            self.wf(),
            self.next is None,
        ensures
            ints_of(r@) == affinity_order(self.n as int, self.preferred as int),
            index_permutation(r@, self.n as nat),
    {
        let ghost out_spec = affinity_order(self.n as int, self.preferred as int);
        let mut it = self;
        let n = it.n;
        let mut r: Vec<usize> = Vec::new();
        while r.len() < n
            invariant
                it.wf(),
                it.n == n,
                it.preferred == self.preferred,
                it.produced() == r@.len(),
                r@.len() <= n,
                out_spec == affinity_order(n as int, self.preferred as int),
                ints_of(r@) == out_spec.take(r@.len() as int),
            decreases n - r.len(),
        {
            let ghost k = r@.len() as int;
            match it.next() {
                Some(v) => {
                    r.push(v);
                    proof {
                        assert(ints_of(r@) =~= out_spec.take(k + 1));
                    }
                },
                None => {
                    proof {
                        assert(false);
                    }
                },
            }
        }
        proof {
            assert(out_spec.take(n as int) =~= out_spec);
            lemma_affinity_order_permutation(n as int, self.preferred as int);
            let m = ints_of(r@);
            assert(m == out_spec);
            assert forall|i: int| 0 <= i < n implies (r@[i] as nat) < n as nat by {
                assert(m[i] == r@[i] as int);
                assert(0 <= out_spec[i] < n);
            }
            assert forall|i: int, j: int| 0 <= i < j < n implies r@[i] != r@[j] by {
                assert(m[i] == r@[i] as int);
                assert(m[j] == r@[j] as int);
                assert(out_spec[i] != out_spec[j]);
            }
        }
        r
    }
}

/// Policy that selects targets based on past successes: if a target was used
/// successfully in a past execution, it is recommended first.
#[derive(Debug)]
pub struct Affinity {
    last_working_target: Option<Endpoint>,
}

impl Default for Affinity {
    /// A fresh affinity policy remembers no endpoint.
    fn default() -> (r: Self)
        ensures
            r.preferred_view() is None,
    {
        Affinity { last_working_target: None }
    }
}

impl Affinity {
    /// The remembered endpoint the policy will try first, if any.
    pub closed spec fn preferred_view(&self) -> Option<EndpointView> {
        match self.last_working_target {
            Some(e) => Some(e@),
            None => None,
        }
    }

    /// Builds the affinity index iterator over `uris`, starting from the
    /// first occurrence of `preferred` where one is given and present.
    pub fn uris_preferring(uris: &Vec<Endpoint>, preferred: Option<&Endpoint>) -> (it: AffinityUrlIter)
        ensures
            it.wf(),
            it.n == uris.len(),
            it.next is None,
            affinity_pick(crate::views_of(uris@), preferred_of(preferred), it.preferred as int),
    {
        let ghost views = crate::views_of(uris@);
        match preferred {
            None => AffinityUrlIter { n: uris.len(), preferred: 0, next: None },
            Some(p) => {
                let mut i: usize = 0;
                while i < uris.len()
                    invariant
                        i <= uris.len(),
                        views == crate::views_of(uris@),
                        preferred == Some(p),
                        forall|j: int| 0 <= j < i ==> views[j] != p@,
                    decreases uris.len() - i,
                {
                    if uris[i] == *p {
                        proof {
                            assert(views[i as int] == p@);
                            assert(exists|x: int| 0 <= x < views.len() && views[x] == p@);
                        }
                        return AffinityUrlIter { n: uris.len(), preferred: i, next: None };
                    }
                    i += 1;
                }
                proof {
                    assert(forall|j: int| 0 <= j < views.len() ==> views[j] != p@);
                }
                AffinityUrlIter { n: uris.len(), preferred: 0, next: None }
            },
        }
    }

    /// The full affinity order over `items`: the remembered endpoint's index
    /// first where it is present, then all other indices in their original
    /// relative order.
    pub fn ordered_indices(&self, items: &Vec<Endpoint>) -> (r: Vec<usize>)
        ensures
            index_permutation(r@, items@.len() as nat),
            exists|k: int|
                affinity_pick(crate::views_of(items@), self.preferred_view(), k)
                    && ints_of(r@) == affinity_order(items@.len() as int, k),
    {
        let it = Affinity::uris_preferring(items, self.last_working_target.as_ref());
        let ghost k = it.preferred as int;
        let r = it.into_vec();
        proof {
            assert(affinity_pick(crate::views_of(items@), self.preferred_view(), k));
        }
        r
    }

    /// Remembers `uri` as the endpoint to try first from now on.
    pub fn remember_success(&mut self, uri: &Endpoint)
        ensures
            final(self).preferred_view() == Some(uri@),
    {
        self.last_working_target = Some(uri.clone());
    }
}

impl Policy for Affinity {
    type CacheItem = Endpoint;

    open spec fn uri_view(v: EndpointView) -> EndpointView {
        v
    }

    open spec fn built_items(
        records: Seq<SrvRecordView>,
        scheme: Scheme,
        path: Seq<char>,
        allowed: Option<Seq<HostView>>,
    ) -> Seq<EndpointView> {
        candidate_endpoints(records, scheme, path, allowed)
    }

    fn refresh_cache(
        &self,
        records: &Vec<SrvRecord>,
        valid_until: u64,
        scheme: Scheme,
        path_prefix: &String,
        allowed: &Option<Vec<Host>>,
    ) -> (r: Cache<Endpoint>) {
        let uris = crate::endpoint::uri_candidates_from_records(records, scheme, path_prefix, allowed);
        Cache::new(uris, valid_until)
    }

    fn order(&self, items: &Vec<Endpoint>) -> (r: Vec<usize>) {
        self.ordered_indices(items)
    }

    fn cache_item_to_uri(item: &Endpoint) -> (r: &Endpoint) {
        item
    }

    fn note_success(&mut self, uri: &Endpoint) {
        self.remember_success(uri);
    }

    fn note_failure(&mut self, uri: &Endpoint) {
    }
}

/// Mathematical form of a [`ParsedRecord`].
pub struct ParsedRecordView {
    /// The record's endpoint.
    pub uri: EndpointView,
    /// The record's priority; a lower value is preferred.
    pub priority: u16,
    /// The record's weight among records of equal priority.
    pub weight: u16,
}

/// Representation of a record with its target and port parsed into an
/// endpoint, keeping the priority and weight the weighted policy orders by.
#[derive(Debug)]
pub struct ParsedRecord {
    /// The record's endpoint.
    pub uri: Endpoint,
    /// The record's priority; a lower value is preferred.
    pub priority: u16,
    /// The record's weight among records of equal priority.
    pub weight: u16,
}

impl View for ParsedRecord {
    type V = ParsedRecordView;

    open spec fn view(&self) -> ParsedRecordView {
        ParsedRecordView { uri: self.uri@, priority: self.priority, weight: self.weight }
    }
}

impl ParsedRecord {
    /// Pairs a record's endpoint with the record's priority and weight.
    pub fn new(record: &SrvRecord, uri: Endpoint) -> (r: Self)
        ensures
            r@ == (ParsedRecordView { uri: uri@, priority: record.priority, weight: record.weight }),
    {
        ParsedRecord { uri, priority: record.priority, weight: record.weight }
    }
}

/// The parsed-record item one kept record contributes to the weighted cache.
pub open spec fn parsed_record_view(r: SrvRecordView, scheme: Scheme, path: Seq<char>) -> ParsedRecordView {
    ParsedRecordView {
        uri: crate::endpoint::endpoint_of_record(r, scheme, path),
        priority: r.priority,
        weight: r.weight,
    }
}

/// One record's sort key with its index: priority first, then the
/// weight-by-random draw, descending.
struct SortEntry {
    /// The record's priority.
    pri: u16,
    /// The record's weight scaled by a fresh random draw.
    wkey: u32,
    /// The record's index in the snapshot.
    idx: usize,
}

/// The order the weighted policy sorts by: ascending priority first, then
/// descending randomized weight.
spec fn entry_le(a: SortEntry, b: SortEntry) -> bool {
    a.pri < b.pri || (a.pri == b.pri && a.wkey >= b.wkey)
}

/// Relies on `rand::random`: a fresh draw from the thread-local generator.
/// Nothing is promised of the value.
pub assume_specification<T>[ rand::random::<T> ]() -> (r: T)
    where
        rand::distr::StandardUniform: rand::distr::Distribution<T>,
;

/// The position in `sorted` in front of which an entry with key
/// `(pri, wkey)` belongs: past every entry that precedes it in the sort
/// order. An entry's index plays no part in the comparison.
fn insert_pos(sorted: &Vec<SortEntry>, pri: u16, wkey: u32) -> (p: usize)
    ensures
        p <= sorted.len(),
        forall|a: int| 0 <= a < p ==> entry_le(sorted@[a], (SortEntry { pri, wkey, idx: 0 })),
        p < sorted.len() ==> !entry_le(sorted@[p as int], (SortEntry { pri, wkey, idx: 0 })),
{
    let mut j: usize = 0;
    while j < sorted.len()
        invariant
            j <= sorted.len(),
            forall|a: int| 0 <= a < j ==> entry_le(sorted@[a], (SortEntry { pri, wkey, idx: 0 })),
        decreases sorted.len() - j,
    {
        let before = sorted[j].pri < pri || (sorted[j].pri == pri && sorted[j].wkey >= wkey);
        if !before {
            return j;
        }
        j += 1;
    }
    j
}

/// Policy that selects targets based on the weighted-priority algorithm:
/// ascending by priority, reshuffling by weight for each selection.
#[derive(Debug)]
pub struct Rfc2782;

impl Default for Rfc2782 {
    /// The weighted policy carries no state.
    fn default() -> Self {
        Rfc2782
    }
}

impl Rfc2782 {
    /// A full traversal order over `items`: a permutation of their indices
    /// whose priorities never decrease along it. Among items of equal
    /// priority the order is drawn fresh on every call, each index weighted
    /// by its item's weight.
    pub fn ordered_indices(&self, items: &Vec<ParsedRecord>) -> (r: Vec<usize>)
        ensures
            index_permutation(r@, items@.len() as nat),
            forall|a: int, b: int|
                0 <= a < b < r@.len() ==> items@[r@[a] as int].priority <= items@[r@[b] as int].priority,
    {
        let n = items.len();
        let mut sorted: Vec<SortEntry> = Vec::new();
        let mut i: usize = 0;
        while i < n
            invariant
                n == items.len(),
                i <= n,
                sorted@.len() == i,
                forall|a: int| 0 <= a < i ==> (#[trigger] sorted@[a]).idx < i,
                forall|a: int, b: int| 0 <= a < b < i ==> sorted@[a].idx != sorted@[b].idx,
                forall|a: int, b: int| 0 <= a < b < i ==> entry_le(sorted@[a], sorted@[b]),
                forall|a: int| 0 <= a < i ==> (#[trigger] sorted@[a]).pri == items@[sorted@[a].idx as int].priority,
            decreases n - i,
        {
            let draw: u16 = rand::random();
            let weight = items[i].weight;
            proof {
                assert((weight as int) * (draw as int) <= 65535 * 65535) by (nonlinear_arith)
                    requires
                        0 <= weight as int <= 65535,
                        0 <= draw as int <= 65535,
                ;
            }
            let wkey: u32 = (weight as u32) * (draw as u32);
            let pri = items[i].priority;
            let p = insert_pos(&sorted, pri, wkey);
            let ghost before = sorted@;
            sorted.insert(p, SortEntry { pri, wkey, idx: i });
            proof {
                before.insert_ensures(p as int, SortEntry { pri, wkey, idx: i });
                assert forall|a: int, b: int| 0 <= a < b < i + 1 implies entry_le(
                    sorted@[a],
                    sorted@[b],
                ) by {
                    let e = SortEntry { pri, wkey, idx: i as usize };
                    if a < p && b < p {
                    } else if b == p {
                        assert(entry_le(before[a], e));
                    } else if a == p {
                        assert(!entry_le(before[p as int], e));
                        assert(entry_le(e, before[p as int]));
                        if b - 1 > p {
                            assert(entry_le(before[p as int], before[b - 1]));
                        }
                        assert(entry_le(e, before[b - 1]));
                    } else if a < p {
                    } else {
                    }
                }
            }
            i += 1;
        }
        let mut r: Vec<usize> = Vec::new();
        let mut k: usize = 0;
        while k < sorted.len()
            invariant
                sorted@.len() == n,
                k <= n,
                r@.len() == k,
                forall|a: int| 0 <= a < k ==> r@[a] == (#[trigger] sorted@[a]).idx,
                forall|a: int| 0 <= a < n ==> (#[trigger] sorted@[a]).idx < n,
                forall|a: int, b: int| 0 <= a < b < n ==> sorted@[a].idx != sorted@[b].idx,
                forall|a: int, b: int| 0 <= a < b < n ==> entry_le(sorted@[a], sorted@[b]),
                forall|a: int| 0 <= a < n ==> (#[trigger] sorted@[a]).pri == items@[sorted@[a].idx as int].priority,
            decreases n - k,
        {
            r.push(sorted[k].idx);
            k += 1;
        }
        proof {
            assert forall|a: int| 0 <= a < r@.len() implies (r@[a] as nat) < n as nat by {
                assert(r@[a] == sorted@[a].idx);
            }
            assert forall|a: int, b: int| 0 <= a < b < r@.len() implies r@[a] != r@[b] by {
                assert(r@[a] == sorted@[a].idx);
                assert(r@[b] == sorted@[b].idx);
            }
            assert forall|a: int, b: int|
                0 <= a < b < r@.len() implies items@[r@[a] as int].priority <= items@[r@[b]
                as int].priority by {
                assert(entry_le(sorted@[a], sorted@[b]));
                assert(sorted@[a].pri == items@[sorted@[a].idx as int].priority);
                assert(sorted@[b].pri == items@[sorted@[b].idx as int].priority);
                assert(r@[a] == sorted@[a].idx);
                assert(r@[b] == sorted@[b].idx);
            }
        }
        r
    }
}

impl Policy for Rfc2782 {
    type CacheItem = ParsedRecord;

    open spec fn uri_view(v: ParsedRecordView) -> EndpointView {
        v.uri
    }

    open spec fn built_items(
        records: Seq<SrvRecordView>,
        scheme: Scheme,
        path: Seq<char>,
        allowed: Option<Seq<HostView>>,
    ) -> Seq<ParsedRecordView> {
        records.filter_map(
            |r: SrvRecordView|
                match crate::endpoint::candidate_view(r, scheme, path, allowed) {
                    Some(_) => Some(parsed_record_view(r, scheme, path)),
                    None => None,
                },
        )
    }

    fn refresh_cache(
        &self,
        records: &Vec<SrvRecord>,
        valid_until: u64,
        scheme: Scheme,
        path_prefix: &String,
        allowed: &Option<Vec<Host>>,
    ) -> (r: Cache<ParsedRecord>) {
        let ghost recs_v = crate::views_of(records@);
        let ghost allowed_v = allow_list_views(*allowed);
        let ghost f = |rv: SrvRecordView|
            match crate::endpoint::candidate_view(rv, scheme, path_prefix@, allowed_v) {
                Some(_) => Some(parsed_record_view(rv, scheme, path_prefix@)),
                None => None,
            };
        let mut out: Vec<ParsedRecord> = Vec::new();
        let mut i: usize = 0;
        while i < records.len()
            invariant
                i <= records.len(),
                recs_v == crate::views_of(records@),
                allowed_v == allow_list_views(*allowed),
                f == (|rv: SrvRecordView|
                    match crate::endpoint::candidate_view(rv, scheme, path_prefix@, allowed_v) {
                        Some(_) => Some(parsed_record_view(rv, scheme, path_prefix@)),
                        None => None,
                    }),
                crate::views_of(out@) == recs_v.take(i as int).filter_map(f),
            decreases records.len() - i,
        {
            proof {
                recs_v.lemma_filter_map_take_succ(f, i as int);
            }
            let record = &records[i];
            match record.parse(scheme, path_prefix) {
                Some(endpoint) => {
                    let pass = match allowed {
                        None => true,
                        Some(list) => crate::host::host_allowed(&endpoint.host, list),
                    };
                    if pass {
                        out.push(ParsedRecord::new(record, endpoint));
                        proof {
                            assert(crate::views_of(out@) =~= recs_v.take(i + 1).filter_map(f));
                        }
                    } else {
                        proof {
                            assert(f(recs_v[i as int]) is None);
                            assert(crate::views_of(out@) =~= recs_v.take(i + 1).filter_map(f));
                        }
                    }
                },
                None => {
                    proof {
                        assert(f(recs_v[i as int]) is None);
                        assert(crate::views_of(out@) =~= recs_v.take(i + 1).filter_map(f));
                    }
                },
            }
            i += 1;
        }
        proof {
            assert(recs_v.take(records@.len() as int) =~= recs_v);
        }
        Cache::new(out, valid_until)
    }

    fn order(&self, items: &Vec<ParsedRecord>) -> (r: Vec<usize>) {
        self.ordered_indices(items)
    }

    fn cache_item_to_uri(item: &ParsedRecord) -> (r: &Endpoint) {
        &item.uri
    }

    fn note_success(&mut self, uri: &Endpoint) {
    }

    fn note_failure(&mut self, uri: &Endpoint) {
    }
}

} // verus!
