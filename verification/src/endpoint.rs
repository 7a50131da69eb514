//! Candidate endpoints: fully-formed network addresses derived from records.
//!
//! An endpoint is a scheme, a host, a port and a path prefix. Turning a
//! record's target into a host is delegated to the `url` crate; everything
//! downstream of that call is the library's own, verified logic.

use vstd::prelude::*;
use vstd::string::StringSliceAdditionalSpecFns;
use crate::host::{allowed_by, Host, HostView};
use crate::record::{SrvRecord, SrvRecordView};

verus! {

/// The transport scheme of an endpoint.
#[derive(Clone, Copy, Debug, PartialEq, Eq, Structural)]
pub enum Scheme {
    /// Plain HTTP.
    Http,
    /// HTTP over an encrypted transport; the default.
    Https,
}

impl Scheme {
    /// The scheme as it is written in front of an address.
    pub fn as_str(&self) -> (r: &'static str)
        ensures
            *self is Http ==> r@ == "http"@,
            *self is Https ==> r@ == "https"@,
    {
        match self {
            Scheme::Http => "http",
            Scheme::Https => "https",
        }
    }
}

/// Mathematical form of an [`Endpoint`].
pub struct EndpointView {
    /// The transport scheme.
    pub scheme: Scheme,
    /// The host.
    pub host: HostView,
    /// The port.
    pub port: u16,
    /// The path prefix.
    pub path: Seq<char>,
}

/// A fully-formed network address: scheme, host, port and path prefix.
#[derive(Debug)]
pub struct Endpoint {
    /// The transport scheme.
    pub scheme: Scheme,
    /// The host.
    pub host: Host,
    /// The port.
    pub port: u16,
    /// The path prefix.
    pub path: String,
}

impl View for Endpoint {
    type V = EndpointView;

    open spec fn view(&self) -> EndpointView {
        EndpointView { scheme: self.scheme, host: self.host@, port: self.port, path: self.path@ }
    }
}

impl Endpoint {
    /// Builds an endpoint from its four parts.
    pub fn new(scheme: Scheme, host: Host, port: u16, path: String) -> (r: Endpoint)
        ensures
            r@ == (EndpointView { scheme, host: host@, port, path: path@ }),
    {
        Endpoint { scheme, host, port, path }
    }
}

impl Clone for Endpoint {
    /// Cloning an endpoint keeps its value.
    fn clone(&self) -> (r: Self)
        ensures
            r@ == self@,
    {
        Endpoint {
            scheme: self.scheme,
            host: self.host.clone(),
            port: self.port,
            path: self.path.clone(),
        }
    }
}

impl PartialEq for Endpoint {
    fn eq(&self, other: &Self) -> (r: bool) {
        self.scheme == other.scheme && self.host == other.host && self.port == other.port
            && self.path == other.path
    }
}

impl Eq for Endpoint {

}

impl vstd::std_specs::cmp::PartialEqSpecImpl for Endpoint {
    open spec fn obeys_eq_spec() -> bool {
        true
    }

    open spec fn eq_spec(&self, other: &Self) -> bool {
        self@ == other@
    }
}

/// What `url::Host::parse` makes of a target name: the host it parses it to,
/// or nothing where it rejects the name. The result depends on the characters
/// of the name alone.
pub uninterp spec fn parsed_host(target: Seq<char>) -> Option<HostView>;

/// Relies on `url::Host::parse`: it parses a host name into an IPv4 address,
/// an IPv6 address or an ASCII domain, depending only on the name, and
/// rejects malformed names.
#[verifier::external_body]
fn parse_host(target: &str) -> (r: Option<Host>)
    ensures
        r is Some <==> parsed_host(target@) is Some,
        r is Some ==> r.unwrap()@ == parsed_host(target@).unwrap(),
{
    match url::Host::parse(target) {
        Ok(url::Host::Ipv4(a)) => Some(Host::V4(a.into())),
        Ok(url::Host::Ipv6(a)) => Some(Host::V6(a.into())),
        Ok(url::Host::Domain(d)) => Some(Host::Domain(d.into_bytes())),
        Err(_) => None,
    }
}

/// The endpoint a record parses to, under a scheme and path prefix, assuming
/// its target parses to a host at all.
pub open spec fn endpoint_of_record(r: SrvRecordView, scheme: Scheme, path: Seq<char>) -> EndpointView {
    EndpointView { scheme, host: parsed_host(r.target).unwrap(), port: r.port, path }
}

impl SrvRecord {
    /// Parses a record into a candidate endpoint with the given scheme and
    /// path prefix, or nothing where the record's target is malformed.
    pub fn parse(&self, scheme: Scheme, path_prefix: &String) -> (r: Option<Endpoint>)
        ensures
            r is Some <==> parsed_host(self.target@) is Some,
            r is Some ==> r.unwrap()@ == endpoint_of_record(self@, scheme, path_prefix@),
    {
        match parse_host(self.target.as_str()) {
            Some(host) => Some(Endpoint { scheme, host, port: self.port, path: path_prefix.clone() }),
            None => None,
        }
    }
}

/// The views of an optional allow-list.
pub open spec fn allow_list_views(allowed: Option<Vec<Host>>) -> Option<Seq<HostView>> {
    match allowed {
        Some(list) => Some(crate::views_of(list@)),
        None => None,
    }
}

/// The candidate endpoint one record contributes: nothing where its target is
/// malformed or where a configured allow-list does not permit its host.
pub open spec fn candidate_view(
    r: SrvRecordView,
    scheme: Scheme,
    path: Seq<char>,
    allowed: Option<Seq<HostView>>,
) -> Option<EndpointView> {
    match parsed_host(r.target) {
        None => None,
        Some(h) => {
            let pass = match allowed {
                None => true,
                Some(list) => allowed_by(h, list),
            };
            if pass {
                Some(endpoint_of_record(r, scheme, path))
            } else {
                None
            }
        },
    }
}

/// The candidate endpoints of a record list, in record order: each record
/// contributes its candidate or is dropped.
pub open spec fn candidate_endpoints(
    records: Seq<SrvRecordView>,
    scheme: Scheme,
    path: Seq<char>,
    allowed: Option<Seq<HostView>>,
) -> Seq<EndpointView> {
    records.filter_map(|r: SrvRecordView| candidate_view(r, scheme, path, allowed))
}

/// Law: every candidate endpoint a record list yields under a configured
/// allow-list has a host that some allow-list entry permits, and carries the
/// configured scheme and path prefix.
pub proof fn lemma_candidates_conform(
    records: Seq<SrvRecordView>,
    scheme: Scheme,
    path: Seq<char>,
    list: Seq<HostView>,
)
    ensures
        forall|i: int|
            0 <= i < candidate_endpoints(records, scheme, path, Some(list)).len() ==> {
                let e = #[trigger] candidate_endpoints(records, scheme, path, Some(list))[i];
                &&& allowed_by(e.host, list)
                &&& e.scheme == scheme
                &&& e.path == path
            },
{
    let out = candidate_endpoints(records, scheme, path, Some(list));
    let f = |r: SrvRecordView| candidate_view(r, scheme, path, Some(list));
    assert forall|i: int| 0 <= i < out.len() implies {
        let e = #[trigger] out[i];
        &&& allowed_by(e.host, list)
        &&& e.scheme == scheme
        &&& e.path == path
    } by {
        assert(out.contains(out[i]));
        records.lemma_filter_map_contains(f, out[i]);
        let t = choose|t: SrvRecordView| #[trigger] records.contains(t) && f(t) == Some(out[i]);
        assert(candidate_view(t, scheme, path, Some(list)) == Some(out[i]));
    }
}

/// Turns records into candidate endpoints in record order, dropping each
/// record whose target is malformed and, where an allow-list is configured,
/// each record whose host it does not permit.
pub fn uri_candidates_from_records(
    records: &Vec<SrvRecord>,
    scheme: Scheme,
    path_prefix: &String,
    allowed: &Option<Vec<Host>>,
) -> (r: Vec<Endpoint>)
    ensures
        crate::views_of(r@) == candidate_endpoints(
            crate::views_of(records@),
            scheme,
            path_prefix@,
            allow_list_views(*allowed),
        ),
{
    let ghost recs_v = crate::views_of(records@);
    let ghost allowed_v = allow_list_views(*allowed);
    let ghost f = |rv: SrvRecordView| candidate_view(rv, scheme, path_prefix@, allowed_v);
    let mut out: Vec<Endpoint> = Vec::new();
    let mut i: usize = 0;
    while i < records.len()
        invariant
            i <= records.len(),
            recs_v == crate::views_of(records@),
            allowed_v == allow_list_views(*allowed),
            f == (|rv: SrvRecordView| candidate_view(rv, scheme, path_prefix@, allowed_v)),
            crate::views_of(out@) == recs_v.take(i as int).filter_map(f),
        decreases records.len() - i,
    {
        proof {
            recs_v.lemma_filter_map_take_succ(f, i as int);
        }
        let record = &records[i];
        match record.parse(scheme, path_prefix) {
            Some(endpoint) => {
                let pass = match allowed {
                    None => true,
                    Some(list) => crate::host::host_allowed(&endpoint.host, list),
                };
                if pass {
                    out.push(endpoint);
                    proof {
                        assert(crate::views_of(out@) =~= recs_v.take(i + 1).filter_map(f));
                    }
                } else {
                    proof {
                        assert(f(recs_v[i as int]) is None);
                        assert(crate::views_of(out@) =~= recs_v.take(i + 1).filter_map(f));
                    }
                }
            },
            None => {
                proof {
                    assert(f(recs_v[i as int]) is None);
                    assert(crate::views_of(out@) =~= recs_v.take(i + 1).filter_map(f));
                }
            },
        }
        i += 1;
    }
    proof {
        assert(recs_v.take(records@.len() as int) =~= recs_v);
    }
    out
}

} // verus!
