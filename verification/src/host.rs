//! Hosts of candidate endpoints, and the allow-list check applied to them.
//!
//! A host is either an IPv4 address, an IPv6 address, or a domain name held
//! as its bytes. An allow-list entry of the same shape permits a candidate
//! host: IP addresses must match exactly and family-for-family, while a
//! domain is permitted when one allow-listed domain is a byte suffix of it.

use vstd::prelude::*;
use vstd::string::StringSliceAdditionalSpecFns;

verus! {

/// Mathematical form of a [`Host`]: what the allow-list logic reads.
pub enum HostView {
    /// An IPv4 address as its 32-bit value.
    V4(u32),
    /// An IPv6 address as its 128-bit value.
    V6(u128),
    /// A domain name as its bytes.
    Domain(Seq<u8>),
}

/// The host part of a candidate endpoint.
#[derive(Debug)]
pub enum Host {
    /// An IPv4 address as its 32-bit value.
    V4(u32),
    /// An IPv6 address as its 128-bit value.
    V6(u128),
    /// A domain name as its bytes.
    Domain(Vec<u8>),
}

impl View for Host {
    type V = HostView;

    open spec fn view(&self) -> HostView {
        match self {
            Host::V4(a) => HostView::V4(*a),
            Host::V6(a) => HostView::V6(*a),
            Host::Domain(d) => HostView::Domain(d@),
        }
    }
}

impl Host {
    /// Builds a domain host from a string slice, taken byte for byte.
    pub fn domain(name: &str) -> (r: Host)
        ensures
            r@ == HostView::Domain(name.spec_bytes()),
    {
        Host::Domain(vstd::slice::slice_to_vec(name.as_bytes()))
    }
}

impl Clone for Host {
    /// Cloning a host keeps its value.
    fn clone(&self) -> (r: Self)
        ensures
            r@ == self@,
    {
        match self {
            Host::V4(a) => Host::V4(*a),
            Host::V6(a) => Host::V6(*a),
            Host::Domain(d) => Host::Domain(d.clone()),
        }
    }
}

impl PartialEq for Host {
    fn eq(&self, other: &Self) -> (r: bool) {
        match (self, other) {
            (Host::V4(a), Host::V4(b)) => a == b,
            (Host::V6(a), Host::V6(b)) => a == b,
            (Host::Domain(a), Host::Domain(b)) => {
                let r = a == b;
                proof {
                    if r {
                        assert(a@ =~= b@);
                    }
                }
                r
            },
            _ => false,
        }
    }
}

impl Eq for Host {

}

impl vstd::std_specs::cmp::PartialEqSpecImpl for Host {
    open spec fn obeys_eq_spec() -> bool {
        true
    }

    open spec fn eq_spec(&self, other: &Self) -> bool {
        self@ == other@
    }
}

/// Holds when `suffix` is a suffix of `s`.
pub open spec fn suffix_of<A>(suffix: Seq<A>, s: Seq<A>) -> bool {
    &&& suffix.len() <= s.len()
    &&& s.subrange(s.len() - suffix.len(), s.len() as int) == suffix
}

/// Compares the tail of `s` against `suffix`, byte for byte.
pub fn bytes_end_with(s: &[u8], suffix: &[u8]) -> (r: bool)
    ensures
        r == suffix_of(suffix@, s@),
{
    if suffix.len() > s.len() {
        return false;
    }
    let off = s.len() - suffix.len();
    let mut i: usize = 0;
    while i < suffix.len()
        invariant
            suffix.len() <= s.len(),
            off == s.len() - suffix.len(),
            i <= suffix.len(),
            forall|j: int| 0 <= j < i ==> s@[off + j] == suffix@[j],
        decreases suffix.len() - i,
    {
        if s[off + i] != suffix[i] {
            proof {
                let tail = s@.subrange(s@.len() - suffix@.len(), s@.len() as int);
                assert(tail[i as int] == s@[off + i]);
            }
            return false;
        }
        i += 1;
    }
    proof {
        assert(s@.subrange(s@.len() - suffix@.len(), s@.len() as int) =~= suffix@);
    }
    true
}

/// Holds when the allow-list entry `entry` permits the candidate host `h`:
/// exactly for IP addresses, by domain suffix for domains.
pub open spec fn entry_permits(entry: HostView, h: HostView) -> bool {
    match (entry, h) {
        (HostView::V4(a), HostView::V4(b)) => a == b,
        (HostView::V6(a), HostView::V6(b)) => a == b,
        (HostView::Domain(a), HostView::Domain(b)) => suffix_of(a, b),
        _ => false,
    }
}

/// Holds when some entry of the allow-list permits `h`.
pub open spec fn allowed_by(h: HostView, allowed: Seq<HostView>) -> bool {
    exists|i: int| 0 <= i < allowed.len() && entry_permits(allowed[i], h)
}

/// Decides whether the allow-list `allowed` permits the candidate host `h`.
pub fn host_allowed(h: &Host, allowed: &Vec<Host>) -> (r: bool)
    ensures
        r == allowed_by(h@, crate::views_of(allowed@)),
{
    let ghost views = crate::views_of(allowed@);
    let mut i: usize = 0;
    while i < allowed.len()
        invariant
            i <= allowed.len(),
            views == crate::views_of(allowed@),
            forall|j: int| 0 <= j < i ==> !entry_permits(views[j], h@),
        decreases allowed.len() - i,
    {
        let permits = match (&allowed[i], h) {
            (Host::V4(a), Host::V4(b)) => *a == *b,
            (Host::V6(a), Host::V6(b)) => *a == *b,
            (Host::Domain(a), Host::Domain(b)) => bytes_end_with(b.as_slice(), a.as_slice()),
            _ => false,
        };
        if permits {
            proof {
                assert(entry_permits(views[i as int], h@));
            }
            return true;
        }
        i += 1;
    }
    false
}

} // verus!
