//! Client library for communicating with services located by DNS SRV-style
//! records.
//!
//! A lookup for a service name yields a set of records, each carrying a
//! target host, port, priority and weight. This crate turns those records
//! into candidate endpoints (optionally restricted by an allow-list of
//! permitted hosts), caches them for a bounded validity window, orders them
//! according to a selection policy, and drives a caller-supplied operation
//! against the candidates in that order until one succeeds or every
//! candidate, including a static fallback endpoint, has failed.

use vstd::prelude::*;
use vstd::string::StringSliceAdditionalSpecFns;

pub mod cache;
mod client;
pub mod endpoint;
pub mod host;
pub mod policy;
pub mod record;
pub mod resolver;

pub use client::{Error, SrvClient};

verus! {

/// The views of the elements of a sequence, in order.
pub open spec fn views_of<T: View>(s: Seq<T>) -> Seq<T::V> {
    s.map_values(|x: T| x@)
}

/// A service name usable in examples and smoke tests.
pub const EXAMPLE_SRV: &'static str = "_detsys_ids._tcp.install.determinate.systems.";

/// The fallback endpoint that goes with [`EXAMPLE_SRV`].
pub fn example_fallback() -> (r: endpoint::Endpoint)
    ensures
        r@.scheme is Https,
        r@.host == host::HostView::Domain("install.determinate.systems.".spec_bytes()),
        r@.port == 443,
        r@.path == "/"@,
{
    endpoint::Endpoint::new(
        endpoint::Scheme::Https,
        host::Host::domain("install.determinate.systems."),
        443,
        "/".to_owned(),
    )
}

} // verus!
