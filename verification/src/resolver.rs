//! The resolver collaborator: whatever answers SRV-style lookups.

use vstd::prelude::*;
use crate::record::SrvRecord;

verus! {

/// A resolver backend for SRV-style lookups. Implementations wrap an actual
/// resolution mechanism; nothing is promised of what they answer, so every
/// caller of the library is free to plug in its own.
pub trait SrvResolver {
    /// Lookup errors of this resolver.
    type Error;

    /// Looks the service name `srv` up: on success, the raw records in the
    /// order the backend returned them, together with the instant until
    /// which they stay valid.
    fn get_srv_records(&mut self, srv: &str) -> Result<(Vec<SrvRecord>, u64), Self::Error>;
}

} // verus!
