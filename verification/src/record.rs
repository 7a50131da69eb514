//! SRV-style records: the raw material a resolver hands back.

use vstd::prelude::*;

verus! {

/// Mathematical form of a [`SrvRecord`].
pub struct SrvRecordView {
    /// The target host name, as the resolver spelled it.
    pub target: Seq<char>,
    /// The port the service listens on.
    pub port: u16,
    /// The record's priority; a lower value is preferred.
    pub priority: u16,
    /// The record's weight among records of equal priority.
    pub weight: u16,
}

/// One SRV-style record: a target host name with its port, priority and
/// weight. Immutable once produced by a resolver.
#[derive(Debug)]
pub struct SrvRecord {
    /// The target host name, as the resolver spelled it.
    pub target: String,
    /// The port the service listens on.
    pub port: u16,
    /// The record's priority; a lower value is preferred.
    pub priority: u16,
    /// The record's weight among records of equal priority.
    pub weight: u16,
}

impl View for SrvRecord {
    type V = SrvRecordView;

    open spec fn view(&self) -> SrvRecordView {
        SrvRecordView { target: self.target@, port: self.port, priority: self.priority, weight: self.weight }
    }
}

impl SrvRecord {
    /// Builds a record from its four fields.
    pub fn new(target: String, port: u16, priority: u16, weight: u16) -> (r: SrvRecord)
        ensures
            r@ == (SrvRecordView { target: target@, port, priority, weight }),
    {
        SrvRecord { target, port, priority, weight }
    }
}

} // verus!
