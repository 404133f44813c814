use vstd::prelude::*;

verus! {

/// Bytes the host runtime reserves at the front of every record account for
/// the header that identifies the record's type.
pub const RECORD_HEADER_SPACE: u64 = 8;

/// Serialized size of the one data field, the 8-bit counter.
pub const COUNT_SPACE: u64 = 1;

/// Exact byte size the host runtime must allocate for a counter record:
/// the type header followed by the counter itself.
pub const PING_SPACE: u64 = RECORD_HEADER_SPACE + COUNT_SPACE;

/// The persistent state record: a single 8-bit unsigned counter.
///
/// This is the sole entity the program stores. Its arithmetic never wraps:
/// an increment at 255 or a decrement at 0 fails the whole invocation.
#[derive(Clone, Copy, Debug, PartialEq, Eq, Structural)]
pub struct Ping {
    pub count: u8,
}

impl Ping {
    /// The state a freshly created record holds: the counter at zero.
    pub open spec fn spec_default() -> Ping {
        Ping { count: 0 }
    }
}

impl Default for Ping {
    /// A new record starts with the counter at its default value, zero.
    fn default() -> (p: Ping)
        ensures
            p == Ping::spec_default(),
    {
        Ping { count: 0 }
    }
}

} // verus!
