use vstd::prelude::*;

verus! {

/// How long a stored session is meant to live. The store records it and lets
/// it be replaced; it never acts on it.
#[derive(Clone, Copy, Debug, PartialEq, Eq, Structural)]
pub struct Ttl {
    pub seconds: i64,
    pub nanoseconds: i32,
}

impl Ttl {
    /// A time-to-live of whole seconds.
    pub fn from_seconds(seconds: i64) -> (ttl: Ttl)
        ensures
            ttl.seconds == seconds,
            ttl.nanoseconds == 0,
    {
        Ttl { seconds, nanoseconds: 0 }
    }
}

} // verus!
