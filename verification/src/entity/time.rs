//! Points in time.

use vstd::prelude::*;

verus! {

/// A point in time: seconds since the Unix epoch, and the nanoseconds since
/// that second began.
#[derive(Debug, Clone, Copy, PartialEq, Eq, Structural)]
pub struct UtcTime {
    pub seconds: i64,
    pub nanos: u32,
}

} // verus!
