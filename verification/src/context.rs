//! The execution context a transition runs under: the block time the
//! host reports and the identity of the caller. These are plain-value
//! models of what the host runtime hands to each invocation.

use vstd::prelude::*;
use vstd::string::*;
use crate::decimal::{dec_str, dec_str_pad9, u64_to_dec, u64_to_dec_pad9};

verus! {

pub const NANOS_PER_SECOND: u64 = 1_000_000_000;

/// A point in time, in nanoseconds since the epoch, as the host's block
/// header carries it.
#[derive(Clone, Copy, Debug, PartialEq, Eq, Structural)]
pub struct Timestamp {
    pub nanos: u64,
}

/// The canonical rendering of a timestamp: whole seconds, a dot, then
/// the subsecond nanoseconds zero-padded to nine digits.
pub open spec fn timestamp_display(nanos: u64) -> Seq<char> {
    dec_str((nanos / NANOS_PER_SECOND) as nat) + seq!['.'] + dec_str_pad9(
        (nanos % NANOS_PER_SECOND) as nat,
    )
}

impl Timestamp {
    pub fn from_nanos(nanos: u64) -> (t: Timestamp)
        ensures
            t.nanos == nanos,
    {
        Timestamp { nanos }
    }

    /// The timestamp's whole seconds.
    pub fn seconds(&self) -> (s: u64)
        ensures
            s == self.nanos / NANOS_PER_SECOND,
    {
        self.nanos / NANOS_PER_SECOND
    }

    /// The nanoseconds within the current second.
    pub fn subsec_nanos(&self) -> (s: u64)
        ensures
            s == self.nanos % NANOS_PER_SECOND,
    {
        self.nanos % NANOS_PER_SECOND
    }

    /// Renders the timestamp as `<seconds>.<nanos, nine digits>`.
    pub fn display_string(&self) -> (r: String)
        ensures
            r@ == timestamp_display(self.nanos),
    {
        let mut r = u64_to_dec(self.nanos / NANOS_PER_SECOND);
        r.append(".");
        let frac = u64_to_dec_pad9(self.nanos % NANOS_PER_SECOND);
        let r = r.concat(frac.as_str());
        proof {
            reveal_strlit(".");
            assert(r@ =~= timestamp_display(self.nanos));
        }
        r
    }
}

/// The block this invocation executes in.
#[derive(Clone, Copy, Debug, PartialEq, Eq, Structural)]
pub struct BlockInfo {
    pub time: Timestamp,
}

/// Per-invocation environment the host supplies.
#[derive(Clone, Copy, Debug, PartialEq, Eq, Structural)]
pub struct Env {
    pub block: BlockInfo,
}

/// The caller of the current invocation, as authenticated by the host.
pub struct MessageInfo {
    pub sender: String,
}

} // verus!
