//! Timeouts of pending requests.

use vstd::prelude::*;
use vstd::string::StringExecFns;
use crate::datetime::{decimal, decimal_string};

verus! {

/// The timeout of a request that names none, in seconds.
pub const DEFAULT_TIMEOUT_SECS: u64 = 30;

/// Where a request with a timeout stands.
#[derive(Debug, Clone, Copy, PartialEq, Eq, Structural)]
pub enum TimeoutStatus {
    /// Still running, within its time.
    InProgress,
    /// Finished within its time.
    Completed,
    /// Ran out of time.
    TimedOut,
}

impl TimeoutStatus {
    /// Whether a request has run out of time: it was found so before, or it
    /// has been running for longer than its timeout.
    pub open spec fn spec_is_timed_out(marked: bool, elapsed_nanos: int, timeout_nanos: int) -> bool {
        marked || elapsed_nanos > timeout_nanos
    }

    /// Where a request stands. Running out of time wins over finishing: a
    /// result that arrives late does not count.
    pub open spec fn spec_of(
        marked: bool,
        elapsed_nanos: int,
        timeout_nanos: int,
        ready: bool,
    ) -> TimeoutStatus {
        if Self::spec_is_timed_out(marked, elapsed_nanos, timeout_nanos) {
            TimeoutStatus::TimedOut
        } else if ready {
            TimeoutStatus::Completed
        } else {
            TimeoutStatus::InProgress
        }
    }

    /// Whether a request has run out of time, where `marked` says that it
    /// was found so before, and the request has been running for
    /// `elapsed_nanos` with a timeout of `timeout_nanos`.
    pub fn is_timed_out(marked: bool, elapsed_nanos: u128, timeout_nanos: u128) -> (r: bool)
        ensures
            r == Self::spec_is_timed_out(marked, elapsed_nanos as int, timeout_nanos as int),
    {
        marked || elapsed_nanos > timeout_nanos
    }

    /// Where a request stands, `ready` saying whether its result has
    /// arrived.
    pub fn of(marked: bool, elapsed_nanos: u128, timeout_nanos: u128, ready: bool) -> (r:
        TimeoutStatus)
        ensures
            r == Self::spec_of(marked, elapsed_nanos as int, timeout_nanos as int, ready),
    {
        if Self::is_timed_out(marked, elapsed_nanos, timeout_nanos) {
            TimeoutStatus::TimedOut
        } else if ready {
            TimeoutStatus::Completed
        } else {
            TimeoutStatus::InProgress
        }
    }
}

/// The error text of a request that ran out of time: with the timeout in
/// seconds when that is first found, without it from then on.
pub open spec fn timeout_text(marked: bool, timeout_secs: nat) -> Seq<char> {
    if marked {
        "请求超时"@
    } else {
        "请求超时 (超过 "@ + decimal(timeout_secs) + " 秒)"@
    }
}

/// The error text of a request that ran out of time, `marked` saying that it
/// was found so before.
pub fn timeout_message(marked: bool, timeout_secs: u64) -> (r: String)
    ensures
        r@ == timeout_text(marked, timeout_secs as nat),
{
    if marked {
        String::from_str("请求超时")
    } else {
        let mut r = String::from_str("请求超时 (超过 ");
        r.append(decimal_string(timeout_secs).as_str());
        r.append(" 秒)");
        r
    }
}

} // verus!
