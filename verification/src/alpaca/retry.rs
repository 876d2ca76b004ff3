//! Retry and polling policy of the Alpaca REST client.
//!
//! The client sends a request, classifies what came back and asks
//! [`retry_action`] what to do next; it polls an order until
//! [`is_terminal_order_status`] holds or the attempts run out.

use crate::text::str_equal;
use vstd::prelude::*;

verus! {

/// Seconds between two polls of an order's status.
pub const FILL_POLL_INTERVAL_SECS: u64 = 2;
/// Number of polls before the last known state is returned.
pub const FILL_POLL_MAX_ATTEMPTS: u32 = 15;
/// Retries after the first attempt for transient failures.
pub const MAX_RETRIES: u32 = 3;

/// HTTP statuses worth retrying: 429, 502, 503 and 504.
pub open spec fn transient_status(status: u16) -> bool {
    status == 429 || status == 502 || status == 503 || status == 504
}

/// Whether an HTTP status is a transient failure worth retrying.
pub fn is_transient(status: u16) -> (b: bool)
    ensures
        b == transient_status(status),
{
    status == 429 || status == 502 || status == 503 || status == 504
}

/// What a single attempt of a request produced.
#[derive(Debug, Clone, Copy, PartialEq, Eq, Structural)]
pub enum RequestOutcome {
    /// The server answered with this HTTP status.
    Status(u16),
    /// The request failed before an answer; `timeout_or_connect` tells a
    /// time-out or connection failure from other transport errors.
    NetworkError { timeout_or_connect: bool },
}

/// What the client does after an attempt.
#[derive(Debug, Clone, Copy, PartialEq, Eq, Structural)]
pub enum RetryAction {
    /// Success: decode the body and return it.
    Deliver,
    /// Wait `delay_ms` milliseconds, then try again.
    Retry { delay_ms: u64 },
    /// Give up with the error of this attempt.
    Fail,
}

/// The back-off before retry number `attempt + 1`: `500 · 2^attempt` ms.
pub open spec fn backoff_ms(attempt: nat) -> nat
    decreases attempt,
{
    if attempt == 0 {
        500
    } else {
        2 * backoff_ms((attempt - 1) as nat)
    }
}

/// The decision after attempt number `attempt` (counted from 0).
pub open spec fn retry_decision(attempt: nat, outcome: RequestOutcome) -> RetryAction {
    let retryable = match outcome {
        RequestOutcome::Status(s) => transient_status(s),
        RequestOutcome::NetworkError { timeout_or_connect } => timeout_or_connect,
    };
    if (outcome matches RequestOutcome::Status(s) && 200 <= s <= 299) {
        RetryAction::Deliver
    } else if retryable && attempt < MAX_RETRIES {
        RetryAction::Retry { delay_ms: backoff_ms(attempt) as u64 }
    } else {
        RetryAction::Fail
    }
}

/// Decide what follows attempt `attempt` (0 to [`MAX_RETRIES`]): deliver a
/// 2xx answer; retry a transient status or a time-out/connection error
/// while retries remain, after `500 · 2^attempt` ms; otherwise fail.
pub fn retry_action(attempt: u32, outcome: RequestOutcome) -> (r: RetryAction)
    requires
        attempt <= MAX_RETRIES,
    ensures
        r == retry_decision(attempt as nat, outcome),
{
    let retryable = match outcome {
        RequestOutcome::Status(s) => {
            if 200 <= s && s <= 299 {
                return RetryAction::Deliver;
            }
            is_transient(s)
        },
        RequestOutcome::NetworkError { timeout_or_connect } => timeout_or_connect,
    };
    if retryable && attempt < MAX_RETRIES {
        let mut delay: u64 = 500;
        let mut k: u32 = 0;
        while k < attempt
            invariant
                k <= attempt < MAX_RETRIES,
                delay == backoff_ms(k as nat),
                delay <= 500 * 4,
            decreases attempt - k,
        {
            proof {
                reveal_with_fuel(backoff_ms, 3);
            }
            delay = 2 * delay;
            k = k + 1;
            assert(delay == backoff_ms(k as nat));
            assert(k <= 2);
            proof {
                reveal_with_fuel(backoff_ms, 3);
            }
        }
        RetryAction::Retry { delay_ms: delay }
    } else {
        RetryAction::Fail
    }
}

/// Law: the client never retries after its last attempt, so a request is
/// sent at most `MAX_RETRIES + 1` times, and each back-off doubles the one
/// before.
pub proof fn lemma_retries_bounded(attempt: nat, outcome: RequestOutcome)
    ensures
        attempt >= MAX_RETRIES ==> !(retry_decision(attempt, outcome) is Retry),
        backoff_ms(attempt + 1) == 2 * backoff_ms(attempt),
        backoff_ms(attempt) >= 500,
    decreases attempt,
{
    if attempt > 0 {
        lemma_retries_bounded((attempt - 1) as nat, outcome);
    }
}

/// Law: a successful answer is delivered at every attempt, and a
/// non-transient error status is never retried.
pub proof fn lemma_success_delivered_errors_final(attempt: nat, status: u16)
    ensures
        200 <= status <= 299 ==> retry_decision(attempt, RequestOutcome::Status(status)) == RetryAction::Deliver,
        !(200 <= status <= 299) && !transient_status(status) ==> retry_decision(
            attempt,
            RequestOutcome::Status(status),
        ) == RetryAction::Fail,
{
}

/// Order states after which the order no longer changes.
pub open spec fn terminal_status(status: Seq<char>) -> bool {
    status == "filled"@ || status == "canceled"@ || status == "expired"@ || status == "rejected"@
        || status == "done_for_day"@
}

/// Whether polling an order can stop: it is filled, canceled, expired,
/// rejected or done for the day.
pub fn is_terminal_order_status(status: &str) -> (b: bool)
    ensures
        b == terminal_status(status@),
{
    str_equal(status, "filled") || str_equal(status, "canceled") || str_equal(status, "expired")
        || str_equal(status, "rejected") || str_equal(status, "done_for_day")
}

} // verus!
