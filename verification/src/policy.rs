//! Connection and retry policy: platform-tuned timeouts, the transient-error
//! classification of the bus-mediated connector, and the bounded-retry
//! decisions of the read loop and the characteristic locator.

use vstd::prelude::*;

use crate::text::contains_seq;
use crate::text::str_contains;

verus! {

/// Bound on one Bluetooth operation on a bus-mediated stack, in milliseconds.
pub const BUS_OPERATION_TIMEOUT_MS: u64 = 30000;

/// Settling delay between bus-mediated operations, in milliseconds.
pub const OPERATION_DELAY_MS: u64 = 300;

/// Settling delay after a bus-mediated connect, in milliseconds.
pub const POST_CONNECT_DELAY_MS: u64 = 1000;

/// Best-effort bound on pairing, in milliseconds.
pub const PAIR_TIMEOUT_MS: u64 = 15000;

/// Attempts allowed for service discovery and characteristic resolution.
pub const MAX_RETRIES: u32 = 5;

/// Wait between retry attempts and before reconnecting, in milliseconds.
pub const RECONNECT_DELAY_MS: u64 = 2000;

/// Consecutive stream errors tolerated before the read loop gives up.
pub const MAX_CONSECUTIVE_ERRORS: u32 = 3;

/// The host platform, as detected at startup.
#[derive(Debug, Clone, Copy, PartialEq, Eq, Structural)]
pub enum Platform {
    /// Bluetooth mediated by an inter-process bus; slow to initialize.
    Linux,
    /// Direct desktop Bluetooth stack.
    Windows,
    /// Direct desktop Bluetooth stack.
    MacOs,
}

/// Whether the platform reaches Bluetooth through a slow inter-process bus,
/// which asks for longer timeouts and more aggressive retry.
pub fn uses_bus_mediated_stack(p: Platform) -> (r: bool)
    ensures
        r == (p == Platform::Linux),
{
    match p {
        Platform::Linux => true,
        Platform::Windows => false,
        Platform::MacOs => false,
    }
}

/// How long the availability check waits for the adapter to become usable.
pub fn availability_check_timeout_ms(p: Platform) -> (r: u64)
    ensures
        p == Platform::Linux ==> r == 10000,
        p == Platform::Windows ==> r == 3000,
        p == Platform::MacOs ==> r == 2000,
{
    match p {
        Platform::Linux => 10000,
        Platform::Windows => 3000,
        Platform::MacOs => 2000,
    }
}

/// How long acquiring the adapter for use waits for it to become usable:
/// bounded only on a bus-mediated stack.
pub fn adapter_wait_timeout_ms(p: Platform) -> (r: Option<u64>)
    ensures
        p == Platform::Linux ==> r == Some(BUS_OPERATION_TIMEOUT_MS),
        p != Platform::Linux ==> r is None,
{
    match p {
        Platform::Linux => Some(BUS_OPERATION_TIMEOUT_MS),
        Platform::Windows => None,
        Platform::MacOs => None,
    }
}

/// What waiting for the adapter came to.
pub enum AdapterWaitOutcome {
    /// No adapter exists on this host.
    NoAdapter,
    /// The adapter reported itself usable within the window.
    Ready,
    /// The adapter reported an error.
    Failed(String),
    /// The window elapsed first.
    TimedOut,
}

/// The availability check never fails: only an adapter that became usable
/// counts as available; absence, an error and a timeout all read as false.
pub fn adapter_available(outcome: &AdapterWaitOutcome) -> (r: bool)
    ensures
        r == (outcome is Ready),
{
    match outcome {
        AdapterWaitOutcome::Ready => true,
        AdapterWaitOutcome::NoAdapter => false,
        AdapterWaitOutcome::Failed(_) => false,
        AdapterWaitOutcome::TimedOut => false,
    }
}

/// Error texts that a bus-mediated stack emits for link-layer races which an
/// idempotent retry masks: the device vanished mid-discovery, was not found
/// yet, or the link timed out at the page level.
pub open spec fn spec_is_transient(m: Seq<char>) -> bool {
    contains_seq(m, "not found"@) || contains_seq(m, "removed"@) || contains_seq(
        m,
        "Page Timeout"@,
    )
}

/// Classifies a service-discovery error message as retryable or fatal.
pub fn is_transient_discovery_error(msg: &str) -> (r: bool)
    ensures
        r == spec_is_transient(msg@),
{
    str_contains(msg, "not found") || str_contains(msg, "removed") || str_contains(
        msg,
        "Page Timeout",
    )
}

/// Outcome of one bounded service-discovery attempt.
pub enum DiscoveryAttemptOutcome {
    /// Discovery returned the services.
    Succeeded,
    /// Discovery failed with this error message.
    Failed(String),
    /// The bound on the operation elapsed first.
    TimedOut,
}

/// What the connector does after one service-discovery attempt.
#[derive(Debug, Clone, Copy, PartialEq, Eq, Structural)]
pub enum RetryDecision {
    /// Discovery succeeded: the connect step is done.
    Proceed,
    /// A transient failure: wait the reconnect delay and try again.
    RetryAfterDelay,
    /// A failure no retry will mask: give up the connect step.
    Abort,
}

/// Decision of the bus-mediated connector after one service-discovery
/// attempt: success proceeds, a timeout or a transient error is retried, and
/// anything else is fatal.
pub fn discovery_retry_decision(outcome: &DiscoveryAttemptOutcome) -> (d: RetryDecision)
    ensures
        outcome is Succeeded ==> d == RetryDecision::Proceed,
        outcome is TimedOut ==> d == RetryDecision::RetryAfterDelay,
        outcome matches DiscoveryAttemptOutcome::Failed(m) ==> d == (if spec_is_transient(m@) {
            RetryDecision::RetryAfterDelay
        } else {
            RetryDecision::Abort
        }),
{
    match outcome {
        DiscoveryAttemptOutcome::Succeeded => RetryDecision::Proceed,
        DiscoveryAttemptOutcome::TimedOut => RetryDecision::RetryAfterDelay,
        DiscoveryAttemptOutcome::Failed(m) => {
            if is_transient_discovery_error(m.as_str()) {
                RetryDecision::RetryAfterDelay
            } else {
                RetryDecision::Abort
            }
        },
    }
}

/// Whether the characteristic locator may try again after this many attempts.
pub fn attempts_remaining(attempt: u32) -> (r: bool)
    ensures
        r == (attempt < MAX_RETRIES),
{
    attempt < MAX_RETRIES
}

/// Whether the read loop retries after this many consecutive errors, or gives
/// up the session.
pub fn stream_retry_decision(consecutive_errors: u32) -> (retry: bool)
    ensures
        retry == (consecutive_errors < MAX_CONSECUTIVE_ERRORS),
{
    consecutive_errors < MAX_CONSECUTIVE_ERRORS
}

} // verus!
