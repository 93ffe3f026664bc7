use heart_core::policy::adapter_available;
use heart_core::policy::adapter_wait_timeout_ms;
use heart_core::policy::AdapterWaitOutcome;
use heart_core::policy::attempts_remaining;
use heart_core::policy::availability_check_timeout_ms;
use heart_core::policy::discovery_retry_decision;
use heart_core::policy::is_transient_discovery_error;
use heart_core::policy::stream_retry_decision;
use heart_core::policy::uses_bus_mediated_stack;
use heart_core::policy::DiscoveryAttemptOutcome;
use heart_core::policy::Platform;
use heart_core::policy::RetryDecision;
use heart_core::policy::BUS_OPERATION_TIMEOUT_MS;
use heart_core::policy::MAX_CONSECUTIVE_ERRORS;
use heart_core::policy::MAX_RETRIES;

#[test]
fn bus_mediated_platform_detection() {
    assert!(uses_bus_mediated_stack(Platform::Linux));
    assert!(!uses_bus_mediated_stack(Platform::Windows));
    assert!(!uses_bus_mediated_stack(Platform::MacOs));
}

#[test]
fn availability_timeouts_are_platform_tuned() {
    assert_eq!(availability_check_timeout_ms(Platform::Linux), 10000);
    assert_eq!(availability_check_timeout_ms(Platform::Windows), 3000);
    assert_eq!(availability_check_timeout_ms(Platform::MacOs), 2000);
}

#[test]
fn adapter_wait_is_bounded_only_on_the_bus() {
    assert_eq!(adapter_wait_timeout_ms(Platform::Linux), Some(BUS_OPERATION_TIMEOUT_MS));
    assert_eq!(adapter_wait_timeout_ms(Platform::Windows), None);
    assert_eq!(adapter_wait_timeout_ms(Platform::MacOs), None);
}

#[test]
fn only_a_ready_adapter_counts_as_available() {
    assert!(adapter_available(&AdapterWaitOutcome::Ready));
    assert!(!adapter_available(&AdapterWaitOutcome::NoAdapter));
    assert!(!adapter_available(&AdapterWaitOutcome::Failed("hci error".to_string())));
    assert!(!adapter_available(&AdapterWaitOutcome::TimedOut));
}

#[test]
fn transient_error_texts_are_recognised() {
    assert!(is_transient_discovery_error("le-connection-abort-by-local: not found"));
    assert!(is_transient_discovery_error("object removed mid-discovery"));
    assert!(is_transient_discovery_error("Page Timeout (0x04)"));
    assert!(!is_transient_discovery_error("authentication failure"));
    assert!(!is_transient_discovery_error(""));
    // The match is case-sensitive, as the stack emits these texts verbatim.
    assert!(!is_transient_discovery_error("page timeout"));
}

#[test]
fn discovery_outcomes_map_to_decisions() {
    assert_eq!(
        discovery_retry_decision(&DiscoveryAttemptOutcome::Succeeded),
        RetryDecision::Proceed
    );
    assert_eq!(
        discovery_retry_decision(&DiscoveryAttemptOutcome::TimedOut),
        RetryDecision::RetryAfterDelay
    );
    assert_eq!(
        discovery_retry_decision(&DiscoveryAttemptOutcome::Failed("device not found".to_string())),
        RetryDecision::RetryAfterDelay
    );
    assert_eq!(
        discovery_retry_decision(&DiscoveryAttemptOutcome::Failed("permission denied".to_string())),
        RetryDecision::Abort
    );
}

#[test]
fn retry_budgets_are_bounded() {
    assert!(attempts_remaining(0));
    assert!(attempts_remaining(MAX_RETRIES - 1));
    assert!(!attempts_remaining(MAX_RETRIES));
    assert!(stream_retry_decision(0));
    assert!(stream_retry_decision(MAX_CONSECUTIVE_ERRORS - 1));
    assert!(!stream_retry_decision(MAX_CONSECUTIVE_ERRORS));
    assert!(!stream_retry_decision(MAX_CONSECUTIVE_ERRORS + 1));
}
