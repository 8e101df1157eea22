use service_supervisor::orchestrator::Plan;
use service_supervisor::report::{acknowledgement, budget_seconds, decimal_text, failure_message};
use service_supervisor::supervisor::{Conclusion, Operation, RetryBudget};

#[test]
fn numbers_in_decimal() {
    assert_eq!(decimal_text(0), "0");
    assert_eq!(decimal_text(7), "7");
    assert_eq!(decimal_text(10), "10");
    assert_eq!(decimal_text(20), "20");
    assert_eq!(decimal_text(1234567890), "1234567890");
    assert_eq!(decimal_text(u128::MAX), u128::MAX.to_string());
}

#[test]
fn bound_is_interval_times_attempts() {
    assert_eq!(budget_seconds(RetryBudget::for_operation(Operation::Start)), 20);
    assert_eq!(budget_seconds(RetryBudget::for_operation(Operation::Stop)), 10);
    assert_eq!(budget_seconds(RetryBudget { interval_seconds: 3, max_attempts: 7 }), 21);
    assert_eq!(
        budget_seconds(RetryBudget { interval_seconds: u64::MAX, max_attempts: u32::MAX }),
        (u64::MAX as u128) * (u32::MAX as u128)
    );
}

#[test]
fn timeout_names_process_and_bound() {
    let budget = RetryBudget::for_operation(Operation::Start);
    assert_eq!(
        failure_message("AuthenMngService", Conclusion::TimedOut, budget, ""),
        Some("启动进程失败： AuthenMngService （20s 内检测不到进程）".to_string())
    );
    let budget = RetryBudget { interval_seconds: 2, max_attempts: 15 };
    assert_eq!(
        failure_message("iNodeMon", Conclusion::TimedOut, budget, "ignored"),
        Some("启动进程失败： iNodeMon （30s 内检测不到进程）".to_string())
    );
}

#[test]
fn spawn_failure_names_process_and_cause() {
    let budget = RetryBudget::for_operation(Operation::Stop);
    assert_eq!(
        failure_message("iNodeMon", Conclusion::SpawnFailed, budget, "No such file or directory"),
        Some("iNodeMon: No such file or directory".to_string())
    );
    assert_eq!(
        failure_message("iNodeMon", Conclusion::InputUnavailable, budget, "x"),
        Some("iNodeMon: Failed to open stdin".to_string())
    );
}

#[test]
fn success_has_no_message() {
    let budget = RetryBudget::for_operation(Operation::Stop);
    assert_eq!(failure_message("iNodeMon", Conclusion::AlreadySatisfied, budget, "x"), None);
    assert_eq!(failure_message("iNodeMon", Conclusion::Satisfied, budget, "x"), None);
    assert_eq!(failure_message("iNodeMon", Conclusion::ForceKilled, budget, "x"), None);
}

#[test]
fn acknowledgements() {
    assert_eq!(acknowledgement(Plan::StopAll), "1");
    assert_eq!(acknowledgement(Plan::StartAll), "iNodeClient服务启动成功");
}
