use service_supervisor::connectivity::{
    check_network, http_endpoint, target_host, CheckAction, CheckEvent, CheckPhase,
    ConnectivityCheck, EchoOutcome, HttpOutcome, ECHO_TIMEOUT_SECONDS, HTTP_TIMEOUT_SECONDS,
    RETRY_COUNT, TARGET_COUNT,
};

/// Runs a check; `echo(target, attempt)` answers each echo. Returns the
/// verdict and the echo requests made, as (target, attempt of that target).
fn run(
    echo: &dyn Fn(u32, u32) -> EchoOutcome,
    http: HttpOutcome,
) -> (bool, Vec<(u32, u32)>, usize) {
    let mut machine = ConnectivityCheck::begin();
    let mut echoes: Vec<(u32, u32)> = Vec::new();
    let mut gets = 0;
    for _ in 0..100 {
        match machine.action() {
            CheckAction::Finish(verdict) => return (verdict, echoes, gets),
            CheckAction::Echo { target, timeout_seconds } => {
                assert_eq!(timeout_seconds, 2);
                let attempt = echoes.iter().filter(|(t, _)| *t == target).count() as u32;
                echoes.push((target, attempt));
                machine = machine.advance(CheckEvent::Echo(echo(target, attempt)));
            }
            CheckAction::HttpGet { timeout_seconds } => {
                assert_eq!(timeout_seconds, 5);
                gets += 1;
                machine = machine.advance(CheckEvent::Http(http));
            }
        }
    }
    panic!("the check did not finish");
}

#[test]
fn fixed_parameters() {
    assert_eq!(TARGET_COUNT, 2);
    assert_eq!(RETRY_COUNT, 3);
    assert_eq!(ECHO_TIMEOUT_SECONDS, 2);
    assert_eq!(HTTP_TIMEOUT_SECONDS, 5);
    assert_eq!(target_host(0), Some("8.8.8.8"));
    assert_eq!(target_host(1), Some("1.1.1.1"));
    assert_eq!(target_host(2), None);
    assert_eq!(http_endpoint(), "https://www.baidu.com");
}

#[test]
fn all_echoes_time_out_but_http_answers_200() {
    let (verdict, echoes, gets) = run(&|_, _| EchoOutcome::TimedOut, HttpOutcome::Status(200));
    assert!(verdict);
    assert_eq!(echoes, vec![(0, 0), (0, 1), (0, 2), (1, 0), (1, 1), (1, 2)]);
    assert_eq!(gets, 1);
}

#[test]
fn everything_fails() {
    let (verdict, echoes, gets) = run(&|_, _| EchoOutcome::SpawnFailed, HttpOutcome::TimedOut);
    assert!(!verdict);
    assert_eq!(echoes.len(), 6);
    assert_eq!(gets, 1);
    let (verdict, _, _) =
        run(&|_, _| EchoOutcome::Exited { success: false }, HttpOutcome::TransportError);
    assert!(!verdict);
    let (verdict, _, _) = run(&|_, _| EchoOutcome::TaskFailed, HttpOutcome::Status(404));
    assert!(!verdict);
}

#[test]
fn any_single_echo_success_suffices() {
    for target in 0..2u32 {
        for attempt in 0..3u32 {
            let (verdict, echoes, gets) = run(
                &|t, a| EchoOutcome::Exited { success: t == target && a == attempt },
                HttpOutcome::TransportError,
            );
            assert!(verdict);
            assert_eq!(echoes.len() as u32, target * 3 + attempt + 1);
            assert_eq!(echoes.last(), Some(&(target, attempt)));
            assert_eq!(gets, 1);
        }
    }
}

#[test]
fn first_success_ends_the_sweep() {
    let (verdict, echoes, _) =
        run(&|_, _| EchoOutcome::Exited { success: true }, HttpOutcome::Status(500));
    assert!(verdict);
    assert_eq!(echoes, vec![(0, 0)]);
}

#[test]
fn echo_outcomes_collapse_to_a_boolean() {
    assert!(EchoOutcome::Exited { success: true }.is_reachable());
    assert!(!EchoOutcome::Exited { success: false }.is_reachable());
    assert!(!EchoOutcome::SpawnFailed.is_reachable());
    assert!(!EchoOutcome::TimedOut.is_reachable());
    assert!(!EchoOutcome::TaskFailed.is_reachable());
}

#[test]
fn http_success_is_the_2xx_class() {
    assert!(!HttpOutcome::Status(199).is_reachable());
    assert!(HttpOutcome::Status(200).is_reachable());
    assert!(HttpOutcome::Status(204).is_reachable());
    assert!(HttpOutcome::Status(299).is_reachable());
    assert!(!HttpOutcome::Status(300).is_reachable());
    assert!(!HttpOutcome::Status(404).is_reachable());
    assert!(!HttpOutcome::Status(500).is_reachable());
    assert!(!HttpOutcome::TransportError.is_reachable());
    assert!(!HttpOutcome::TimedOut.is_reachable());
}

#[test]
fn verdict_is_the_disjunction() {
    assert!(!check_network(false, false));
    assert!(check_network(true, false));
    assert!(check_network(false, true));
    assert!(check_network(true, true));
}

#[test]
fn empty_sweep_goes_straight_to_http() {
    let machine = ConnectivityCheck::begin_with(0, 3);
    assert_eq!(machine.phase, CheckPhase::Http { echo_ok: false });
    let machine = ConnectivityCheck::begin_with(2, 0);
    assert_eq!(machine.action(), CheckAction::HttpGet { timeout_seconds: 5 });
    let done = machine.advance(CheckEvent::Http(HttpOutcome::Status(200)));
    assert_eq!(done.action(), CheckAction::Finish(true));
}

#[test]
fn check_ignores_events_that_answer_nothing() {
    let machine = ConnectivityCheck::begin();
    assert_eq!(machine.phase, CheckPhase::Echo { target: 0, attempt: 0 });
    assert_eq!(machine.advance(CheckEvent::Http(HttpOutcome::Status(200))), machine);
    let http = machine.advance(CheckEvent::Echo(EchoOutcome::Exited { success: true }));
    assert_eq!(http.phase, CheckPhase::Http { echo_ok: true });
    assert_eq!(http.advance(CheckEvent::Echo(EchoOutcome::TimedOut)), http);
    let done = http.advance(CheckEvent::Http(HttpOutcome::TimedOut));
    assert_eq!(done.phase, CheckPhase::Done(true));
    assert_eq!(done.advance(CheckEvent::Http(HttpOutcome::TimedOut)), done);
}
