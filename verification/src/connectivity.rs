//! End-to-end reachability: an echo sweep over a list of hosts with retries,
//! one HTTP GET, and the disjunction of the two.
//!
//! Like the supervisor this is a machine that names the probe that is due and
//! takes its outcome. No outcome is an error: each collapses to a boolean.

use vstd::prelude::*;

verus! {

/// Number of hosts in the echo sweep.
pub const TARGET_COUNT: u32 = 2;

/// Echo attempts per host.
pub const RETRY_COUNT: u32 = 3;

/// Seconds after which one echo attempt is abandoned.
pub const ECHO_TIMEOUT_SECONDS: u64 = 2;

/// Seconds after which the HTTP GET is abandoned.
pub const HTTP_TIMEOUT_SECONDS: u64 = 5;

/// How one echo attempt ended.
#[derive(Clone, Copy, Debug, PartialEq, Eq, Structural)]
pub enum EchoOutcome {
    /// The probe tool ran and exited, successfully or not.
    Exited { success: bool },
    /// The probe tool could not be spawned.
    SpawnFailed,
    /// The attempt did not finish within its timeout.
    TimedOut,
    /// The task that ran the attempt was lost.
    TaskFailed,
}

/// How the HTTP GET ended.
#[derive(Clone, Copy, Debug, PartialEq, Eq, Structural)]
pub enum HttpOutcome {
    /// A response arrived with this status code.
    Status(u16),
    /// The request failed below HTTP: resolution, connection, protocol.
    TransportError,
    /// No response within the timeout.
    TimedOut,
}

/// Where a connectivity check stands.
#[derive(Clone, Copy, Debug, PartialEq, Eq, Structural)]
pub enum CheckPhase {
    /// Attempt number `attempt` on host number `target` is due (both from 0).
    Echo { target: u32, attempt: u32 },
    /// The echo sweep is over; the HTTP GET is due.
    Http { echo_ok: bool },
    /// The verdict.
    Done(bool),
}

/// The probe a driver has to perform next.
#[derive(Clone, Copy, Debug, PartialEq, Eq, Structural)]
pub enum CheckAction {
    /// Send one echo request to host number `target`.
    Echo { target: u32, timeout_seconds: u64 },
    /// Send one GET to the fixed endpoint.
    HttpGet { timeout_seconds: u64 },
    /// Stop and report the verdict.
    Finish(bool),
}

/// What a driver reports after a probe.
#[derive(Clone, Copy, Debug, PartialEq, Eq, Structural)]
pub enum CheckEvent {
    Echo(EchoOutcome),
    Http(HttpOutcome),
}

/// The state of one connectivity check over `targets` hosts with `retries`
/// attempts each.
#[derive(Clone, Copy, Debug, PartialEq, Eq, Structural)]
pub struct ConnectivityCheck {
    pub targets: u32,
    pub retries: u32,
    pub phase: CheckPhase,
}

impl EchoOutcome {
    /// Only a successful exit of the probe tool counts.
    pub open spec fn reachable(self) -> bool {
        self matches EchoOutcome::Exited { success } && success
    }

    pub fn is_reachable(self) -> (ok: bool)
        ensures
            ok == self.reachable(),
    {
        match self {
            EchoOutcome::Exited { success } => success,
            _ => false,
        }
    }
}

impl HttpOutcome {
    /// Only a status of the success class (200 to 299) counts.
    pub open spec fn reachable(self) -> bool {
        self matches HttpOutcome::Status(code) && 200 <= code <= 299
    }

    pub fn is_reachable(self) -> (ok: bool)
        ensures
            ok == self.reachable(),
    {
        match self {
            HttpOutcome::Status(code) => 200 <= code && code <= 299,
            _ => false,
        }
    }
}

/// The hosts of the echo sweep, in order.
pub open spec fn spec_target_host(index: u32) -> Option<Seq<char>> {
    if index == 0 {
        Some("8.8.8.8"@)
    } else if index == 1 {
        Some("1.1.1.1"@)
    } else {
        None
    }
}

pub fn target_host(index: u32) -> (host: Option<&'static str>)
    ensures
        host is Some <==> index < TARGET_COUNT,
        match host {
            Some(h) => spec_target_host(index) == Some(h@),
            None => spec_target_host(index) is None,
        },
{
    if index == 0 {
        Some("8.8.8.8")
    } else if index == 1 {
        Some("1.1.1.1")
    } else {
        None
    }
}

/// The endpoint of the HTTP probe.
pub fn http_endpoint() -> (url: &'static str)
    ensures
        url@ == "https://www.baidu.com"@,
{
    "https://www.baidu.com"
}

/// The verdict of a whole check: either sub-check suffices.
pub open spec fn verdict(echo_ok: bool, http_ok: bool) -> bool {
    echo_ok || http_ok
}

pub fn check_network(echo_ok: bool, http_ok: bool) -> (reachable: bool)
    ensures
        reachable == verdict(echo_ok, http_ok),
{
    echo_ok || http_ok
}

impl ConnectivityCheck {
    /// The phase in which a sweep over `targets` hosts begins at host `target`.
    pub open spec fn sweep_from(targets: u32, retries: u32, target: int) -> CheckPhase {
        if target < targets && retries > 0 {
            CheckPhase::Echo { target: target as u32, attempt: 0 }
        } else {
            CheckPhase::Http { echo_ok: false }
        }
    }

    pub open spec fn initial(targets: u32, retries: u32) -> ConnectivityCheck {
        ConnectivityCheck { targets, retries, phase: Self::sweep_from(targets, retries, 0) }
    }

    /// A state that `begin` and `advance` can produce.
    pub open spec fn wf(self) -> bool {
        self.phase matches CheckPhase::Echo { target, attempt } ==> target < self.targets
            && attempt < self.retries
    }

    /// The transition function. A successful echo ends the sweep at once; a
    /// failed one moves to the next attempt, then to the next host, then to
    /// the end of the sweep. The HTTP outcome is joined to the sweep's.
    pub open spec fn next(self, event: CheckEvent) -> ConnectivityCheck {
        let phase = match (self.phase, event) {
            (CheckPhase::Echo { target, attempt }, CheckEvent::Echo(outcome)) => {
                if outcome.reachable() {
                    CheckPhase::Http { echo_ok: true }
                } else if attempt + 1 < self.retries {
                    CheckPhase::Echo { target, attempt: (attempt + 1) as u32 }
                } else {
                    Self::sweep_from(self.targets, self.retries, target + 1)
                }
            },
            (CheckPhase::Http { echo_ok }, CheckEvent::Http(outcome)) => CheckPhase::Done(
                verdict(echo_ok, outcome.reachable()),
            ),
            _ => self.phase,
        };
        ConnectivityCheck { targets: self.targets, retries: self.retries, phase }
    }

    /// The probe that is due in this state.
    pub open spec fn due(self) -> CheckAction {
        match self.phase {
            CheckPhase::Echo { target, .. } => CheckAction::Echo {
                target,
                timeout_seconds: ECHO_TIMEOUT_SECONDS,
            },
            CheckPhase::Http { .. } => CheckAction::HttpGet {
                timeout_seconds: HTTP_TIMEOUT_SECONDS,
            },
            CheckPhase::Done(reachable) => CheckAction::Finish(reachable),
        }
    }

    fn phase_from(targets: u32, retries: u32, target: u32) -> (phase: CheckPhase)
        ensures
            phase == Self::sweep_from(targets, retries, target as int),
    {
        if target < targets && retries > 0 {
            CheckPhase::Echo { target, attempt: 0 }
        } else {
            CheckPhase::Http { echo_ok: false }
        }
    }

    /// Begins a check over the fixed hosts with three attempts each.
    pub fn begin() -> (machine: ConnectivityCheck)
        ensures
            machine == Self::initial(TARGET_COUNT, RETRY_COUNT),
            machine.wf(),
    {
        Self::begin_with(TARGET_COUNT, RETRY_COUNT)
    }

    /// Begins a check over the first `targets` hosts with `retries` attempts
    /// each.
    pub fn begin_with(targets: u32, retries: u32) -> (machine: ConnectivityCheck)
        ensures
            machine == Self::initial(targets, retries),
            machine.wf(),
    {
        ConnectivityCheck { targets, retries, phase: Self::phase_from(targets, retries, 0) }
    }

    /// Takes in the outcome of a probe. An event that does not answer the due
    /// probe leaves the state as it is.
    pub fn advance(self, event: CheckEvent) -> (machine: ConnectivityCheck)
        ensures
            machine == self.next(event),
            self.wf() ==> machine.wf(),
    {
        let phase = match (self.phase, event) {
            (CheckPhase::Echo { target, attempt }, CheckEvent::Echo(outcome)) => {
                if outcome.is_reachable() {
                    CheckPhase::Http { echo_ok: true }
                } else if attempt < self.retries && attempt + 1 < self.retries {
                    CheckPhase::Echo { target, attempt: attempt + 1 }
                } else if target < self.targets {
                    Self::phase_from(self.targets, self.retries, target + 1)
                } else {
                    CheckPhase::Http { echo_ok: false }
                }
            },
            (CheckPhase::Http { echo_ok }, CheckEvent::Http(outcome)) => CheckPhase::Done(
                check_network(echo_ok, outcome.is_reachable()),
            ),
            _ => self.phase,
        };
        ConnectivityCheck { targets: self.targets, retries: self.retries, phase }
    }

    /// The probe the driver has to perform now.
    pub fn action(&self) -> (action: CheckAction)
        ensures
            action == self.due(),
    {
        match self.phase {
            CheckPhase::Echo { target, .. } => CheckAction::Echo {
                target,
                timeout_seconds: ECHO_TIMEOUT_SECONDS,
            },
            CheckPhase::Http { .. } => CheckAction::HttpGet {
                timeout_seconds: HTTP_TIMEOUT_SECONDS,
            },
            CheckPhase::Done(reachable) => CheckAction::Finish(reachable),
        }
    }

    /// The state after the echo outcomes of a sweep, in the order in which the
    /// attempts are made.
    pub open spec fn sweep(self, echoes: Seq<EchoOutcome>) -> ConnectivityCheck
        decreases echoes.len(),
    {
        if echoes.len() == 0 {
            self
        } else {
            self.next(CheckEvent::Echo(echoes[0])).sweep(echoes.drop_first())
        }
    }

    /// How many echo attempts are still ahead if all of them fail.
    pub open spec fn attempts_left(self) -> int {
        match self.phase {
            CheckPhase::Echo { target, attempt } => (self.targets - target) * self.retries
                - attempt,
            _ => 0,
        }
    }

    /// Whether any of the outcomes is a success.
    pub open spec fn any_reachable(echoes: Seq<EchoOutcome>) -> bool {
        exists|i: int| 0 <= i < echoes.len() && (#[trigger] echoes[i]).reachable()
    }

    /// Once the sweep is over, further echo outcomes change nothing.
    pub proof fn lemma_sweep_is_over(self, echoes: Seq<EchoOutcome>)
        requires
            !(self.phase is Echo),
        ensures
            self.sweep(echoes) == self,
        decreases echoes.len(),
    {
        if echoes.len() > 0 {
            self.lemma_sweep_is_over(echoes.drop_first());
        }
    }

    /// A sweep fed the outcome of every attempt that is still ahead ends with
    /// the HTTP probe due, and it has succeeded exactly if one of those
    /// attempts did.
    pub proof fn lemma_sweep(self, echoes: Seq<EchoOutcome>)
        requires
            self.wf(),
            self.phase is Echo,
            echoes.len() == self.attempts_left(),
        ensures
            self.sweep(echoes).phase == (CheckPhase::Http {
                echo_ok: Self::any_reachable(echoes),
            }),
        decreases echoes.len(),
    {
        let t = self.targets as int;
        let r = self.retries as int;
        let target = self.phase->target as int;
        assert((t - target) * r >= r && (t - target) * r - r == (t - target - 1) * r
            && ((t - target - 1 > 0 && r > 0) ==> (t - target - 1) * r > 0)
            && (t - target - 1 == 0 ==> (t - target - 1) * r == 0)) by (nonlinear_arith)
            requires
                t - target >= 1,
                r > 0,
        ;
        assert(echoes.len() > 0);
        let rest = echoes.drop_first();
        let then = self.next(CheckEvent::Echo(echoes[0]));
        if echoes[0].reachable() {
            then.lemma_sweep_is_over(rest);
            assert(Self::any_reachable(echoes));
        } else {
            if then.phase is Echo {
                then.lemma_sweep(rest);
            } else {
                then.lemma_sweep_is_over(rest);
                assert(rest.len() == 0);
            }
            if Self::any_reachable(rest) {
                let i = choose|i: int| 0 <= i < rest.len() && (#[trigger] rest[i]).reachable();
                assert(echoes[i + 1].reachable());
            }
            if Self::any_reachable(echoes) {
                let i = choose|i: int|
                    0 <= i < echoes.len() && (#[trigger] echoes[i]).reachable();
                assert(rest[i - 1].reachable());
            }
        }
    }

    /// The verdict of a check is true exactly if some echo attempt of the
    /// whole host-by-attempt matrix succeeded or the HTTP probe did.
    pub proof fn lemma_verdict_is_disjunction(
        targets: u32,
        retries: u32,
        echoes: Seq<EchoOutcome>,
        http: HttpOutcome,
    )
        requires
            echoes.len() == targets * retries,
        ensures
            Self::initial(targets, retries).sweep(echoes).next(CheckEvent::Http(http)).phase
                == CheckPhase::Done(Self::any_reachable(echoes) || http.reachable()),
    {
        let first = Self::initial(targets, retries);
        if first.phase is Echo {
            first.lemma_sweep(echoes);
        } else {
            assert(targets * retries == 0) by (nonlinear_arith)
                requires
                    targets == 0 || retries == 0,
            ;
            assert(first.sweep(echoes) == first);
            assert(!Self::any_reachable(echoes));
        }
    }
}

} // verus!
