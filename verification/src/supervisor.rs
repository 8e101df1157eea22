//! Bounded-polling state machine that starts or stops one named process.
//!
//! The machine never touches the operating system. It says which step is due
//! ([`Supervisor::action`]) and is told what came of it
//! ([`Supervisor::advance`]). A driver performs the step and reports back until
//! the due step is [`Action::Finish`].

use vstd::prelude::*;

verus! {

/// Which way a process is driven.
#[derive(Clone, Copy, Debug, PartialEq, Eq, Structural)]
pub enum Operation {
    /// The process shall end up absent from the process table.
    Stop,
    /// The process shall end up present in the process table.
    Start,
}

/// How often and how far apart liveness is polled after acting.
#[derive(Clone, Copy, Debug, PartialEq, Eq, Structural)]
pub struct RetryBudget {
    pub interval_seconds: u64,
    pub max_attempts: u32,
}

/// How an operation ended.
#[derive(Clone, Copy, Debug, PartialEq, Eq, Structural)]
pub enum Conclusion {
    /// The first probe already showed the wanted state; nothing was spawned.
    AlreadySatisfied,
    /// A poll showed the wanted state.
    Satisfied,
    /// Stopping ran out of polls and the forceful kill was issued; liveness
    /// was not probed again afterwards.
    ForceKilled,
    /// The operating system refused to create a process or to pipe to it.
    SpawnFailed,
    /// The spawned process had no input channel to take the credential.
    InputUnavailable,
    /// Starting ran out of polls; the spawned process is left as it is.
    TimedOut,
}

/// Where the machine stands.
#[derive(Clone, Copy, Debug, PartialEq, Eq, Structural)]
pub enum Phase {
    /// The initial liveness probe is due.
    Probing,
    /// The graceful stop or the elevated spawn is due.
    Acting,
    /// One polling interval of sleep is due; `polls` polls have missed so far.
    Waiting { polls: u32 },
    /// A liveness poll is due; `polls` polls have missed so far.
    Polling { polls: u32 },
    /// The forceful kill is due.
    Escalating,
    /// Nothing is due any more.
    Finished(Conclusion),
}

/// The step a driver has to perform next.
#[derive(Clone, Copy, Debug, PartialEq, Eq, Structural)]
pub enum Action {
    /// Ask the process table whether the process is listed.
    Probe,
    /// Run the process's own stop command, without elevation.
    GracefulStop,
    /// Spawn the process through the privilege-escalation wrapper and write the
    /// credential to its standard input.
    ElevatedSpawn,
    /// Sleep for this many seconds.
    Wait { seconds: u64 },
    /// Send the unconditional termination signal.
    ForceKill,
    /// Stop driving and hand back the conclusion.
    Finish(Conclusion),
}

/// What a driver reports after performing an action.
#[derive(Clone, Copy, Debug, PartialEq, Eq, Structural)]
pub enum Event {
    /// Result of `Probe`. A failed query is reported as `false`.
    Liveness(bool),
    /// The command of `GracefulStop`, `ElevatedSpawn` or `ForceKill` was spawned
    /// (and, when starting, the credential written).
    Spawned,
    /// Spawning, or writing to the spawned process, failed.
    SpawnFailed,
    /// The spawned process offered no standard input.
    InputUnavailable,
    /// The sleep of `Wait` is over.
    Waited,
}

/// The state of one start or stop operation.
#[derive(Clone, Copy, Debug, PartialEq, Eq, Structural)]
pub struct Supervisor {
    pub operation: Operation,
    pub budget: RetryBudget,
    pub phase: Phase,
}

impl RetryBudget {
    /// Ten polls, one second apart.
    pub open spec fn stop_default() -> RetryBudget {
        RetryBudget { interval_seconds: 1, max_attempts: 10 }
    }

    /// Twenty polls, one second apart.
    pub open spec fn start_default() -> RetryBudget {
        RetryBudget { interval_seconds: 1, max_attempts: 20 }
    }

    /// The budget that belongs to an operation.
    pub open spec fn default_for(operation: Operation) -> RetryBudget {
        match operation {
            Operation::Stop => Self::stop_default(),
            Operation::Start => Self::start_default(),
        }
    }

    /// Longest time, in seconds, that polling under this budget may sleep.
    pub open spec fn total_wait(self) -> nat {
        (self.interval_seconds * self.max_attempts) as nat
    }

    pub fn for_operation(operation: Operation) -> (budget: RetryBudget)
        ensures
            budget == Self::default_for(operation),
    {
        match operation {
            Operation::Stop => RetryBudget { interval_seconds: 1, max_attempts: 10 },
            Operation::Start => RetryBudget { interval_seconds: 1, max_attempts: 20 },
        }
    }
}

impl Conclusion {
    pub open spec fn succeeded(self) -> bool {
        self is AlreadySatisfied || self is Satisfied || self is ForceKilled
    }

    pub fn is_success(self) -> (ok: bool)
        ensures
            ok == self.succeeded(),
    {
        match self {
            Conclusion::AlreadySatisfied | Conclusion::Satisfied | Conclusion::ForceKilled => true,
            _ => false,
        }
    }
}

impl Operation {
    /// Whether a liveness reading is the one this operation aims at.
    pub open spec fn wants(self, alive: bool) -> bool {
        match self {
            Operation::Stop => !alive,
            Operation::Start => alive,
        }
    }

    pub fn is_goal(self, alive: bool) -> (hit: bool)
        ensures
            hit == self.wants(alive),
    {
        match self {
            Operation::Stop => !alive,
            Operation::Start => alive,
        }
    }
}

impl Supervisor {
    /// The phase once the polls are used up: stopping escalates, starting
    /// gives up.
    pub open spec fn exhausted(self) -> Phase {
        match self.operation {
            Operation::Stop => Phase::Escalating,
            Operation::Start => Phase::Finished(Conclusion::TimedOut),
        }
    }

    /// The phase after `misses` polls have missed.
    pub open spec fn after_misses(self, misses: int) -> Phase {
        if misses >= self.budget.max_attempts {
            self.exhausted()
        } else {
            Phase::Waiting { polls: misses as u32 }
        }
    }

    /// The transition function.
    pub open spec fn next(self, event: Event) -> Supervisor {
        let phase = match (self.phase, event) {
            (Phase::Probing, Event::Liveness(alive)) => if self.operation.wants(alive) {
                Phase::Finished(Conclusion::AlreadySatisfied)
            } else {
                Phase::Acting
            },
            (Phase::Acting, Event::Spawned) => self.after_misses(0),
            (Phase::Acting, Event::SpawnFailed) => Phase::Finished(Conclusion::SpawnFailed),
            (Phase::Acting, Event::InputUnavailable) => if self.operation is Start {
                Phase::Finished(Conclusion::InputUnavailable)
            } else {
                self.phase
            },
            (Phase::Waiting { polls }, Event::Waited) => Phase::Polling { polls },
            (Phase::Polling { polls }, Event::Liveness(alive)) => if self.operation.wants(alive) {
                Phase::Finished(Conclusion::Satisfied)
            } else {
                self.after_misses(polls + 1)
            },
            (Phase::Escalating, Event::Spawned) => Phase::Finished(Conclusion::ForceKilled),
            (Phase::Escalating, Event::SpawnFailed) => Phase::Finished(Conclusion::SpawnFailed),
            _ => self.phase,
        };
        Supervisor { operation: self.operation, budget: self.budget, phase }
    }

    /// The step that is due in this state.
    pub open spec fn due(self) -> Action {
        match self.phase {
            Phase::Probing => Action::Probe,
            Phase::Polling { .. } => Action::Probe,
            Phase::Acting => match self.operation {
                Operation::Stop => Action::GracefulStop,
                Operation::Start => Action::ElevatedSpawn,
            },
            Phase::Waiting { .. } => Action::Wait { seconds: self.budget.interval_seconds },
            Phase::Escalating => Action::ForceKill,
            Phase::Finished(conclusion) => Action::Finish(conclusion),
        }
    }

    /// The state in which an operation begins.
    pub open spec fn initial(operation: Operation, budget: RetryBudget) -> Supervisor {
        Supervisor { operation, budget, phase: Phase::Probing }
    }

    /// A state that `begin` and `advance` can produce.
    pub open spec fn wf(self) -> bool {
        match self.phase {
            Phase::Waiting { polls } => polls < self.budget.max_attempts,
            Phase::Polling { polls } => polls < self.budget.max_attempts,
            Phase::Escalating => self.operation is Stop,
            Phase::Finished(Conclusion::ForceKilled) => self.operation is Stop,
            Phase::Finished(Conclusion::TimedOut) => self.operation is Start,
            Phase::Finished(Conclusion::InputUnavailable) => self.operation is Start,
            _ => true,
        }
    }

    pub fn begin(operation: Operation, budget: RetryBudget) -> (machine: Supervisor)
        ensures
            machine == Self::initial(operation, budget),
            machine.wf(),
    {
        Supervisor { operation, budget, phase: Phase::Probing }
    }

    fn phase_after_misses(&self, misses: u32) -> (phase: Phase)
        ensures
            phase == self.after_misses(misses as int),
    {
        if misses >= self.budget.max_attempts {
            match self.operation {
                Operation::Stop => Phase::Escalating,
                Operation::Start => Phase::Finished(Conclusion::TimedOut),
            }
        } else {
            Phase::Waiting { polls: misses }
        }
    }

    /// Takes in what the driver observed and moves to the next state. An event
    /// that does not answer the due action leaves the state as it is.
    pub fn advance(self, event: Event) -> (machine: Supervisor)
        ensures
            machine == self.next(event),
            self.wf() ==> machine.wf(),
    {
        let phase = match (self.phase, event) {
            (Phase::Probing, Event::Liveness(alive)) => {
                if self.operation.is_goal(alive) {
                    Phase::Finished(Conclusion::AlreadySatisfied)
                } else {
                    Phase::Acting
                }
            },
            (Phase::Acting, Event::Spawned) => self.phase_after_misses(0),
            (Phase::Acting, Event::SpawnFailed) => Phase::Finished(Conclusion::SpawnFailed),
            (Phase::Acting, Event::InputUnavailable) => match self.operation {
                Operation::Start => Phase::Finished(Conclusion::InputUnavailable),
                Operation::Stop => self.phase,
            },
            (Phase::Waiting { polls }, Event::Waited) => Phase::Polling { polls },
            (Phase::Polling { polls }, Event::Liveness(alive)) => {
                if self.operation.is_goal(alive) {
                    Phase::Finished(Conclusion::Satisfied)
                } else if polls >= self.budget.max_attempts {
                    self.phase_after_misses(polls)
                } else {
                    self.phase_after_misses(polls + 1)
                }
            },
            (Phase::Escalating, Event::Spawned) => Phase::Finished(Conclusion::ForceKilled),
            (Phase::Escalating, Event::SpawnFailed) => Phase::Finished(Conclusion::SpawnFailed),
            _ => self.phase,
        };
        Supervisor { operation: self.operation, budget: self.budget, phase }
    }

    /// The step the driver has to perform now.
    pub fn action(&self) -> (action: Action)
        ensures
            action == self.due(),
    {
        match self.phase {
            Phase::Probing => Action::Probe,
            Phase::Polling { .. } => Action::Probe,
            Phase::Acting => match self.operation {
                Operation::Stop => Action::GracefulStop,
                Operation::Start => Action::ElevatedSpawn,
            },
            Phase::Waiting { .. } => Action::Wait { seconds: self.budget.interval_seconds },
            Phase::Escalating => Action::ForceKill,
            Phase::Finished(conclusion) => Action::Finish(conclusion),
        }
    }

    /// The conclusion, once there is one.
    pub fn conclusion(&self) -> (done: Option<Conclusion>)
        ensures
            done == (match self.phase {
                Phase::Finished(c) => Some(c),
                _ => None,
            }),
    {
        match self.phase {
            Phase::Finished(c) => Some(c),
            _ => None,
        }
    }
}

impl Operation {
    /// The liveness reading that a poll returns while the goal is not reached.
    pub open spec fn miss(self) -> bool {
        self is Stop
    }
}

impl Supervisor {
    /// The state after a whole sequence of events.
    pub open spec fn run(self, events: Seq<Event>) -> Supervisor
        decreases events.len(),
    {
        if events.len() == 0 {
            self
        } else {
            self.next(events[0]).run(events.drop_first())
        }
    }

    /// The actions that fall due along a run: the one due at the outset, then
    /// the one due after each event.
    pub open spec fn actions(self, events: Seq<Event>) -> Seq<Action>
        decreases events.len(),
    {
        if events.len() == 0 {
            seq![self.due()]
        } else {
            seq![self.due()] + self.next(events[0]).actions(events.drop_first())
        }
    }

    /// How many sleeps are completed along a run.
    pub open spec fn sleeps(self, events: Seq<Event>) -> nat
        decreases events.len(),
    {
        if events.len() == 0 {
            0
        } else {
            let here: nat = if self.phase is Waiting && events[0] is Waited {
                1
            } else {
                0
            };
            here + self.next(events[0]).sleeps(events.drop_first())
        }
    }

    /// How many polls have missed so far.
    pub open spec fn misses(self) -> int {
        match self.phase {
            Phase::Waiting { polls } => polls as int,
            Phase::Polling { polls } => polls as int,
            _ => 0,
        }
    }

    /// How many sleeps a state may still ask for.
    pub open spec fn sleeps_left(self) -> nat {
        match self.phase {
            Phase::Probing => self.budget.max_attempts as nat,
            Phase::Acting => self.budget.max_attempts as nat,
            Phase::Waiting { polls } => (self.budget.max_attempts - polls) as nat,
            Phase::Polling { polls } => (self.budget.max_attempts - polls - 1) as nat,
            Phase::Escalating => 0,
            Phase::Finished(_) => 0,
        }
    }

    /// The state after `rounds` rounds of sleeping one interval and then
    /// polling without reaching the goal.
    pub open spec fn after_missed_rounds(self, rounds: nat) -> Supervisor
        decreases rounds,
    {
        if rounds == 0 {
            self
        } else {
            self.next(Event::Waited).next(
                Event::Liveness(self.operation.miss()),
            ).after_missed_rounds((rounds - 1) as nat)
        }
    }

    /// The state right after the command was spawned: the first sleep is due
    /// (with a budget of at least one poll).
    pub open spec fn spawned(operation: Operation, budget: RetryBudget) -> Supervisor {
        Self::initial(operation, budget).next(Event::Liveness(operation.miss())).next(
            Event::Spawned,
        )
    }

    /// A finished machine stays as it is and keeps announcing its conclusion,
    /// whatever it is told.
    pub proof fn lemma_finished_is_final(self, events: Seq<Event>)
        requires
            self.phase is Finished,
        ensures
            self.run(events) == self,
            self.actions(events).len() == events.len() + 1,
            forall|i: int| 0 <= i <= events.len() ==> self.actions(events)[i] == self.due(),
            self.sleeps(events) == 0,
        decreases events.len(),
    {
        if events.len() > 0 {
            self.next(events[0]).lemma_finished_is_final(events.drop_first());
        }
    }

    /// Stopping a process that the first probe finds absent succeeds at once:
    /// the only action ever due besides the probe is to finish, so neither the
    /// stop command nor the forceful kill is spawned.
    pub proof fn lemma_stop_of_absent_process_spawns_nothing(
        budget: RetryBudget,
        events: Seq<Event>,
    )
        requires
            events.len() > 0,
            events[0] == Event::Liveness(false),
        ensures
            Self::initial(Operation::Stop, budget).run(events).phase == Phase::Finished(
                Conclusion::AlreadySatisfied,
            ),
            Self::initial(Operation::Stop, budget).actions(events).len() == events.len() + 1,
            Self::initial(Operation::Stop, budget).actions(events)[0] == Action::Probe,
            forall|i: int|
                1 <= i <= events.len() ==> Self::initial(Operation::Stop, budget).actions(
                    events,
                )[i] == Action::Finish(Conclusion::AlreadySatisfied),
    {
        let first = Self::initial(Operation::Stop, budget);
        first.next(events[0]).lemma_finished_is_final(events.drop_first());
    }

    /// Starting a process that the first probe finds running succeeds at once:
    /// the elevated spawn, the only action that handles the credential, never
    /// falls due.
    pub proof fn lemma_start_of_running_process_spawns_nothing(
        budget: RetryBudget,
        events: Seq<Event>,
    )
        requires
            events.len() > 0,
            events[0] == Event::Liveness(true),
        ensures
            Self::initial(Operation::Start, budget).run(events).phase == Phase::Finished(
                Conclusion::AlreadySatisfied,
            ),
            Self::initial(Operation::Start, budget).actions(events).len() == events.len() + 1,
            Self::initial(Operation::Start, budget).actions(events)[0] == Action::Probe,
            forall|i: int|
                1 <= i <= events.len() ==> Self::initial(Operation::Start, budget).actions(
                    events,
                )[i] == Action::Finish(Conclusion::AlreadySatisfied),
    {
        let first = Self::initial(Operation::Start, budget);
        first.next(events[0]).lemma_finished_is_final(events.drop_first());
    }

    /// Whatever the driver reports, an operation sleeps at most `max_attempts`
    /// times, each time for one interval: never longer than the budget's total.
    pub proof fn lemma_sleep_is_bounded(self, events: Seq<Event>)
        requires
            self.wf(),
        ensures
            self.sleeps(events) <= self.sleeps_left(),
            self.sleeps_left() <= self.budget.max_attempts,
            self.sleeps(events) * self.budget.interval_seconds <= self.budget.total_wait(),
        decreases events.len(),
    {
        if events.len() > 0 {
            self.next(events[0]).lemma_sleep_is_bounded(events.drop_first());
        }
        let n = self.sleeps(events);
        let m = self.budget.max_attempts as nat;
        let w = self.budget.interval_seconds as nat;
        assert(n * w <= m * w) by (nonlinear_arith)
            requires
                n <= m,
        ;
        assert(w * m == m * w) by (nonlinear_arith);
    }

    /// Rounds that miss count up the polls until the budget is used up.
    pub proof fn lemma_missed_rounds(self, rounds: nat)
        requires
            self.wf(),
            self.phase is Waiting,
            self.misses() + rounds <= self.budget.max_attempts,
        ensures
            self.after_missed_rounds(rounds).phase == self.after_misses(
                self.misses() + rounds,
            ),
            self.after_missed_rounds(rounds).operation == self.operation,
            self.after_missed_rounds(rounds).budget == self.budget,
        decreases rounds,
    {
        if rounds > 0 {
            let then = self.next(Event::Waited).next(Event::Liveness(self.operation.miss()));
            if then.phase is Waiting {
                then.lemma_missed_rounds((rounds - 1) as nat);
            } else {
                assert(rounds == 1);
                assert(then.after_missed_rounds(0) == then);
            }
        }
    }

    /// A process that reaches the wanted state so that the `k`-th poll is the
    /// first to see it (`k` within the budget) is reported as satisfied by that
    /// poll: after exactly `k` sleeps of one interval each.
    pub proof fn lemma_flip_is_observed(operation: Operation, budget: RetryBudget, k: nat)
        requires
            1 <= k <= budget.max_attempts,
        ensures
            Self::spawned(operation, budget).after_missed_rounds((k - 1) as nat).phase
                == (Phase::Waiting { polls: (k - 1) as u32 }),
            Self::spawned(operation, budget).after_missed_rounds((k - 1) as nat).next(
                Event::Waited,
            ).next(Event::Liveness(!operation.miss())).phase == Phase::Finished(
                Conclusion::Satisfied,
            ),
    {
        Self::spawned(operation, budget).lemma_missed_rounds((k - 1) as nat);
    }

    /// When every poll of the budget misses, polling ends after exactly
    /// `max_attempts` rounds: stopping goes on to the forceful kill, starting
    /// concludes with a timeout. Neither sleeps again.
    pub proof fn lemma_polls_run_out(operation: Operation, budget: RetryBudget)
        ensures
            Self::spawned(operation, budget).after_missed_rounds(
                budget.max_attempts as nat,
            ).phase == Self::initial(operation, budget).exhausted(),
            operation is Stop ==> Self::spawned(operation, budget).after_missed_rounds(
                budget.max_attempts as nat,
            ).due() == Action::ForceKill,
            operation is Start ==> Self::spawned(operation, budget).after_missed_rounds(
                budget.max_attempts as nat,
            ).due() == Action::Finish(Conclusion::TimedOut),
    {
        let s = Self::spawned(operation, budget);
        if budget.max_attempts > 0 {
            s.lemma_missed_rounds(budget.max_attempts as nat);
        } else {
            assert(s.after_missed_rounds(0) == s);
        }
    }

    /// The forceful kill concludes a stop without another probe: once it is
    /// spawned the operation has succeeded, and a refused spawn is its only
    /// failure.
    pub proof fn lemma_force_kill_concludes(self, event: Event)
        requires
            self.phase is Escalating,
        ensures
            event is Spawned ==> self.next(event).phase == Phase::Finished(
                Conclusion::ForceKilled,
            ),
            event is SpawnFailed ==> self.next(event).phase == Phase::Finished(
                Conclusion::SpawnFailed,
            ),
            !(event is Spawned) && !(event is SpawnFailed) ==> self.next(event) == self,
    {
    }
    /// Every state of a run that begins in a producible state is producible,
    /// for the same operation under the same budget.
    pub proof fn lemma_run_keeps_wf(self, events: Seq<Event>)
        requires
            self.wf(),
        ensures
            self.run(events).wf(),
            self.run(events).operation == self.operation,
            self.run(events).budget == self.budget,
        decreases events.len(),
    {
        if events.len() > 0 {
            self.next(events[0]).lemma_run_keeps_wf(events.drop_first());
        }
    }

    /// A stop fails only when a spawn is refused: it never times out, it
    /// escalates instead.
    pub proof fn lemma_stop_fails_only_on_spawn(budget: RetryBudget, events: Seq<Event>)
        ensures
            Self::initial(Operation::Stop, budget).run(events).phase matches Phase::Finished(c)
                ==> c.succeeded() || c == Conclusion::SpawnFailed,
    {
        Self::initial(Operation::Stop, budget).lemma_run_keeps_wf(events);
    }

    /// A start never issues the forceful kill: when its polls run out it
    /// leaves the spawned process as it is.
    pub proof fn lemma_start_never_kills(budget: RetryBudget, events: Seq<Event>)
        ensures
            Self::initial(Operation::Start, budget).run(events).due() != Action::ForceKill,
            Self::initial(Operation::Start, budget).run(events).due() != Action::GracefulStop,
    {
        Self::initial(Operation::Start, budget).lemma_run_keeps_wf(events);
    }
}

} // verus!
