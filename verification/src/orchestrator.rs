//! Sequencing of the two dependent services.
//!
//! The monitor service depends on the authentication service: authentication
//! starts first and stops last. The second service is only approached once the
//! first has succeeded.

use crate::supervisor::{Action, Conclusion, Event, Operation, Phase, RetryBudget, Supervisor};
use vstd::prelude::*;

verus! {

/// The two supervised services.
#[derive(Clone, Copy, Debug, PartialEq, Eq, Structural)]
pub enum Service {
    Monitor,
    Authentication,
}

/// What is to be done with both services.
#[derive(Clone, Copy, Debug, PartialEq, Eq, Structural)]
pub enum Plan {
    StopAll,
    StartAll,
}

/// What the driver has to do next for the pair of services.
#[derive(Clone, Copy, Debug, PartialEq, Eq, Structural)]
pub enum Directive {
    /// Perform this action for this service and report what came of it.
    Perform { service: Service, action: Action },
    /// Both services reached the wanted state.
    Succeeded,
    /// The operation on this service failed; nothing further was attempted.
    Failed { service: Service, conclusion: Conclusion },
}

/// The state of a stop-all or start-all.
#[derive(Clone, Copy, Debug, PartialEq, Eq, Structural)]
pub struct Orchestrator {
    pub plan: Plan,
    /// Whether the first service has succeeded and the second is being handled.
    pub on_second: bool,
    /// The operation on the service that is being handled.
    pub current: Supervisor,
}

impl Service {
    /// The executable's name, as the process table lists it.
    pub open spec fn spec_name(self) -> Seq<char> {
        match self {
            Service::Monitor => "iNodeMon"@,
            Service::Authentication => "AuthenMngService"@,
        }
    }

    pub fn name(self) -> (name: &'static str)
        ensures
            name@ == self.spec_name(),
    {
        match self {
            Service::Monitor => "iNodeMon",
            Service::Authentication => "AuthenMngService",
        }
    }
}

impl Plan {
    pub open spec fn operation(self) -> Operation {
        match self {
            Plan::StopAll => Operation::Stop,
            Plan::StartAll => Operation::Start,
        }
    }

    /// The service that is handled first: the monitor when stopping, the
    /// authentication service when starting.
    pub open spec fn first(self) -> Service {
        match self {
            Plan::StopAll => Service::Monitor,
            Plan::StartAll => Service::Authentication,
        }
    }

    /// The service that is handled once the first has succeeded.
    pub open spec fn second(self) -> Service {
        match self {
            Plan::StopAll => Service::Authentication,
            Plan::StartAll => Service::Monitor,
        }
    }
}

impl Directive {
    /// Whether the directive asks for anything to be done to `service`.
    pub open spec fn targets(self, service: Service) -> bool {
        self matches Directive::Perform { service: s, .. } && s == service
    }

    /// Whether the directive reports that the operation on `service` failed.
    pub open spec fn reports_failure_of(self, service: Service) -> bool {
        self matches Directive::Failed { service: s, .. } && s == service
    }
}

impl Orchestrator {
    pub open spec fn initial(plan: Plan, budget: RetryBudget) -> Orchestrator {
        Orchestrator {
            plan,
            on_second: false,
            current: Supervisor::initial(plan.operation(), budget),
        }
    }

    /// The service that the current supervisor handles.
    pub open spec fn service(self) -> Service {
        if self.on_second {
            self.plan.second()
        } else {
            self.plan.first()
        }
    }

    /// A state that `begin` and `advance` can produce.
    pub open spec fn wf(self) -> bool {
        &&& self.current.wf()
        &&& self.current.operation == self.plan.operation()
        &&& self.settled() == self
    }

    /// The first service's success is never rested on: a state that holds it
    /// stands for the beginning of the second service.
    pub open spec fn settled(self) -> Orchestrator {
        if !self.on_second && (self.current.phase matches Phase::Finished(c) && c.succeeded()) {
            Orchestrator {
                plan: self.plan,
                on_second: true,
                current: Supervisor::initial(self.current.operation, self.current.budget),
            }
        } else {
            self
        }
    }

    /// The transition function: the current supervisor takes the event; when
    /// that makes the first service succeed, the second service begins.
    pub open spec fn next(self, event: Event) -> Orchestrator {
        let from = self.settled();
        Orchestrator {
            plan: from.plan,
            on_second: from.on_second,
            current: from.current.next(event),
        }.settled()
    }

    /// The directive that is due in this state.
    pub open spec fn due(self) -> Directive {
        let from = self.settled();
        match from.current.due() {
            Action::Finish(conclusion) => if conclusion.succeeded() {
                Directive::Succeeded
            } else {
                Directive::Failed { service: from.service(), conclusion }
            },
            action => Directive::Perform { service: from.service(), action },
        }
    }

    fn settle(self) -> (machine: Orchestrator)
        ensures
            machine == self.settled(),
    {
        let first_done = match self.current.conclusion() {
            Some(conclusion) => !self.on_second && conclusion.is_success(),
            None => false,
        };
        if first_done {
            Orchestrator {
                plan: self.plan,
                on_second: true,
                current: Supervisor::begin(self.current.operation, self.current.budget),
            }
        } else {
            self
        }
    }

    /// Begins with the budget that belongs to the plan's operation.
    pub fn begin(plan: Plan) -> (machine: Orchestrator)
        ensures
            machine == Self::initial(plan, RetryBudget::default_for(plan.operation())),
            machine.wf(),
    {
        let operation = match plan {
            Plan::StopAll => Operation::Stop,
            Plan::StartAll => Operation::Start,
        };
        Self::begin_with(plan, RetryBudget::for_operation(operation))
    }

    /// Begins with a budget of the caller's choice, used for both services.
    pub fn begin_with(plan: Plan, budget: RetryBudget) -> (machine: Orchestrator)
        ensures
            machine == Self::initial(plan, budget),
            machine.wf(),
    {
        let operation = match plan {
            Plan::StopAll => Operation::Stop,
            Plan::StartAll => Operation::Start,
        };
        Orchestrator { plan, on_second: false, current: Supervisor::begin(operation, budget) }
    }

    /// The service that the next action concerns.
    pub fn current_service(&self) -> (service: Service)
        ensures
            service == self.service(),
    {
        match (self.plan, self.on_second) {
            (Plan::StopAll, false) => Service::Monitor,
            (Plan::StopAll, true) => Service::Authentication,
            (Plan::StartAll, false) => Service::Authentication,
            (Plan::StartAll, true) => Service::Monitor,
        }
    }

    /// Takes in what the driver observed for the current service.
    pub fn advance(self, event: Event) -> (machine: Orchestrator)
        ensures
            machine == self.next(event),
            self.wf() ==> machine.wf(),
    {
        let from = self.settle();
        let moved = Orchestrator {
            plan: from.plan,
            on_second: from.on_second,
            current: from.current.advance(event),
        };
        moved.settle()
    }

    /// What the driver has to do now.
    pub fn directive(&self) -> (directive: Directive)
        ensures
            directive == self.due(),
    {
        let from = self.settle();
        match from.current.action() {
            Action::Finish(conclusion) => {
                if conclusion.is_success() {
                    Directive::Succeeded
                } else {
                    Directive::Failed { service: from.current_service(), conclusion }
                }
            },
            action => Directive::Perform { service: from.current_service(), action },
        }
    }

    /// The directives that fall due along a run: the one due at the outset,
    /// then the one due after each event.
    pub open spec fn directives(self, events: Seq<Event>) -> Seq<Directive>
        decreases events.len(),
    {
        if events.len() == 0 {
            seq![self.due()]
        } else {
            seq![self.due()] + self.next(events[0]).directives(events.drop_first())
        }
    }

    /// Once the second service is being handled, the first is neither touched
    /// nor reported on again.
    pub proof fn lemma_second_stays(self, events: Seq<Event>)
        requires
            self.on_second,
        ensures
            self.directives(events).len() == events.len() + 1,
            forall|i: int|
                0 <= i <= events.len() ==> {
                    &&& !(#[trigger] self.directives(events)[i]).targets(self.plan.first())
                    &&& !self.directives(events)[i].reports_failure_of(self.plan.first())
                },
        decreases events.len(),
    {
        if events.len() > 0 {
            self.next(events[0]).lemma_second_stays(events.drop_first());
        }
    }

    /// A failure of the first service is final: every later directive repeats
    /// it.
    pub proof fn lemma_failure_is_final(self, events: Seq<Event>)
        requires
            self.due() is Failed,
        ensures
            self.directives(events).len() == events.len() + 1,
            forall|i: int|
                0 <= i <= events.len() ==> #[trigger] self.directives(events)[i] == self.due(),
        decreases events.len(),
    {
        if events.len() > 0 {
            assert(self.next(events[0]) == self);
            self.lemma_failure_is_final(events.drop_first());
        }
    }

    /// Order: in any run, no action for the first service falls due after one
    /// for the second. For a stop-all every action on the monitor service
    /// therefore precedes every action on the authentication service, and for
    /// a start-all the other way round.
    pub proof fn lemma_first_before_second(self, events: Seq<Event>)
        ensures
            self.directives(events).len() == events.len() + 1,
            forall|i: int, j: int|
                0 <= i < j <= events.len() && (#[trigger] self.directives(events)[i]).targets(
                    self.plan.second(),
                ) ==> !(#[trigger] self.directives(events)[j]).targets(self.plan.first()),
        decreases events.len(),
    {
        if events.len() > 0 {
            let rest = events.drop_first();
            let then = self.next(events[0]);
            then.lemma_first_before_second(rest);
            if self.settled().on_second {
                then.lemma_second_stays(rest);
            }
            assert forall|i: int, j: int|
                0 <= i < j <= events.len() && (#[trigger] self.directives(events)[i]).targets(
                    self.plan.second(),
                ) implies !(#[trigger] self.directives(events)[j]).targets(
                self.plan.first(),
            ) by {
                assert(self.directives(events)[j] == then.directives(rest)[j - 1]);
                if i > 0 {
                    assert(self.directives(events)[i] == then.directives(rest)[i - 1]);
                }
            }
        }
    }

    /// Short circuit: when the operation on the first service is reported as
    /// failed anywhere in a run, no action for the second service falls due
    /// anywhere in that run. A failed stop of the monitor service thus leaves
    /// the authentication service unattempted.
    pub proof fn lemma_failure_leaves_second_untouched(self, events: Seq<Event>, at: int)
        requires
            0 <= at <= events.len(),
            self.directives(events)[at].reports_failure_of(self.plan.first()),
        ensures
            forall|j: int|
                0 <= j <= events.len() ==> !(#[trigger] self.directives(events)[j]).targets(
                    self.plan.second(),
                ),
        decreases events.len(),
    {
        if self.on_second {
            self.lemma_second_stays(events);
        } else if self.settled().on_second {
            self.next(events[0]).lemma_second_stays(events.drop_first());
            assert(self.directives(events)[at] == self.next(events[0]).directives(
                events.drop_first(),
            )[at - 1]);
        } else if at == 0 {
            self.lemma_failure_is_final(events);
        } else {
            let rest = events.drop_first();
            let then = self.next(events[0]);
            then.lemma_first_before_second(rest);
            assert(self.directives(events)[at] == then.directives(rest)[at - 1]);
            then.lemma_failure_leaves_second_untouched(rest, at - 1);
            assert forall|j: int| 0 <= j <= events.len() implies !(
            #[trigger] self.directives(events)[j]).targets(self.plan.second()) by {
                if j > 0 {
                    assert(self.directives(events)[j] == then.directives(rest)[j - 1]);
                }
            }
        }
    }
    /// Stopping both services never acts on the monitor service after it has
    /// acted on the authentication service, and a failed stop of the monitor
    /// service leaves the authentication service unattempted.
    pub proof fn lemma_stop_all_is_ordered(budget: RetryBudget, events: Seq<Event>)
        ensures
            forall|i: int, j: int|
                0 <= i < j <= events.len() && (#[trigger] Self::initial(
                    Plan::StopAll,
                    budget,
                ).directives(events)[i]).targets(Service::Authentication) ==> !(
                #[trigger] Self::initial(Plan::StopAll, budget).directives(events)[j]).targets(
                    Service::Monitor,
                ),
            forall|at: int, j: int|
                0 <= at <= events.len() && 0 <= j <= events.len() && (#[trigger] Self::initial(
                    Plan::StopAll,
                    budget,
                ).directives(events)[at]).reports_failure_of(Service::Monitor) ==> !(
                #[trigger] Self::initial(Plan::StopAll, budget).directives(events)[j]).targets(
                    Service::Authentication,
                ),
    {
        let first = Self::initial(Plan::StopAll, budget);
        first.lemma_first_before_second(events);
        assert forall|at: int, j: int|
            0 <= at <= events.len() && 0 <= j <= events.len() && (#[trigger] first.directives(
                events,
            )[at]).reports_failure_of(Service::Monitor) implies !(#[trigger] first.directives(
            events,
        )[j]).targets(Service::Authentication) by {
            first.lemma_failure_leaves_second_untouched(events, at);
        }
    }

    /// Starting both services never acts on the authentication service after
    /// it has acted on the monitor service, and a failed start of the
    /// authentication service leaves the monitor service unattempted.
    pub proof fn lemma_start_all_is_ordered(budget: RetryBudget, events: Seq<Event>)
        ensures
            forall|i: int, j: int|
                0 <= i < j <= events.len() && (#[trigger] Self::initial(
                    Plan::StartAll,
                    budget,
                ).directives(events)[i]).targets(Service::Monitor) ==> !(
                #[trigger] Self::initial(Plan::StartAll, budget).directives(events)[j]).targets(
                    Service::Authentication,
                ),
            forall|at: int, j: int|
                0 <= at <= events.len() && 0 <= j <= events.len() && (#[trigger] Self::initial(
                    Plan::StartAll,
                    budget,
                ).directives(events)[at]).reports_failure_of(Service::Authentication) ==> !(
                #[trigger] Self::initial(Plan::StartAll, budget).directives(events)[j]).targets(
                    Service::Monitor,
                ),
    {
        let first = Self::initial(Plan::StartAll, budget);
        first.lemma_first_before_second(events);
        assert forall|at: int, j: int|
            0 <= at <= events.len() && 0 <= j <= events.len() && (#[trigger] first.directives(
                events,
            )[at]).reports_failure_of(Service::Authentication) implies !(
        #[trigger] first.directives(events)[j]).targets(Service::Monitor) by {
            first.lemma_failure_leaves_second_untouched(events, at);
        }
    }
}

} // verus!
