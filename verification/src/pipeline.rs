//! The run as a state machine: validate every schema, then deploy every
//! topic, then migrate every schema.
//!
//! The caller does the work of each phase and reports what came of each item;
//! the machine keeps the one flag that says whether anything failed, and
//! answers with what to do next. After validation stands a gate: with the flag
//! up the run ends there, with exit code 1. Between deployment and migration
//! stands none. A topic whose descriptor cannot be loaded counts against the
//! run; a topic that the broker refuses is reported and does not.

use vstd::prelude::*;
use crate::outcome::{DeployOutcome, LoadError, MigrateOutcome, ValidateOutcome};

verus! {

/// Where the run stands.
#[derive(Clone, Copy, Debug, PartialEq, Eq, Structural)]
pub enum Phase {
    Validating,
    Deploying,
    Migrating,
    Done,
}

/// What the caller reports to the machine.
#[derive(Clone, Copy, Debug, PartialEq, Eq, Structural)]
pub enum Event {
    /// One schema file went through validation.
    SchemaValidated(ValidateOutcome),
    /// One topic's descriptor could not be loaded.
    TopicLoadFailed(LoadError),
    /// One topic went to the broker.
    TopicDeployed(DeployOutcome),
    /// One schema file went through migration.
    SchemaMigrated(MigrateOutcome),
    /// Every item of the current phase has been reported.
    PhaseFinished,
}

/// What the machine tells the caller to do.
#[derive(Clone, Copy, Debug, PartialEq, Eq, Structural)]
pub enum Action {
    /// Go on with the next item of the phase.
    Continue,
    /// Start deploying topics.
    BeginDeploy,
    /// Start migrating schemas.
    BeginMigrate,
    /// End the process with this exit code.
    Exit { code: i32 },
    /// The event does not belong to the current phase; nothing changed.
    Rejected,
}

/// Whether `event`, reported in `phase`, raises the error flag.
pub open spec fn raises(phase: Phase, event: Event) -> bool {
    match (phase, event) {
        (Phase::Validating, Event::SchemaValidated(outcome)) => outcome.fails(),
        (Phase::Deploying, Event::TopicLoadFailed(_)) => true,
        (Phase::Migrating, Event::SchemaMigrated(outcome)) => outcome.fails(),
        _ => false,
    }
}

/// Whether `event` reports an item of `phase`.
pub open spec fn belongs(phase: Phase, event: Event) -> bool {
    match (phase, event) {
        (Phase::Validating, Event::SchemaValidated(_)) => true,
        (Phase::Deploying, Event::TopicLoadFailed(_)) => true,
        (Phase::Deploying, Event::TopicDeployed(_)) => true,
        (Phase::Migrating, Event::SchemaMigrated(_)) => true,
        _ => false,
    }
}

/// The exit code that goes with the error flag.
pub open spec fn exit_code_for(any_errors: bool) -> i32 {
    if any_errors {
        1
    } else {
        0
    }
}

/// The error flag after `event` was reported in `phase`: it goes up where the
/// event raises it, and never down.
pub open spec fn next_errors(phase: Phase, any_errors: bool, event: Event) -> bool {
    any_errors || raises(phase, event)
}

/// The phase after `event` was reported in `phase`.
pub open spec fn next_phase(phase: Phase, any_errors: bool, event: Event) -> Phase {
    match (phase, event) {
        (Phase::Validating, Event::PhaseFinished) => if any_errors {
            Phase::Done
        } else {
            Phase::Deploying
        },
        (Phase::Deploying, Event::PhaseFinished) => Phase::Migrating,
        (Phase::Migrating, Event::PhaseFinished) => Phase::Done,
        _ => phase,
    }
}

/// What the machine answers to `event` in `phase`.
pub open spec fn action_for(phase: Phase, any_errors: bool, event: Event) -> Action {
    match (phase, event) {
        (Phase::Done, _) => Action::Exit { code: exit_code_for(any_errors) },
        (Phase::Validating, Event::PhaseFinished) => if any_errors {
            Action::Exit { code: 1 }
        } else {
            Action::BeginDeploy
        },
        (Phase::Deploying, Event::PhaseFinished) => Action::BeginMigrate,
        (Phase::Migrating, Event::PhaseFinished) => Action::Exit { code: exit_code_for(any_errors) },
        _ => if belongs(phase, event) {
            Action::Continue
        } else {
            Action::Rejected
        },
    }
}

/// The state of one run.
#[derive(Clone, Copy, Debug)]
pub struct Pipeline {
    phase: Phase,
    any_errors: bool,
}

impl Pipeline {
    /// The phase the run is in.
    pub closed spec fn phase_spec(&self) -> Phase {
        self.phase
    }

    /// Whether anything has failed so far.
    pub closed spec fn errors_spec(&self) -> bool {
        self.any_errors
    }

    /// A run at its start: validating, with nothing failed.
    pub fn new() -> (run: Pipeline)
        ensures
            run.phase_spec() == Phase::Validating,
            !run.errors_spec(),
    {
        Pipeline { phase: Phase::Validating, any_errors: false }
    }

    /// The phase the run is in.
    #[verifier::when_used_as_spec(phase_spec)]
    pub fn phase(&self) -> (phase: Phase)
        ensures
            phase == self.phase_spec(),
    {
        self.phase
    }

    /// Whether anything has failed so far.
    #[verifier::when_used_as_spec(errors_spec)]
    pub fn any_errors(&self) -> (yes: bool)
        ensures
            yes == self.errors_spec(),
    {
        self.any_errors
    }

    /// The exit code of the run, once it is done.
    pub fn exit_code(&self) -> (code: Option<i32>)
        ensures
            code == if self.phase_spec() == Phase::Done {
                Some(exit_code_for(self.errors_spec()))
            } else {
                None
            },
    {
        match self.phase {
            Phase::Done => Some(if self.any_errors { 1 } else { 0 }),
            _ => None,
        }
    }

    /// Takes one report and answers with what to do next.
    pub fn step(&mut self, event: Event) -> (action: Action)
        ensures
            final(self).phase_spec() == next_phase(
                old(self).phase_spec(),
                old(self).errors_spec(),
                event,
            ),
            final(self).errors_spec() == next_errors(
                old(self).phase_spec(),
                old(self).errors_spec(),
                event,
            ),
            action == action_for(old(self).phase_spec(), old(self).errors_spec(), event),
    {
        let phase = self.phase;
        let any_errors = self.any_errors;
        match (phase, event) {
            (Phase::Done, _) => Action::Exit { code: if any_errors { 1 } else { 0 } },
            (Phase::Validating, Event::SchemaValidated(outcome)) => {
                if outcome.is_error() {
                    self.any_errors = true;
                }
                Action::Continue
            },
            (Phase::Validating, Event::PhaseFinished) => {
                if any_errors {
                    self.phase = Phase::Done;
                    Action::Exit { code: 1 }
                } else {
                    self.phase = Phase::Deploying;
                    Action::BeginDeploy
                }
            },
            (Phase::Deploying, Event::TopicLoadFailed(_)) => {
                self.any_errors = true;
                Action::Continue
            },
            (Phase::Deploying, Event::TopicDeployed(_)) => Action::Continue,
            (Phase::Deploying, Event::PhaseFinished) => {
                self.phase = Phase::Migrating;
                Action::BeginMigrate
            },
            (Phase::Migrating, Event::SchemaMigrated(outcome)) => {
                if outcome.is_error() {
                    self.any_errors = true;
                }
                Action::Continue
            },
            (Phase::Migrating, Event::PhaseFinished) => {
                self.phase = Phase::Done;
                Action::Exit { code: if any_errors { 1 } else { 0 } }
            },
            _ => Action::Rejected,
        }
    }
}

/// The phase and the error flag after `events` were reported, one after the
/// other, to a run that stood in `phase` with the flag at `any_errors`.
pub open spec fn run(phase: Phase, any_errors: bool, events: Seq<Event>) -> (Phase, bool)
    decreases events.len(),
{
    if events.len() == 0 {
        (phase, any_errors)
    } else {
        let before = run(phase, any_errors, events.drop_last());
        (
            next_phase(before.0, before.1, events.last()),
            next_errors(before.0, before.1, events.last()),
        )
    }
}

/// The machine's answer to the last of `events`, reported after all the others
/// to a fresh run.
pub open spec fn last_answer(events: Seq<Event>) -> Action
    recommends
        events.len() > 0,
{
    let before = run(Phase::Validating, false, events.drop_last());
    action_for(before.0, before.1, events.last())
}

/// Whether `event` reports a schema that failed validation.
pub open spec fn failed_validation(event: Event) -> bool {
    event matches Event::SchemaValidated(outcome) && outcome.fails()
}

/// Until the validate phase is reported finished, a fresh run stays in it.
pub proof fn validation_lasts(events: Seq<Event>)
    requires
        forall|j: int| 0 <= j < events.len() ==> events[j] != Event::PhaseFinished,
    ensures
        run(Phase::Validating, false, events).0 == Phase::Validating,
    decreases events.len(),
{
    if events.len() > 0 {
        let shorter = events.drop_last();
        assert forall|j: int| 0 <= j < shorter.len() implies shorter[j] != Event::PhaseFinished by {
            assert(shorter[j] == events[j]);
        }
        validation_lasts(shorter);
    }
}

/// A failed validation stops the run. Where the failure of a schema is
/// reported before the validate phase is reported finished, the run from
/// then on has its flag up and is validating or done: it never deploys a
/// topic and never migrates a schema. No answer from then on starts a phase,
/// every exit is with code 1, and the report that ends the validate phase is
/// answered with that exit.
pub proof fn gate_stops_failed_validation(events: Seq<Event>, i: int, n: int)
    requires
        0 <= i < n <= events.len(),
        failed_validation(events[i]),
        forall|j: int| 0 <= j < i ==> events[j] != Event::PhaseFinished,
    ensures
        run(Phase::Validating, false, events.take(n)).1,
        run(Phase::Validating, false, events.take(n)).0 == Phase::Validating || run(
            Phase::Validating,
            false,
            events.take(n),
        ).0 == Phase::Done,
        n > i + 1 ==> last_answer(events.take(n)) != Action::BeginDeploy,
        n > i + 1 ==> last_answer(events.take(n)) != Action::BeginMigrate,
        n > i + 1 ==> (last_answer(events.take(n)) matches Action::Exit { code } ==> code == 1),
        n > i + 1 && events[n - 1] == Event::PhaseFinished ==> last_answer(events.take(n))
            == (Action::Exit { code: 1 }),
    decreases n,
{
    let upto = events.take(n);
    assert(upto.drop_last() =~= events.take(n - 1));
    assert(upto.last() == events[n - 1]);
    if n == i + 1 {
        let before = events.take(i);
        assert forall|j: int| 0 <= j < before.len() implies before[j] != Event::PhaseFinished by {
            assert(before[j] == events[j]);
        }
        validation_lasts(before);
    } else {
        gate_stops_failed_validation(events, i, n - 1);
    }
}

/// Where no schema fails validation, the run goes on to deploy: after any
/// number of validations without a failure a fresh run is still validating
/// with its flag down, and the report that ends the phase is answered with
/// the start of deployment.
pub proof fn clean_validation_goes_on(events: Seq<Event>)
    requires
        forall|j: int|
            0 <= j < events.len() ==> (#[trigger] events[j] matches Event::SchemaValidated(outcome)
                && !outcome.fails()),
    ensures
        run(Phase::Validating, false, events) == (Phase::Validating, false),
        last_answer(events.push(Event::PhaseFinished)) == Action::BeginDeploy,
        run(Phase::Validating, false, events.push(Event::PhaseFinished)) == (
            Phase::Deploying,
            false,
        ),
    decreases events.len(),
{
    if events.len() > 0 {
        let shorter = events.drop_last();
        assert forall|j: int| 0 <= j < shorter.len() implies (#[trigger] shorter[j] matches Event::SchemaValidated(
            outcome,
        ) && !outcome.fails()) by {
            assert(shorter[j] == events[j]);
        }
        clean_validation_goes_on(shorter);
        assert(events.last() == events[events.len() - 1]);
    }
    assert(events.push(Event::PhaseFinished).drop_last() =~= events);
}

/// The flag is the disjunction of what the reports raise: it is up after
/// `events` exactly where it was up before or one of them, in the phase in
/// which it was reported, raises it. So it never comes down, and the order in
/// which the items of one phase are reported does not matter to it.
pub proof fn flag_collects_failures(phase: Phase, any_errors: bool, events: Seq<Event>)
    ensures
        run(phase, any_errors, events).1 == (any_errors || exists|k: int|
            0 <= k < events.len() && raises(
                #[trigger] run(phase, any_errors, events.take(k)).0,
                events[k],
            )),
    decreases events.len(),
{
    if events.len() > 0 {
        let shorter = events.drop_last();
        let last = events.len() - 1;
        flag_collects_failures(phase, any_errors, shorter);
        assert(events.take(last) =~= shorter);
        assert forall|k: int| 0 <= k < shorter.len() implies events.take(k) == shorter.take(k)
            && events[k] == shorter[k] by {
            assert(events.take(k) =~= shorter.take(k));
        }
        if run(phase, any_errors, events).1 && !any_errors {
            if raises(run(phase, any_errors, shorter).0, events.last()) {
                assert(raises(run(phase, any_errors, events.take(last)).0, events[last]));
            } else {
                let k = choose|k: int|
                    0 <= k < shorter.len() && raises(
                        #[trigger] run(phase, any_errors, shorter.take(k)).0,
                        shorter[k],
                    );
                assert(raises(run(phase, any_errors, events.take(k)).0, events[k]));
            }
        }
        if !run(phase, any_errors, events).1 {
            assert forall|k: int| 0 <= k < events.len() implies !raises(
                #[trigger] run(phase, any_errors, events.take(k)).0,
                events[k],
            ) by {
                if k < shorter.len() {
                    assert(!raises(run(phase, any_errors, shorter.take(k)).0, shorter[k]));
                }
            }
        }
    }
}

/// A run ends with exit code 0 only where no schema failed validation or
/// migration and every topic's descriptor could be loaded.
pub proof fn clean_exit_means_no_failure(events: Seq<Event>, k: int)
    requires
        run(Phase::Validating, false, events) == (Phase::Done, false),
        0 <= k < events.len(),
    ensures
        !raises(run(Phase::Validating, false, events.take(k)).0, events[k]),
{
    flag_collects_failures(Phase::Validating, false, events);
}

} // verus!
