//! The lifecycle of the termination hook as a state machine.
//!
//! A [`Phase`] says how far the hook has come; an [`Event`] is something that
//! happened outside (a setup request, the outcome of a native step, the
//! platform's termination notice, the end of the cleanup, good or bad); an
//! [`Effect`] is
//! what the owner of the native boundary has to do next. [`Phase::on_event`]
//! is the whole machine. Calls from several threads reach it one after the
//! other, so every possible interleaving is a sequence of events, and the laws
//! at the end of this file hold of every such sequence.

use crate::bridge::installation_plan;
use crate::bridge::NativeStep;
use vstd::prelude::*;

verus! {

/// How far the termination hook has come.
#[derive(Clone, Copy, Debug, PartialEq, Eq, Structural)]
pub enum Phase {
    /// Nobody has asked for the hook yet.
    Unregistered,
    /// The latch has tripped and the bridge is being installed; `pending` has
    /// been handed out and its outcome is awaited.
    Installing { pending: NativeStep },
    /// The observer is subscribed; the platform may fire the event.
    Registered,
    /// The platform lacked what `failed` needs. The hook is not installed and
    /// will not be tried again; the application goes on without it.
    Unavailable { failed: NativeStep },
    /// The platform fired the event and the cleanup has been asked for.
    CallbackRunning,
    /// The callback has handed control back to the platform.
    CallbackReturned,
}

/// What can happen to the hook from outside.
#[derive(Clone, Copy, Debug, PartialEq, Eq, Structural)]
pub enum Event {
    /// The application called the setup entry point.
    SetupRequested,
    /// The native step that was handed out last has been performed.
    StepSucceeded,
    /// The native step that was handed out last could not be performed.
    StepFailed,
    /// The platform announced that the application will terminate.
    TerminationFired,
    /// The cleanup ran and its asynchronous work has come to an end.
    CleanupSettled,
    /// The cleanup was started and broke down: it gave an error or panicked.
    CleanupFailed,
    /// No execution context could be built for the cleanup, so it did not run.
    ContextUnavailable,
}

/// How the attempt to run the cleanup ended, as whoever ran it reports it.
#[derive(Clone, Copy, Debug, PartialEq, Eq, Structural)]
pub enum CleanupReport {
    /// The cleanup ran and its asynchronous work has come to an end.
    Settled,
    /// The cleanup was started and broke down: it gave an error or panicked.
    /// The failure ends here; it is not handed on to the platform.
    Failed,
    /// No execution context could be built for the cleanup, so it did not run.
    ContextUnavailable,
}

impl CleanupReport {
    /// The event that the report amounts to.
    pub open spec fn event(self) -> Event {
        match self {
            CleanupReport::Settled => Event::CleanupSettled,
            CleanupReport::Failed => Event::CleanupFailed,
            CleanupReport::ContextUnavailable => Event::ContextUnavailable,
        }
    }

    /// The event to feed to the machine for this report.
    pub fn to_event(self) -> (event: Event)
        ensures
            event == self.event(),
    {
        match self {
            CleanupReport::Settled => Event::CleanupSettled,
            CleanupReport::Failed => Event::CleanupFailed,
            CleanupReport::ContextUnavailable => Event::ContextUnavailable,
        }
    }
}

/// What the owner of the native boundary has to do in answer to an event.
#[derive(Clone, Copy, Debug, PartialEq, Eq, Structural)]
pub enum Effect {
    /// Nothing at all: the event changes nothing outside.
    Nothing,
    /// Perform this native step and report how it went.
    Perform(NativeStep),
    /// Tell the application that the hook could not be installed because this
    /// step failed, and carry on.
    ReportUnavailable(NativeStep),
    /// Run the cleanup to its end, blocking the calling thread meanwhile.
    RunCleanup,
    /// Hand control back to the platform, without ending the process.
    ReturnToOs,
}

/// A phase change together with what it asks for.
#[derive(Clone, Copy, Debug, PartialEq, Eq, Structural)]
pub struct Transition {
    pub next: Phase,
    pub effect: Effect,
}

impl Phase {
    /// The phase that follows `self` when `event` happens. Every pair that is
    /// not listed leaves the phase as it is.
    pub open spec fn after(self, event: Event) -> Phase {
        match (self, event) {
            (Phase::Unregistered, Event::SetupRequested) => Phase::Installing {
                pending: installation_plan()[0],
            },
            (Phase::Installing { pending }, Event::StepSucceeded) => match pending.successor() {
                Some(step) => Phase::Installing { pending: step },
                None => Phase::Registered,
            },
            (Phase::Installing { pending }, Event::StepFailed) => Phase::Unavailable {
                failed: pending,
            },
            (Phase::Registered, Event::TerminationFired) => Phase::CallbackRunning,
            (Phase::CallbackRunning, Event::CleanupSettled) => Phase::CallbackReturned,
            (Phase::CallbackRunning, Event::CleanupFailed) => Phase::CallbackReturned,
            (Phase::CallbackRunning, Event::ContextUnavailable) => Phase::CallbackReturned,
            _ => self,
        }
    }

    /// What `event` asks for when it happens in phase `self`. Every pair that
    /// is not listed asks for nothing.
    pub open spec fn effect(self, event: Event) -> Effect {
        match (self, event) {
            (Phase::Unregistered, Event::SetupRequested) => Effect::Perform(installation_plan()[0]),
            (Phase::Installing { pending }, Event::StepSucceeded) => match pending.successor() {
                Some(step) => Effect::Perform(step),
                None => Effect::Nothing,
            },
            (Phase::Installing { pending }, Event::StepFailed) => Effect::ReportUnavailable(
                pending,
            ),
            (Phase::Registered, Event::TerminationFired) => Effect::RunCleanup,
            (Phase::CallbackRunning, Event::CleanupSettled) => Effect::ReturnToOs,
            (Phase::CallbackRunning, Event::CleanupFailed) => Effect::ReturnToOs,
            (Phase::CallbackRunning, Event::ContextUnavailable) => Effect::ReturnToOs,
            _ => Effect::Nothing,
        }
    }

    /// How many native steps have been handed out by the time the hook is in
    /// phase `self`.
    pub open spec fn steps_issued(self) -> nat {
        match self {
            Phase::Unregistered => 0,
            Phase::Installing { pending } => pending.rank() + 1,
            Phase::Unavailable { failed } => failed.rank() + 1,
            _ => installation_plan().len(),
        }
    }

    /// Whether the platform's event has been accepted in or before `self`.
    pub open spec fn callback_entered(self) -> bool {
        self is CallbackRunning || self is CallbackReturned
    }

    /// The machine: the phase that follows and what has to be done.
    pub fn on_event(self, event: Event) -> (transition: Transition)
        ensures
            transition.next == self.after(event),
            transition.effect == self.effect(event),
    {
        match self {
            Phase::Unregistered => match event {
                Event::SetupRequested => {
                    let step = NativeStep::first();
                    Transition { next: Phase::Installing { pending: step }, effect: Effect::Perform(step) }
                },
                _ => Transition { next: self, effect: Effect::Nothing },
            },
            Phase::Installing { pending } => match event {
                Event::StepSucceeded => match pending.next() {
                    Some(step) => Transition {
                        next: Phase::Installing { pending: step },
                        effect: Effect::Perform(step),
                    },
                    None => Transition { next: Phase::Registered, effect: Effect::Nothing },
                },
                Event::StepFailed => Transition {
                    next: Phase::Unavailable { failed: pending },
                    effect: Effect::ReportUnavailable(pending),
                },
                _ => Transition { next: self, effect: Effect::Nothing },
            },
            Phase::Registered => match event {
                Event::TerminationFired => Transition {
                    next: Phase::CallbackRunning,
                    effect: Effect::RunCleanup,
                },
                _ => Transition { next: self, effect: Effect::Nothing },
            },
            Phase::CallbackRunning => match event {
                Event::CleanupSettled | Event::CleanupFailed | Event::ContextUnavailable => Transition {
                    next: Phase::CallbackReturned,
                    effect: Effect::ReturnToOs,
                },
                _ => Transition { next: self, effect: Effect::Nothing },
            },
            Phase::Unavailable { .. } | Phase::CallbackReturned => Transition {
                next: self,
                effect: Effect::Nothing,
            },
        }
    }
}

/// The phase reached from `start` when `events` happen one after the other.
pub open spec fn phase_after(start: Phase, events: Seq<Event>) -> Phase
    decreases events.len(),
{
    if events.len() == 0 {
        start
    } else {
        phase_after(start.after(events[0]), events.drop_first())
    }
}

/// How often `wanted` is asked for while `events` happen one after the other,
/// starting in phase `start`.
pub open spec fn times_asked(start: Phase, events: Seq<Event>, wanted: Effect) -> nat
    decreases events.len(),
{
    if events.len() == 0 {
        0
    } else {
        let here: nat = if start.effect(events[0]) == wanted {
            1
        } else {
            0
        };
        here + times_asked(start.after(events[0]), events.drop_first(), wanted)
    }
}

/// A setup request changes something only while the latch is untripped: in every
/// other phase it leaves the phase as it is and asks for nothing, so no second
/// observer is built and no native step is repeated.
pub proof fn lemma_setup_is_idempotent(phase: Phase)
    ensures
        phase != Phase::Unregistered ==> phase.after(Event::SetupRequested) == phase
            && phase.effect(Event::SetupRequested) == Effect::Nothing,
        phase.after(Event::SetupRequested).after(Event::SetupRequested) == phase.after(
            Event::SetupRequested,
        ),
        phase.after(Event::SetupRequested).effect(Event::SetupRequested) == Effect::Nothing,
{
}

/// The platform's event is accepted in one phase only, `Registered`, and that
/// phase is entered by one door only: the success of the subscription. In
/// every other phase the event changes nothing and no cleanup is asked for.
pub proof fn lemma_termination_needs_subscription(phase: Phase, event: Event)
    ensures
        phase.effect(event) == Effect::RunCleanup <==> phase == Phase::Registered && event
            == Event::TerminationFired,
        phase != Phase::Registered ==> phase.after(Event::TerminationFired) == phase,
        phase != Phase::Registered && phase.after(event) == Phase::Registered ==> phase
            == (Phase::Installing { pending: NativeStep::Subscribe }) && event
            == Event::StepSucceeded,
{
}

/// Control goes back to the platform only from a running callback, and only
/// when the cleanup has settled, has failed or could not be started. Each of
/// the three reports ends a running callback.
pub proof fn lemma_return_waits_for_cleanup(phase: Phase, event: Event, report: CleanupReport)
    ensures
        phase.effect(event) == Effect::ReturnToOs <==> phase == Phase::CallbackRunning && (event
            == Event::CleanupSettled || event == Event::CleanupFailed || event
            == Event::ContextUnavailable),
        phase != Phase::CallbackReturned && phase.after(event) == Phase::CallbackReturned
            ==> phase == Phase::CallbackRunning,
        Phase::CallbackRunning.after(report.event()) == Phase::CallbackReturned,
        Phase::CallbackRunning.effect(report.event()) == Effect::ReturnToOs,
{
}

/// A cleanup that fails is swallowed: the callback returns to the platform as
/// it does after a cleanup that settled, and whatever happens afterwards, the
/// cleanup is not asked for again.
pub proof fn lemma_failed_cleanup_is_not_retried(events: Seq<Event>)
    ensures
        Phase::CallbackRunning.after(Event::CleanupFailed) == Phase::CallbackReturned,
        Phase::CallbackRunning.effect(Event::CleanupFailed) == Effect::ReturnToOs,
        phase_after(Phase::CallbackReturned, events) == Phase::CallbackReturned,
        times_asked(Phase::CallbackReturned, events, Effect::RunCleanup) == 0,
        times_asked(Phase::CallbackRunning, events, Effect::RunCleanup) == 0,
{
    lemma_single_cleanup(Phase::CallbackReturned, events);
    lemma_single_cleanup(Phase::CallbackRunning, events);
    lemma_progress_is_monotone(Phase::CallbackReturned, events);
}

/// A failed native step ends the installation for good: the hook stays
/// uninstalled, whatever happens afterwards, and nothing more is asked for.
pub proof fn lemma_unavailable_is_final(failed: NativeStep, events: Seq<Event>, wanted: Effect)
    ensures
        phase_after(Phase::Unavailable { failed }, events) == (Phase::Unavailable { failed }),
        wanted != Effect::Nothing ==> times_asked(Phase::Unavailable { failed }, events, wanted)
            == 0,
    decreases events.len(),
{
    if events.len() > 0 {
        lemma_unavailable_is_final(failed, events.drop_first(), wanted);
    }
}

/// The number of steps handed out never goes down, and never exceeds the
/// length of the plan.
pub proof fn lemma_progress_is_monotone(start: Phase, events: Seq<Event>)
    ensures
        start.steps_issued() <= phase_after(start, events).steps_issued(),
        phase_after(start, events).steps_issued() <= installation_plan().len(),
        start.callback_entered() ==> phase_after(start, events).callback_entered(),
        start == Phase::CallbackReturned ==> phase_after(start, events) == Phase::CallbackReturned,
    decreases events.len(),
{
    if events.len() > 0 {
        lemma_progress_is_monotone(start.after(events[0]), events.drop_first());
    }
}

/// Over any sequence of events, each native step is asked for exactly once if
/// the installation has come as far as that step, and not at all otherwise.
pub proof fn lemma_step_counts(start: Phase, events: Seq<Event>, step: NativeStep)
    ensures
        times_asked(start, events, Effect::Perform(step)) == (if start.steps_issued()
            <= step.rank() < phase_after(start, events).steps_issued() {
            1nat
        } else {
            0nat
        }),
    decreases events.len(),
{
    if events.len() > 0 {
        let next = start.after(events[0]);
        lemma_step_counts(next, events.drop_first(), step);
        lemma_progress_is_monotone(next, events.drop_first());
    }
}

/// However often and in whatever order setup is requested, no native step is
/// ever asked for twice: there is at most one observer and at most one
/// subscription. Once the whole plan has been handed out, as it has when the
/// hook is registered, each step of the plan, the creation of the observer and
/// the subscription among them, has been asked for exactly once; and the
/// installation has begun exactly once as soon as one setup request has been
/// made.
pub proof fn lemma_single_installation(events: Seq<Event>, step: NativeStep)
    ensures
        times_asked(Phase::Unregistered, events, Effect::Perform(step)) <= 1,
        phase_after(Phase::Unregistered, events).steps_issued() == installation_plan().len()
            ==> times_asked(Phase::Unregistered, events, Effect::Perform(step)) == 1,
        events.contains(Event::SetupRequested) <==> times_asked(
            Phase::Unregistered,
            events,
            Effect::Perform(installation_plan()[0]),
        ) == 1,
{
    lemma_step_counts(Phase::Unregistered, events, step);
    lemma_step_counts(Phase::Unregistered, events, installation_plan()[0]);
    lemma_first_request_trips_latch(events);
}

/// The latch is still untripped after `events` exactly if none of them was a setup
/// request.
pub proof fn lemma_first_request_trips_latch(events: Seq<Event>)
    ensures
        phase_after(Phase::Unregistered, events) == Phase::Unregistered <==> !events.contains(
            Event::SetupRequested,
        ),
    decreases events.len(),
{
    if events.len() > 0 {
        let rest = events.drop_first();
        assert(events[0] == Event::SetupRequested ==> events.contains(Event::SetupRequested));
        assert forall|e: Event| rest.contains(e) implies events.contains(e) by {
            let i = choose|i: int| 0 <= i < rest.len() && rest[i] == e;
            assert(events[i + 1] == e);
        }
        if events[0] == Event::SetupRequested {
            lemma_progress_is_monotone(Phase::Unregistered.after(events[0]), rest);
        } else {
            lemma_first_request_trips_latch(rest);
            if events.contains(Event::SetupRequested) {
                let i = choose|i: int| 0 <= i < events.len() && events[i] == Event::SetupRequested;
                assert(rest[i - 1] == Event::SetupRequested);
            }
        }
    }
}

/// Over any sequence of events the cleanup is asked for at most once, and
/// exactly once if the platform's event has been accepted; control goes back
/// to the platform at most once, and exactly once if the callback has
/// returned.
pub proof fn lemma_single_cleanup(start: Phase, events: Seq<Event>)
    ensures
        times_asked(start, events, Effect::RunCleanup) == (if !start.callback_entered()
            && phase_after(start, events).callback_entered() {
            1nat
        } else {
            0nat
        }),
        times_asked(start, events, Effect::ReturnToOs) == (if start != Phase::CallbackReturned
            && phase_after(start, events) == Phase::CallbackReturned {
            1nat
        } else {
            0nat
        }),
        times_asked(start, events, Effect::ReturnToOs) <= times_asked(
            start,
            events,
            Effect::RunCleanup,
        ) + (if start == Phase::CallbackRunning {
            1nat
        } else {
            0nat
        }),
    decreases events.len(),
{
    if events.len() > 0 {
        let next = start.after(events[0]);
        lemma_single_cleanup(next, events.drop_first());
        lemma_progress_is_monotone(next, events.drop_first());
    }
}

/// A cleanup is never asked for unless the subscription has been made: in any
/// sequence of events that starts before setup, a cleanup request implies that
/// the subscription step was performed, exactly once.
pub proof fn lemma_cleanup_follows_subscription(events: Seq<Event>)
    ensures
        times_asked(Phase::Unregistered, events, Effect::RunCleanup) >= 1 ==> times_asked(
            Phase::Unregistered,
            events,
            Effect::Perform(NativeStep::Subscribe),
        ) == 1,
{
    lemma_single_cleanup(Phase::Unregistered, events);
    lemma_step_counts(Phase::Unregistered, events, NativeStep::Subscribe);
}

} // verus!
