//! The termination service: the one object that owns the registration latch,
//! the carried application handle and the phase of the hook.
//!
//! The service performs no native work itself. It is driven from outside:
//! [`setup_termination_handler`] trips the latch and hands out the first native
//! step, [`TerminationService::report_step`] takes the outcome of a step and
//! hands out the next one, and [`TerminationService::begin_callback`] and
//! [`TerminationService::finish_callback`] bracket the cleanup when the
//! platform fires its event. Exclusive access (`&mut`) puts concurrent callers
//! in a row, so each call sees the hook in one definite phase.

use crate::carrier::carried;
use crate::carrier::HandleCarrier;
use crate::carrier::HandleToken;
use crate::lifecycle::CleanupReport;
use crate::lifecycle::Effect;
use crate::lifecycle::Event;
use crate::lifecycle::Phase;
use vstd::prelude::*;

verus! {

/// What a service is, seen from outside.
pub struct ServiceState<H> {
    /// How far the hook has come.
    pub phase: Phase,
    /// The token that stands for the application handle across the native
    /// boundary, once a setup request has been accepted.
    pub token: Option<HandleToken>,
    /// The application handle that the token names.
    pub handle: Option<H>,
}

/// The owner of the termination hook's state.
pub struct TerminationService<H> {
    phase: Phase,
    carrier: HandleCarrier<H>,
    token: Option<HandleToken>,
}

impl<H> View for TerminationService<H> {
    type V = ServiceState<H>;

    closed spec fn view(&self) -> ServiceState<H> {
        ServiceState {
            phase: self.phase,
            token: self.token,
            handle: match self.token {
                Some(token) => carried(self.carrier@, token),
                None => None,
            },
        }
    }
}

impl<H> TerminationService<H> {
    /// Once the latch has tripped there is a token, and a token always names
    /// a handle.
    #[verifier::type_invariant]
    spec fn consistent(self) -> bool {
        &&& !(self.phase is Unregistered) ==> self.token is Some
        &&& self.token matches Some(token) ==> carried(self.carrier@, token) is Some
    }

    /// Whether the service takes the platform's event when it arrives with
    /// `token`: the hook must be registered, and the token must be the one the
    /// service issued.
    pub open spec fn accepts(&self, token: HandleToken) -> bool {
        self@.phase == Phase::Registered && self@.token == Some(token)
    }

    /// A service whose latch is untripped: nothing registered, nothing carried.
    pub fn new() -> (service: Self)
        ensures
            service@ == (ServiceState::<H> { phase: Phase::Unregistered, token: None, handle: None }),
    {
        TerminationService { phase: Phase::Unregistered, carrier: HandleCarrier::new(), token: None }
    }

    /// The phase the hook is in.
    pub fn phase(&self) -> (phase: Phase)
        ensures
            phase == self@.phase,
    {
        self.phase
    }

    /// The token to store with the observer, once setup has been accepted.
    pub fn token(&self) -> (token: Option<HandleToken>)
        ensures
            token == self@.token,
            !(self@.phase is Unregistered) ==> token is Some,
    {
        proof {
            use_type_invariant(self);
        }
        self.token
    }

    /// The registration guard. The first request trips the latch, takes
    /// `handle` over and asks for the first native step; every later request,
    /// in whatever phase, changes nothing, asks for nothing and lets go of the
    /// handle it was given.
    pub fn register(&mut self, handle: H) -> (effect: Effect)
        ensures
            effect == old(self)@.phase.effect(Event::SetupRequested),
            final(self)@.phase == old(self)@.phase.after(Event::SetupRequested),
            old(self)@.phase is Unregistered ==> final(self)@.handle == Some(handle),
            old(self)@.phase is Unregistered ==> final(self)@.token == Some(
                (HandleToken { slot: 0 }),
            ),
            !(old(self)@.phase is Unregistered) ==> final(self)@ == old(self)@,
    {
        let transition = self.phase.on_event(Event::SetupRequested);
        match self.phase {
            Phase::Unregistered => {
                let mut carrier = HandleCarrier::new();
                let token = carrier.carry(handle);
                *self = TerminationService { phase: transition.next, carrier, token: Some(token) };
            },
            _ => {},
        }
        transition.effect
    }

    /// Takes the outcome of the native step that was handed out last. After a
    /// success it asks for the next step, or completes the registration when
    /// the step was the last; after a failure it gives the installation up for
    /// good and asks for that to be reported. Outside an installation it
    /// changes nothing.
    pub fn report_step(&mut self, succeeded: bool) -> (effect: Effect)
        ensures
            effect == old(self)@.phase.effect(step_event(succeeded)),
            final(self)@.phase == old(self)@.phase.after(step_event(succeeded)),
            final(self)@.token == old(self)@.token,
            final(self)@.handle == old(self)@.handle,
    {
        let event = if succeeded {
            Event::StepSucceeded
        } else {
            Event::StepFailed
        };
        let transition = self.phase.on_event(event);
        proof {
            use_type_invariant(&*self);
        }
        self.phase = transition.next;
        transition.effect
    }

    /// The entry of the termination callback. Where the service accepts the
    /// event, the callback is running from now on and a clone of the carried
    /// handle is handed out for the cleanup; otherwise nothing changes and no
    /// handle is given out, so no cleanup can be started.
    pub fn begin_callback(&mut self, token: HandleToken) -> (handle: Option<H>) where H: Clone
        ensures
            handle is Some <==> old(self).accepts(token),
            old(self).accepts(token) ==> final(self)@.phase == Phase::CallbackRunning,
            !old(self).accepts(token) ==> final(self)@.phase == old(self)@.phase,
            final(self)@.token == old(self)@.token,
            final(self)@.handle == old(self)@.handle,
            handle matches Some(given) ==> old(self)@.handle matches Some(kept) && cloned(
                kept,
                given,
            ),
    {
        proof {
            use_type_invariant(&*self);
        }
        let expected = match self.token {
            Some(own) => own.slot == token.slot,
            None => false,
        };
        let transition = self.phase.on_event(Event::TerminationFired);
        match transition.effect {
            Effect::RunCleanup => {
                if expected {
                    match self.carrier.borrow(token) {
                        Some(kept) => {
                            let given = kept.clone();
                            self.phase = transition.next;
                            Some(given)
                        },
                        None => None,
                    }
                } else {
                    None
                }
            },
            _ => None,
        }
    }

    /// The exit of the termination callback: `report` says whether the
    /// cleanup ran to its end, broke down, or could not be started for want of
    /// an execution context. Whichever it was, a running callback has returned
    /// from now on, and control is to go back to the platform; in any other
    /// phase nothing changes.
    pub fn finish_callback(&mut self, report: CleanupReport) -> (effect: Effect)
        ensures
            effect == old(self)@.phase.effect(report.event()),
            final(self)@.phase == old(self)@.phase.after(report.event()),
            old(self)@.phase == Phase::CallbackRunning ==> effect == Effect::ReturnToOs,
            old(self)@.phase == Phase::CallbackRunning ==> final(self)@.phase
                == Phase::CallbackReturned,
            final(self)@.token == old(self)@.token,
            final(self)@.handle == old(self)@.handle,
    {
        let transition = self.phase.on_event(report.to_event());
        proof {
            use_type_invariant(&*self);
        }
        self.phase = transition.next;
        transition.effect
    }
}

/// The event that the outcome of a native step amounts to.
pub open spec fn step_event(succeeded: bool) -> Event {
    if succeeded {
        Event::StepSucceeded
    } else {
        Event::StepFailed
    }
}

/// The public entry point, safe to call any number of times. The first call
/// on a service takes `handle` over and returns the first native step of the
/// bridge installation as `Effect::Perform`; the caller performs it and goes
/// on with [`TerminationService::report_step`]. Every other call returns
/// `Effect::Nothing` and leaves the service exactly as it was.
pub fn setup_termination_handler<H>(service: &mut TerminationService<H>, handle: H) -> (effect:
    Effect)
    ensures
        effect == old(service)@.phase.effect(Event::SetupRequested),
        final(service)@.phase == old(service)@.phase.after(Event::SetupRequested),
        old(service)@.phase is Unregistered ==> final(service)@.handle == Some(handle),
        old(service)@.phase is Unregistered ==> final(service)@.token == Some(
            (HandleToken { slot: 0 }),
        ),
        !(old(service)@.phase is Unregistered) ==> final(service)@ == old(service)@,
{
    service.register(handle)
}

} // verus!
