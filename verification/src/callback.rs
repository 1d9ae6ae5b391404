//! The termination callback: what happens, on a thread the platform owns,
//! when the platform announces that the application will terminate.
//!
//! The callback looks the application handle up by its token, has the cleanup
//! run on it, waits for the report and returns. It never ends the process:
//! that is left to the platform. Running the cleanup means building a fresh
//! execution context and blocking on the asynchronous work; that is the
//! caller's part, and it reaches this module as a runner that takes the handle
//! and comes back with a [`CleanupReport`].

use crate::carrier::HandleToken;
use crate::lifecycle::CleanupReport;
use crate::lifecycle::Phase;
use crate::service::TerminationService;
use vstd::prelude::*;

verus! {

/// How a run of the termination callback ended.
#[derive(Clone, Copy, Debug, PartialEq, Eq, Structural)]
pub enum CallbackOutcome {
    /// The service did not accept the event: the hook is not registered, the
    /// callback has run before, or the token is not the service's own. The
    /// cleanup was not run.
    Ignored,
    /// The cleanup was run once and ended as the report says; the callback
    /// has returned to the platform.
    Returned(CleanupReport),
}

/// The termination callback. `token` is what the native layer kept for the
/// observer and now hands back; `run` runs the application's cleanup on the
/// handle it is given, to the end, and reports how it went.
///
/// Where the service accepts the event, `run` is called once, with a clone of
/// the carried handle, and whatever it reports (settled, failed, no execution
/// context) the callback has returned when this function returns: a failure
/// is carried in the result and goes no further. Where the service does not
/// accept the event, nothing changes and `run` is not called.
pub fn run_termination_callback<H, R>(
    service: &mut TerminationService<H>,
    token: HandleToken,
    run: R,
) -> (outcome: CallbackOutcome) where H: Clone, R: FnOnce(H) -> CleanupReport
    requires
        forall|handle: H|
            old(service)@.handle is Some && cloned(old(service)@.handle->0, handle)
                ==> call_requires(run, (handle,)),
    ensures
        outcome is Ignored <==> !old(service).accepts(token),
        outcome is Ignored ==> final(service)@ == old(service)@,
        outcome is Returned ==> final(service)@.phase == Phase::CallbackReturned,
        final(service)@.token == old(service)@.token,
        final(service)@.handle == old(service)@.handle,
        outcome matches CallbackOutcome::Returned(report) ==> exists|handle: H|
            #![trigger call_ensures(run, (handle,), report)]
            old(service)@.handle is Some && cloned(old(service)@.handle->0, handle)
                && call_ensures(run, (handle,), report),
{
    match service.begin_callback(token) {
        None => CallbackOutcome::Ignored,
        Some(handle) => {
            let report = run(handle);
            service.finish_callback(report);
            CallbackOutcome::Returned(report)
        },
    }
}

} // verus!
