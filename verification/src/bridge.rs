//! The termination bridge: the fixed sequence of native operations that builds
//! the observer object and subscribes it to the "application will terminate"
//! notification, together with the names the host platform expects.
//!
//! Nothing here touches the platform. The steps are data: whoever owns the
//! native boundary performs them one at a time, in the order given by
//! [`installation_plan`], and reports each outcome back to the service.

use vstd::prelude::*;

verus! {

/// One native operation of the bridge installation.
#[derive(Clone, Copy, Debug, PartialEq, Eq, Structural)]
pub enum NativeStep {
    /// Look up the root class the observer class derives from.
    ResolveRootClass,
    /// Start declaring the observer class under [`observer_class_name`].
    DeclareObserverClass,
    /// Give the observer class the slot that keeps the handle token.
    AddTokenSlot,
    /// Attach the termination callback under [`termination_selector`].
    AddTerminationMethod,
    /// Register the finished class with the native runtime.
    RegisterObserverClass,
    /// Create the single observer instance.
    CreateObserver,
    /// Write the handle token into the observer's slot.
    StoreToken,
    /// Put the observer into the process-wide slot that keeps it alive.
    RetainObserver,
    /// Obtain the default notification center.
    ResolveNotificationCenter,
    /// Obtain the shared application object the subscription is scoped to.
    ResolveApplication,
    /// Build the native string that names the notification.
    BuildNotificationName,
    /// Subscribe the observer to the notification.
    Subscribe,
}

/// The installation, first step first. The subscription comes last: the
/// platform cannot deliver a termination event to an observer that is not yet
/// complete.
pub open spec fn installation_plan() -> Seq<NativeStep> {
    seq![
        NativeStep::ResolveRootClass,
        NativeStep::DeclareObserverClass,
        NativeStep::AddTokenSlot,
        NativeStep::AddTerminationMethod,
        NativeStep::RegisterObserverClass,
        NativeStep::CreateObserver,
        NativeStep::StoreToken,
        NativeStep::RetainObserver,
        NativeStep::ResolveNotificationCenter,
        NativeStep::ResolveApplication,
        NativeStep::BuildNotificationName,
        NativeStep::Subscribe,
    ]
}

impl NativeStep {
    /// Where the step stands in the plan, counted from zero.
    pub open spec fn rank(self) -> nat {
        match self {
            NativeStep::ResolveRootClass => 0,
            NativeStep::DeclareObserverClass => 1,
            NativeStep::AddTokenSlot => 2,
            NativeStep::AddTerminationMethod => 3,
            NativeStep::RegisterObserverClass => 4,
            NativeStep::CreateObserver => 5,
            NativeStep::StoreToken => 6,
            NativeStep::RetainObserver => 7,
            NativeStep::ResolveNotificationCenter => 8,
            NativeStep::ResolveApplication => 9,
            NativeStep::BuildNotificationName => 10,
            NativeStep::Subscribe => 11,
        }
    }

    /// The step that follows this one in the plan, if any.
    pub open spec fn successor(self) -> Option<NativeStep> {
        if self.rank() + 1 < installation_plan().len() {
            Some(installation_plan()[self.rank() as int + 1])
        } else {
            None
        }
    }

    /// The native class that must exist for the step to succeed, as the
    /// platform spells it.
    pub open spec fn required_class_name(self) -> Option<Seq<char>> {
        match self {
            NativeStep::ResolveRootClass => Some("NSObject"@),
            NativeStep::ResolveNotificationCenter => Some("NSNotificationCenter"@),
            NativeStep::ResolveApplication => Some("NSApplication"@),
            NativeStep::BuildNotificationName => Some("NSString"@),
            _ => None,
        }
    }

    /// The first step of the plan.
    pub fn first() -> (step: NativeStep)
        ensures
            step == installation_plan()[0],
            step.rank() == 0,
    {
        NativeStep::ResolveRootClass
    }

    /// The step to perform once this one has succeeded; `None` after the
    /// subscription, which completes the installation.
    pub fn next(self) -> (following: Option<NativeStep>)
        ensures
            following == self.successor(),
            following matches Some(step) ==> step.rank() == self.rank() + 1,
            following is None <==> self == NativeStep::Subscribe,
    {
        match self {
            NativeStep::ResolveRootClass => Some(NativeStep::DeclareObserverClass),
            NativeStep::DeclareObserverClass => Some(NativeStep::AddTokenSlot),
            NativeStep::AddTokenSlot => Some(NativeStep::AddTerminationMethod),
            NativeStep::AddTerminationMethod => Some(NativeStep::RegisterObserverClass),
            NativeStep::RegisterObserverClass => Some(NativeStep::CreateObserver),
            NativeStep::CreateObserver => Some(NativeStep::StoreToken),
            NativeStep::StoreToken => Some(NativeStep::RetainObserver),
            NativeStep::RetainObserver => Some(NativeStep::ResolveNotificationCenter),
            NativeStep::ResolveNotificationCenter => Some(NativeStep::ResolveApplication),
            NativeStep::ResolveApplication => Some(NativeStep::BuildNotificationName),
            NativeStep::BuildNotificationName => Some(NativeStep::Subscribe),
            NativeStep::Subscribe => None,
        }
    }

    /// The native class the step looks up, for the steps that look one up.
    pub fn required_class(self) -> (name: Option<&'static str>)
        ensures
            name is Some <==> self.required_class_name() is Some,
            name matches Some(text) ==> Some(text@) == self.required_class_name(),
    {
        match self {
            NativeStep::ResolveRootClass => Some("NSObject"),
            NativeStep::ResolveNotificationCenter => Some("NSNotificationCenter"),
            NativeStep::ResolveApplication => Some("NSApplication"),
            NativeStep::BuildNotificationName => Some("NSString"),
            _ => None,
        }
    }
}

/// The name under which the observer class is declared.
pub fn observer_class_name() -> (name: &'static str)
    ensures
        name@ == "OBBAppTerminationObserver"@,
{
    "OBBAppTerminationObserver"
}

/// The name of the observer's slot that keeps the handle token.
pub fn token_slot_name() -> (name: &'static str)
    ensures
        name@ == "appHandlePtr"@,
{
    "appHandlePtr"
}

/// The selector under which the platform invokes the termination callback.
/// The trailing colon is part of it: the callback takes the notification as
/// its one argument.
pub fn termination_selector() -> (name: &'static str)
    ensures
        name@ == "applicationWillTerminate:"@,
{
    "applicationWillTerminate:"
}

/// The one notification the observer subscribes to.
pub fn termination_notification_name() -> (name: &'static str)
    ensures
        name@ == "NSApplicationWillTerminateNotification"@,
{
    "NSApplicationWillTerminateNotification"
}

/// Every step stands in the plan at its rank, and nowhere else.
pub proof fn lemma_plan_lists_each_step_once(step: NativeStep)
    ensures
        step.rank() < installation_plan().len(),
        installation_plan()[step.rank() as int] == step,
        forall|i: int|
            0 <= i < installation_plan().len() && installation_plan()[i] == step ==> i
                == step.rank(),
{
}

/// The subscription is the last step of the plan, so every other step has
/// succeeded before the platform learns of the observer.
pub proof fn lemma_subscription_comes_last(step: NativeStep)
    ensures
        installation_plan().last() == NativeStep::Subscribe,
        step != NativeStep::Subscribe ==> step.rank() < NativeStep::Subscribe.rank(),
        step.successor() is None <==> step == NativeStep::Subscribe,
{
}

} // verus!
