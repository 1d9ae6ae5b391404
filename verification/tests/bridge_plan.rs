use app_termination::bridge::observer_class_name;
use app_termination::bridge::termination_notification_name;
use app_termination::bridge::termination_selector;
use app_termination::bridge::token_slot_name;
use app_termination::bridge::NativeStep;

fn walk_plan() -> Vec<NativeStep> {
    let mut steps = vec![NativeStep::first()];
    while let Some(step) = steps[steps.len() - 1].next() {
        steps.push(step);
    }
    steps
}

#[test]
fn plan_runs_from_root_class_to_subscription() {
    let steps = walk_plan();
    assert_eq!(
        steps,
        vec![
            NativeStep::ResolveRootClass,
            NativeStep::DeclareObserverClass,
            NativeStep::AddTokenSlot,
            NativeStep::AddTerminationMethod,
            NativeStep::RegisterObserverClass,
            NativeStep::CreateObserver,
            NativeStep::StoreToken,
            NativeStep::RetainObserver,
            NativeStep::ResolveNotificationCenter,
            NativeStep::ResolveApplication,
            NativeStep::BuildNotificationName,
            NativeStep::Subscribe,
        ]
    );
}

#[test]
fn subscription_is_the_only_step_without_successor() {
    for step in walk_plan() {
        assert_eq!(step.next().is_none(), step == NativeStep::Subscribe);
    }
}

#[test]
fn token_is_stored_and_observer_retained_before_subscription() {
    let steps = walk_plan();
    let place = |wanted: NativeStep| steps.iter().position(|s| *s == wanted).unwrap();
    assert!(place(NativeStep::CreateObserver) < place(NativeStep::StoreToken));
    assert!(place(NativeStep::StoreToken) < place(NativeStep::Subscribe));
    assert!(place(NativeStep::RetainObserver) < place(NativeStep::Subscribe));
    assert_eq!(place(NativeStep::Subscribe), steps.len() - 1);
}

#[test]
fn each_step_occurs_once_in_the_plan() {
    let steps = walk_plan();
    for step in &steps {
        assert_eq!(steps.iter().filter(|s| *s == step).count(), 1);
    }
}

#[test]
fn class_lookups_name_the_platform_classes() {
    assert_eq!(NativeStep::ResolveRootClass.required_class(), Some("NSObject"));
    assert_eq!(
        NativeStep::ResolveNotificationCenter.required_class(),
        Some("NSNotificationCenter")
    );
    assert_eq!(NativeStep::ResolveApplication.required_class(), Some("NSApplication"));
    assert_eq!(NativeStep::BuildNotificationName.required_class(), Some("NSString"));
}

#[test]
fn other_steps_look_no_class_up() {
    let lookups = walk_plan().into_iter().filter(|s| s.required_class().is_some()).count();
    assert_eq!(lookups, 4);
    assert_eq!(NativeStep::Subscribe.required_class(), None);
    assert_eq!(NativeStep::DeclareObserverClass.required_class(), None);
    assert_eq!(NativeStep::StoreToken.required_class(), None);
}

#[test]
fn native_names_are_spelled_as_the_platform_expects() {
    assert_eq!(observer_class_name(), "OBBAppTerminationObserver");
    assert_eq!(token_slot_name(), "appHandlePtr");
    assert_eq!(termination_selector(), "applicationWillTerminate:");
    assert_eq!(termination_notification_name(), "NSApplicationWillTerminateNotification");
}

#[test]
fn selector_takes_exactly_one_argument() {
    let selector = termination_selector();
    assert!(selector.ends_with(':'));
    assert_eq!(selector.matches(':').count(), 1);
}
