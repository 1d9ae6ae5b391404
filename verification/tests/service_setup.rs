use app_termination::bridge::NativeStep;
use app_termination::lifecycle::Effect;
use app_termination::lifecycle::Phase;
use app_termination::service::setup_termination_handler;
use app_termination::service::TerminationService;
use std::sync::Arc;
use std::sync::Mutex;
use tokio::runtime::Runtime;

struct FakePlatform {
    missing: Option<NativeStep>,
    performed: Vec<NativeStep>,
    observers_created: usize,
    subscriptions: usize,
}

fn platform_lacking(missing: Option<NativeStep>) -> FakePlatform {
    FakePlatform { missing, performed: Vec::new(), observers_created: 0, subscriptions: 0 }
}

fn perform_step(platform: &mut FakePlatform, step: NativeStep) -> bool {
    if platform.missing == Some(step) {
        return false;
    }
    platform.performed.push(step);
    if step == NativeStep::CreateObserver {
        platform.observers_created += 1;
    }
    if step == NativeStep::Subscribe {
        platform.subscriptions += 1;
    }
    true
}

fn drive_setup(
    service: &mut TerminationService<String>,
    platform: &mut FakePlatform,
    handle: &str,
) -> Vec<Effect> {
    let mut seen = Vec::new();
    let mut effect = setup_termination_handler(service, handle.to_string());
    seen.push(effect);
    while let Effect::Perform(step) = effect {
        let succeeded = perform_step(platform, step);
        effect = service.report_step(succeeded);
        seen.push(effect);
    }
    seen
}

#[test]
fn new_service_is_unregistered() {
    let service: TerminationService<String> = TerminationService::new();
    assert_eq!(service.phase(), Phase::Unregistered);
    assert_eq!(service.token(), None);
}

#[test]
fn first_setup_call_hands_out_the_first_step() {
    let mut service = TerminationService::new();
    let effect = setup_termination_handler(&mut service, String::from("app"));
    assert_eq!(effect, Effect::Perform(NativeStep::ResolveRootClass));
    assert_eq!(service.phase(), Phase::Installing { pending: NativeStep::ResolveRootClass });
    assert!(service.token().is_some());
}

#[test]
fn setup_on_a_willing_platform_registers_the_hook() {
    let mut service = TerminationService::new();
    let mut platform = platform_lacking(None);
    let seen = drive_setup(&mut service, &mut platform, "app");
    assert_eq!(service.phase(), Phase::Registered);
    assert_eq!(platform.performed.len(), 12);
    assert_eq!(platform.observers_created, 1);
    assert_eq!(platform.subscriptions, 1);
    assert_eq!(seen.len(), 13);
    assert_eq!(seen[12], Effect::Nothing);
}

#[test]
fn many_setup_calls_create_exactly_one_observer() {
    let mut service = TerminationService::new();
    let mut platform = platform_lacking(None);
    for round in 0..5 {
        let seen = drive_setup(&mut service, &mut platform, "app");
        if round > 0 {
            assert_eq!(seen, vec![Effect::Nothing]);
        }
    }
    assert_eq!(service.phase(), Phase::Registered);
    assert_eq!(platform.observers_created, 1);
    assert_eq!(platform.subscriptions, 1);
    assert_eq!(platform.performed.len(), 12);
}

#[test]
fn setup_after_registration_repeats_no_native_step() {
    let mut service = TerminationService::new();
    let mut platform = platform_lacking(None);
    drive_setup(&mut service, &mut platform, "first");
    let token = service.token();
    let effect = setup_termination_handler(&mut service, String::from("second"));
    assert_eq!(effect, Effect::Nothing);
    assert_eq!(service.phase(), Phase::Registered);
    assert_eq!(service.token(), token);
    assert_eq!(platform.performed.len(), 12);
}

#[test]
fn setup_during_installation_is_a_no_op() {
    let mut service = TerminationService::new();
    let first = setup_termination_handler(&mut service, String::from("first"));
    assert_eq!(first, Effect::Perform(NativeStep::ResolveRootClass));
    assert_eq!(service.report_step(true), Effect::Perform(NativeStep::DeclareObserverClass));
    let phase = service.phase();
    let token = service.token();
    let again = setup_termination_handler(&mut service, String::from("second"));
    assert_eq!(again, Effect::Nothing);
    assert_eq!(service.phase(), phase);
    assert_eq!(service.token(), token);
    assert_eq!(service.report_step(true), Effect::Perform(NativeStep::AddTokenSlot));
}

#[test]
fn concurrent_setup_calls_create_exactly_one_observer() {
    let runtime = Runtime::new().unwrap();
    let shared = Arc::new(Mutex::new((TerminationService::new(), platform_lacking(None))));
    let mut tasks = Vec::new();
    for caller in 0..16 {
        let shared = Arc::clone(&shared);
        tasks.push(runtime.spawn_blocking(move || {
            let mut guard = shared.lock().unwrap();
            let (service, platform) = &mut *guard;
            let seen = drive_setup(service, platform, &format!("caller-{caller}"));
            seen.len()
        }));
    }
    let mut installers = 0;
    for task in tasks {
        let seen = runtime.block_on(task).unwrap();
        if seen > 1 {
            installers += 1;
        }
    }
    let guard = shared.lock().unwrap();
    assert_eq!(installers, 1);
    assert_eq!(guard.0.phase(), Phase::Registered);
    assert_eq!(guard.1.observers_created, 1);
    assert_eq!(guard.1.subscriptions, 1);
}

#[test]
fn missing_native_class_is_reported_not_fatal() {
    let mut service = TerminationService::new();
    let mut platform = platform_lacking(Some(NativeStep::ResolveNotificationCenter));
    let seen = drive_setup(&mut service, &mut platform, "app");
    assert_eq!(
        seen.last(),
        Some(&Effect::ReportUnavailable(NativeStep::ResolveNotificationCenter))
    );
    assert_eq!(
        service.phase(),
        Phase::Unavailable { failed: NativeStep::ResolveNotificationCenter }
    );
    assert_eq!(platform.subscriptions, 0);
    assert_eq!(
        NativeStep::ResolveNotificationCenter.required_class(),
        Some("NSNotificationCenter")
    );
}

#[test]
fn missing_root_class_stops_before_any_observer_exists() {
    let mut service = TerminationService::new();
    let mut platform = platform_lacking(Some(NativeStep::ResolveRootClass));
    let seen = drive_setup(&mut service, &mut platform, "app");
    assert_eq!(
        seen,
        vec![
            Effect::Perform(NativeStep::ResolveRootClass),
            Effect::ReportUnavailable(NativeStep::ResolveRootClass),
        ]
    );
    assert_eq!(platform.observers_created, 0);
    assert!(platform.performed.is_empty());
}

#[test]
fn unavailable_hook_is_not_tried_again() {
    let mut service = TerminationService::new();
    let mut platform = platform_lacking(Some(NativeStep::DeclareObserverClass));
    drive_setup(&mut service, &mut platform, "app");
    platform.missing = None;
    let seen = drive_setup(&mut service, &mut platform, "app");
    assert_eq!(seen, vec![Effect::Nothing]);
    assert_eq!(service.report_step(true), Effect::Nothing);
    assert_eq!(service.phase(), Phase::Unavailable { failed: NativeStep::DeclareObserverClass });
    assert_eq!(platform.observers_created, 0);
}

#[test]
fn step_report_without_installation_changes_nothing() {
    let mut service: TerminationService<String> = TerminationService::new();
    assert_eq!(service.report_step(true), Effect::Nothing);
    assert_eq!(service.report_step(false), Effect::Nothing);
    assert_eq!(service.phase(), Phase::Unregistered);
    assert_eq!(service.token(), None);
}

#[test]
fn register_is_the_guard_behind_the_entry_point() {
    let mut service = TerminationService::new();
    assert_eq!(service.register(1u8), Effect::Perform(NativeStep::ResolveRootClass));
    assert_eq!(service.register(2u8), Effect::Nothing);
    assert_eq!(service.phase(), Phase::Installing { pending: NativeStep::ResolveRootClass });
}
