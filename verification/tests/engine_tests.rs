//! The correlation engine under both signal orders, timeouts, coalescing,
//! and the listener's event handling.

use package_broker::device_apps::{AppMetadata, InstalledApp};
use package_broker::engine::{AppData, Operation, RegistrationOutcome};
use package_broker::extn::ExtnResponse;
use package_broker::processor::{
    RawStatusEvent, StatusEventOutcome, ThunderPackageManagerRequestProcessor,
};
use package_broker::status::AppsOperationType;

type Processor = ThunderPackageManagerRequestProcessor;

fn install_operation(app_id: &str, version: &str) -> Operation {
    Operation::new(
        AppsOperationType::Install,
        app_id.to_string(),
        AppData::new(version.to_string()),
    )
}

fn terminal_event(operation: &str, handle: &str, id: &str, version: &str, status: &str) -> RawStatusEvent {
    RawStatusEvent {
        operation: operation.to_string(),
        handle: handle.to_string(),
        app_type: String::new(),
        id: id.to_string(),
        version: version.to_string(),
        status: status.to_string(),
        details: String::new(),
    }
}

fn sample_app(id: &str, version: &str) -> AppMetadata {
    AppMetadata {
        id: id.to_string(),
        title: format!("title of {id}"),
        version: version.to_string(),
        uri: format!("https://apps.example/{id}"),
        data: None,
    }
}

#[test]
fn register_or_resolve_call_signal_first() {
    let mut processor = Processor::new();
    let first = Processor::add_or_remove_operation(
        &mut processor.state,
        "H1".to_string(),
        install_operation("app1", "1.0"),
    );
    assert_eq!(first, RegistrationOutcome::Registered);
    let second = Processor::add_or_remove_operation(
        &mut processor.state,
        "H1".to_string(),
        install_operation("app1", "1.0"),
    );
    assert_eq!(second, RegistrationOutcome::Resolved);
    // The table is empty again: a timeout firing now finds nothing.
    assert!(!Processor::handle_operation_timeout(&mut processor.state, &"H1".to_string()));
}

#[test]
fn register_or_resolve_event_signal_first() {
    let mut processor = Processor::new();
    // The event's operation record arrives first, the call return second:
    // same outcomes, same (empty) final table.
    let first = Processor::add_or_remove_operation(
        &mut processor.state,
        "H1".to_string(),
        install_operation("app1", "1.0"),
    );
    let second = Processor::add_or_remove_operation(
        &mut processor.state,
        "H1".to_string(),
        install_operation("app1", "1.0"),
    );
    assert_eq!(first, RegistrationOutcome::Registered);
    assert_eq!(second, RegistrationOutcome::Resolved);
    assert!(
        Processor::operation_in_progress(&processor.state, AppsOperationType::Install, "app1", "1.0")
            .is_none()
    );
}

#[test]
fn coalescing_finds_registered_install() {
    let mut processor = Processor::new();
    let app = sample_app("app1", "1.0");
    assert!(Processor::install_in_progress(&processor.state, &app).is_none());

    let (response, outcome) =
        Processor::complete_install(&mut processor.state, app.clone(), Some("H1".to_string()));
    assert_eq!(response, ExtnResponse::String("H1".to_string()));
    assert_eq!(outcome, Some(RegistrationOutcome::Registered));

    // A second request for the same (app_id, version) sees the in-progress
    // handle and issues no new device call.
    assert_eq!(
        Processor::install_in_progress(&processor.state, &app),
        Some("H1".to_string())
    );
    // A different version is not coalesced.
    assert!(Processor::install_in_progress(&processor.state, &sample_app("app1", "2.0")).is_none());
}

#[test]
fn uninstall_coalescing_is_keyed_symmetrically() {
    let mut processor = Processor::new();
    let app = InstalledApp { id: "app9".to_string(), version: "3.1".to_string() };
    let (response, outcome) =
        Processor::complete_uninstall(&mut processor.state, app.clone(), Some("H9".to_string()));
    assert_eq!(response, ExtnResponse::String("H9".to_string()));
    assert_eq!(outcome, Some(RegistrationOutcome::Registered));
    assert_eq!(
        Processor::uninstall_in_progress(&processor.state, &app),
        Some("H9".to_string())
    );
    // An install lookup for the same app does not match the uninstall entry.
    assert!(Processor::install_in_progress(&processor.state, &sample_app("app9", "3.1")).is_none());
}

#[test]
fn failed_device_call_is_processor_error_and_registers_nothing() {
    let mut processor = Processor::new();
    let app = sample_app("app1", "1.0");
    let (response, outcome) = Processor::complete_install(&mut processor.state, app.clone(), None);
    assert!(matches!(response, ExtnResponse::Error(_)));
    assert_eq!(outcome, None);
    assert!(Processor::install_in_progress(&processor.state, &app).is_none());
}

#[test]
fn orphan_recovery_cancels_exactly_once() {
    let mut processor = Processor::new();
    // Only the call-return signal arrives for H1.
    let first = Processor::add_or_remove_operation(
        &mut processor.state,
        "H1".to_string(),
        install_operation("a1", "1.0"),
    );
    assert_eq!(first, RegistrationOutcome::Registered);
    // The timeout window elapses: the entry is still there, so it is cleared
    // and one cancel call is owed.
    assert!(Processor::handle_operation_timeout(&mut processor.state, &"H1".to_string()));
    // The table no longer contains H1, and a late spurious firing owes none.
    assert!(
        Processor::operation_in_progress(&processor.state, AppsOperationType::Install, "a1", "1.0")
            .is_none()
    );
    assert!(!Processor::handle_operation_timeout(&mut processor.state, &"H1".to_string()));
}

#[test]
fn timeout_after_resolution_is_a_no_op() {
    let mut processor = Processor::new();
    Processor::add_or_remove_operation(
        &mut processor.state,
        "H1".to_string(),
        install_operation("app1", "1.0"),
    );
    Processor::add_or_remove_operation(
        &mut processor.state,
        "H1".to_string(),
        install_operation("app1", "1.0"),
    );
    assert!(!Processor::handle_operation_timeout(&mut processor.state, &"H1".to_string()));
}

#[test]
fn malformed_event_alters_no_entry() {
    let mut processor = Processor::new();
    Processor::add_or_remove_operation(
        &mut processor.state,
        "H3".to_string(),
        install_operation("app3", "0.9"),
    );
    let outcome = Processor::process_status_event(
        &mut processor.state,
        terminal_event("repave", "H3", "app3", "0.9", "Succeeded"),
    );
    assert_eq!(outcome, StatusEventOutcome::UnknownOperation);
    // The unrelated entry is untouched.
    assert_eq!(
        Processor::operation_in_progress(&processor.state, AppsOperationType::Install, "app3", "0.9"),
        Some("H3".to_string())
    );
}

#[test]
fn non_terminal_event_is_dropped() {
    let mut processor = Processor::new();
    let outcome = Processor::process_status_event(
        &mut processor.state,
        terminal_event("install", "H4", "app4", "1.0", "Downloading"),
    );
    assert_eq!(outcome, StatusEventOutcome::NonTerminal);
    assert!(
        Processor::operation_in_progress(&processor.state, AppsOperationType::Install, "app4", "1.0")
            .is_none()
    );
}

#[test]
fn duplicate_terminal_event_rearms() {
    let mut processor = Processor::new();
    // Call return and terminal event reconcile H1 cleanly.
    Processor::add_or_remove_operation(
        &mut processor.state,
        "H1".to_string(),
        install_operation("app1", "1.0"),
    );
    let resolved = Processor::process_status_event(
        &mut processor.state,
        terminal_event("install", "H1", "app1", "1.0", "Succeeded"),
    );
    assert_eq!(resolved, StatusEventOutcome::Reconciled(RegistrationOutcome::Resolved));
    // The same terminal event again: no entry exists, so it registers a
    // fresh one — re-arm behaviour, not a no-op.
    let duplicate = Processor::process_status_event(
        &mut processor.state,
        terminal_event("install", "H1", "app1", "1.0", "Succeeded"),
    );
    assert_eq!(duplicate, StatusEventOutcome::Reconciled(RegistrationOutcome::Registered));
    assert_eq!(
        Processor::operation_in_progress(&processor.state, AppsOperationType::Install, "app1", "1.0"),
        Some("H1".to_string())
    );
}

#[test]
fn scenario_install_then_terminal_event() {
    let mut processor = Processor::new();
    let app = sample_app("app1", "1.0");
    // install app1@1.0 -> device returns handle H1 -> Registered.
    let (response, outcome) =
        Processor::complete_install(&mut processor.state, app, Some("H1".to_string()));
    assert_eq!(response, ExtnResponse::String("H1".to_string()));
    assert_eq!(outcome, Some(RegistrationOutcome::Registered));
    // The terminal event arrives -> Resolved -> no entry for H1 remains.
    let reconciled = Processor::process_status_event(
        &mut processor.state,
        terminal_event("install", "H1", "app1", "1.0", "Succeeded"),
    );
    assert_eq!(reconciled, StatusEventOutcome::Reconciled(RegistrationOutcome::Resolved));
    assert!(
        Processor::operation_in_progress(&processor.state, AppsOperationType::Install, "app1", "1.0")
            .is_none()
    );
}

#[test]
fn scenario_terminal_event_before_call_returns() {
    let mut processor = Processor::new();
    // The terminal event for H2 arrives before the install call returns.
    let first = Processor::process_status_event(
        &mut processor.state,
        terminal_event("install", "H2", "app2", "2.0", "Succeeded"),
    );
    assert_eq!(first, StatusEventOutcome::Reconciled(RegistrationOutcome::Registered));
    // The call then returns with H2: the second signal resolves the entry
    // and the requester still receives H2 as its response.
    let (response, outcome) = Processor::complete_install(
        &mut processor.state,
        sample_app("app2", "2.0"),
        Some("H2".to_string()),
    );
    assert_eq!(response, ExtnResponse::String("H2".to_string()));
    assert_eq!(outcome, Some(RegistrationOutcome::Resolved));
    assert!(
        Processor::operation_in_progress(&processor.state, AppsOperationType::Install, "app2", "2.0")
            .is_none()
    );
}

#[test]
fn event_with_uppercase_operation_matches() {
    let mut processor = Processor::new();
    let outcome = Processor::process_status_event(
        &mut processor.state,
        terminal_event("Install", "H5", "app5", "1.0", "Failed"),
    );
    assert_eq!(outcome, StatusEventOutcome::Reconciled(RegistrationOutcome::Registered));
    let uninstall = Processor::process_status_event(
        &mut processor.state,
        terminal_event("UNINSTALL", "H6", "app6", "1.0", "Cancelled"),
    );
    assert_eq!(uninstall, StatusEventOutcome::Reconciled(RegistrationOutcome::Registered));
    assert_eq!(
        Processor::operation_in_progress(
            &processor.state,
            AppsOperationType::Uninstall,
            "app6",
            "1.0"
        ),
        Some("H6".to_string())
    );
}
