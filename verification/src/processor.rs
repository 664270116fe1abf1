//! The package-manager request processor: the shared operation table, the
//! listener step that feeds terminal status events into it, and the
//! dispatcher decisions for install, uninstall, list and permission
//! requests.  The transport — device calls, the event subscription, timers —
//! lives outside the crate; every decision between two transport steps is
//! made and proved here.

use vstd::prelude::*;

use crate::codec::{base64_decoded_of, base64_decode, permission_blob_of, parse_permission_blob,
    utf8_lossy, utf8_lossy_of};
use crate::device_apps::{AppMetadata, FireboltPermissions, InstalledApp};
use crate::engine::{ActiveOperationsTable, AppData, OpModel, Operation, RegistrationOutcome,
    in_progress_spec, register_step, timeout_step};
use crate::extn::{ExtnResponse, RippleError};
use crate::requests::{KeyValuePair, ThunderAppMetadata};
use crate::status::{AppsOperationType, OperationStatus, operation_type_of, status_of};
use crate::text::str_eq;

verus! {

/// The state the listener and the dispatcher share: the table of in-flight
/// operations.  The transport half of the original state stays with the
/// unverified plumbing, which keeps this state behind its lock.
#[derive(Debug)]
pub struct ThunderPackageManagerState {
    pub active_operations: ActiveOperationsTable,
}

/// A status notification as decoded from the wire: the event object's string
/// fields, absent fields already defaulted to empty.
#[derive(Debug, Clone, PartialEq)]
pub struct RawStatusEvent {
    pub operation: String,
    pub handle: String,
    pub app_type: String,
    pub id: String,
    pub version: String,
    pub status: String,
    pub details: String,
}

/// A status event's raw fields, typed; built once the operation field has
/// parsed.
#[derive(Debug, Clone, PartialEq)]
pub struct AppsOperationStatus {
    pub handle: String,
    pub operation: AppsOperationType,
    pub app_type: String,
    pub id: String,
    pub version: String,
    pub status: String,
    pub details: String,
}

impl AppsOperationStatus {
    pub fn new(
        handle: String,
        operation: AppsOperationType,
        app_type: String,
        id: String,
        version: String,
        status: String,
        details: String,
    ) -> (r: AppsOperationStatus)
        ensures
            r == (AppsOperationStatus { handle, operation, app_type, id, version, status, details }),
    {
        AppsOperationStatus { handle, operation, app_type, id, version, status, details }
    }
}

/// What the listener did with one status event.
#[derive(Clone, Copy, PartialEq, Eq, Structural, Debug)]
pub enum StatusEventOutcome {
    /// The operation field named no known operation; the event was dropped.
    UnknownOperation,
    /// The status is not terminal; the engine was not involved.
    NonTerminal,
    /// The status is terminal and the event was fed to the engine.
    Reconciled(RegistrationOutcome),
}

/// One listener step on the table model: an event with an unknown operation
/// or a non-terminal status leaves the table untouched; a terminal event is
/// one reconciliation step for its handle.
pub open spec fn listener_step(
    m: Map<Seq<char>, OpModel>,
    operation: Seq<char>,
    handle: Seq<char>,
    id: Seq<char>,
    version: Seq<char>,
    status: Seq<char>,
) -> (StatusEventOutcome, Map<Seq<char>, OpModel>) {
    match operation_type_of(operation) {
        None => (StatusEventOutcome::UnknownOperation, m),
        Some(op) => if !status_of(status).is_terminal() {
            (StatusEventOutcome::NonTerminal, m)
        } else {
            let step = register_step(m, handle, OpModel { op, app_id: id, version });
            (StatusEventOutcome::Reconciled(step.0), step.1)
        },
    }
}

/// Malformed-event isolation: an event whose operation field names no known
/// operation alters no table entry of any handle — the table is exactly what
/// it was — and the listener reports the drop instead of failing.
pub proof fn lemma_malformed_event_isolation(
    m: Map<Seq<char>, OpModel>,
    operation: Seq<char>,
    handle: Seq<char>,
    id: Seq<char>,
    version: Seq<char>,
    status: Seq<char>,
)
    requires
        operation_type_of(operation) is None,
    ensures
        listener_step(m, operation, handle, id, version, status) == (
            StatusEventOutcome::UnknownOperation,
            m,
        ),
{
}

/// A duplicate terminal event for an already-resolved handle is not a no-op:
/// the table no longer tracks the handle, so the listener registers a fresh
/// entry — and the caller arms a new timeout.  The protocol re-arms rather
/// than deduplicates; a duplicate never followed by a second signal ends in
/// a spurious cancel when that timeout fires.
pub proof fn lemma_duplicate_terminal_event_rearms(
    m: Map<Seq<char>, OpModel>,
    operation: Seq<char>,
    handle: Seq<char>,
    id: Seq<char>,
    version: Seq<char>,
    status: Seq<char>,
)
    requires
        !m.dom().contains(handle),
        operation_type_of(operation) is Some,
        status_of(status).is_terminal(),
    ensures
        ({
            let step = listener_step(m, operation, handle, id, version, status);
            step.0 == StatusEventOutcome::Reconciled(RegistrationOutcome::Registered)
                && step.1 == m.insert(
                handle,
                (OpModel { op: operation_type_of(operation)->0, app_id: id, version }),
            )
        }),
{
}

/// The decoded capability list of a permission blob: base64, then lossy
/// UTF-8, then the blob's JSON shape.
pub open spec fn decoded_permissions(enc: Seq<char>) -> Option<Seq<Seq<char>>> {
    match base64_decoded_of(enc) {
        None => None,
        Some(bytes) => permission_blob_of(utf8_lossy_of(bytes)),
    }
}

/// The value of the first resource entry named `key`, if any.
pub open spec fn resource_value(resources: Seq<KeyValuePair>, key: Seq<char>)
    -> Option<Seq<char>>
    decreases resources.len(),
{
    if resources.len() == 0 {
        None
    } else if resources[0].key@ == key {
        Some(resources[0].value@)
    } else {
        resource_value(resources.drop_first(), key)
    }
}

/// The request processor.  The transport streamer beside it is plumbing and
/// stays outside the crate; the processor owns the shared state.
#[derive(Debug)]
pub struct ThunderPackageManagerRequestProcessor {
    pub state: ThunderPackageManagerState,
}

impl ThunderPackageManagerRequestProcessor {
    /// A processor with no operation in flight.
    pub fn new() -> (r: ThunderPackageManagerRequestProcessor)
        ensures
            r.state.active_operations@ == Map::<Seq<char>, OpModel>::empty(),
    {
        ThunderPackageManagerRequestProcessor {
            state: ThunderPackageManagerState { active_operations: ActiveOperationsTable::new() },
        }
    }

    /// Adds or removes an active operation depending on whether one already
    /// existed for the handle.  The device may send the status event before
    /// the call for the same operation returns, so either completion signal
    /// may arrive first; whichever comes second clears the entry the first
    /// one made.  On `Registered` the caller arms the operation's timeout.
    pub fn add_or_remove_operation(
        state: &mut ThunderPackageManagerState,
        handle: String,
        operation: Operation,
    ) -> (r: RegistrationOutcome)
        ensures
            r == register_step(old(state).active_operations@, handle@, operation.model()).0,
            final(state).active_operations@ == register_step(
                old(state).active_operations@,
                handle@,
                operation.model(),
            ).1,
    {
        state.active_operations.register_or_resolve(handle, operation)
    }

    /// The handle of a tracked operation matching the triple, if one is; the
    /// dispatcher asks before issuing a new device call.
    pub fn operation_in_progress(
        state: &ThunderPackageManagerState,
        operation_type: AppsOperationType,
        app_id: &str,
        version: &str,
    ) -> (r: Option<String>)
        ensures
            match r {
                Some(h) => state.active_operations@.contains_pair(
                    h@,
                    (OpModel { op: operation_type, app_id: app_id@, version: version@ }),
                ),
                None => !in_progress_spec(
                    state.active_operations@,
                    operation_type,
                    app_id@,
                    version@,
                ),
            },
    {
        state.active_operations.find_in_progress(operation_type, app_id, version)
    }

    /// The decision a fired timeout makes: clear the handle if it is still
    /// tracked; exactly when it was, the caller owes the device one
    /// best-effort cancel call for it.
    pub fn handle_operation_timeout(state: &mut ThunderPackageManagerState, handle: &String) -> (
        cancel: bool)
        ensures
            cancel == timeout_step(old(state).active_operations@, handle@).0,
            final(state).active_operations@ == timeout_step(
                old(state).active_operations@,
                handle@,
            ).1,
    {
        state.active_operations.remove_expired(handle)
    }

    /// The listener's decision for one status event, as `listener_step`
    /// says: parse the operation field, drop the event if it is unknown or
    /// its status is not terminal, otherwise feed the engine.
    pub fn process_status_event(state: &mut ThunderPackageManagerState, event: RawStatusEvent) -> (
        r: StatusEventOutcome)
        ensures
            r == listener_step(
                old(state).active_operations@,
                event.operation@,
                event.handle@,
                event.id@,
                event.version@,
                event.status@,
            ).0,
            final(state).active_operations@ == listener_step(
                old(state).active_operations@,
                event.operation@,
                event.handle@,
                event.id@,
                event.version@,
                event.status@,
            ).1,
    {
        match AppsOperationType::from_str(event.operation.as_str()) {
            Err(()) => StatusEventOutcome::UnknownOperation,
            Ok(operation_type) => {
                let operation_status = AppsOperationStatus::new(
                    event.handle,
                    operation_type,
                    event.app_type,
                    event.id,
                    event.version,
                    event.status,
                    event.details,
                );
                if OperationStatus::new(operation_status.status.as_str()).completed() {
                    let operation = Operation::new(
                        operation_status.operation,
                        operation_status.id,
                        AppData::new(operation_status.version),
                    );
                    StatusEventOutcome::Reconciled(
                        Self::add_or_remove_operation(state, operation_status.handle, operation),
                    )
                } else {
                    StatusEventOutcome::NonTerminal
                }
            },
        }
    }

    /// Turns the decoded answer of the device's list call into the response
    /// to a list request: the list itself, or a processor error when the
    /// answer did not decode.
    pub fn apps_list_response(decoded: Option<Vec<InstalledApp>>) -> (r: ExtnResponse)
        ensures
            match decoded {
                Some(apps) => r == ExtnResponse::InstalledApps(apps),
                None => r == ExtnResponse::Error(RippleError::ProcessorError),
            },
    {
        match decoded {
            Some(apps) => ExtnResponse::InstalledApps(apps),
            None => ExtnResponse::Error(RippleError::ProcessorError),
        }
    }

    /// The install coalescing check: the handle of an installation already
    /// underway for the application, which answers the request with no new
    /// device call.
    pub fn install_in_progress(state: &ThunderPackageManagerState, app: &AppMetadata) -> (r:
        Option<String>)
        ensures
            match r {
                Some(h) => state.active_operations@.contains_pair(
                    h@,
                    (OpModel {
                        op: AppsOperationType::Install,
                        app_id: app.id@,
                        version: app.version@,
                    }),
                ),
                None => !in_progress_spec(
                    state.active_operations@,
                    AppsOperationType::Install,
                    app.id@,
                    app.version@,
                ),
            },
    {
        Self::operation_in_progress(
            state,
            AppsOperationType::Install,
            app.id.as_str(),
            app.version.as_str(),
        )
    }

    /// The uninstall coalescing check, keyed like the install one.
    pub fn uninstall_in_progress(state: &ThunderPackageManagerState, app: &InstalledApp) -> (r:
        Option<String>)
        ensures
            match r {
                Some(h) => state.active_operations@.contains_pair(
                    h@,
                    (OpModel {
                        op: AppsOperationType::Uninstall,
                        app_id: app.id@,
                        version: app.version@,
                    }),
                ),
                None => !in_progress_spec(
                    state.active_operations@,
                    AppsOperationType::Uninstall,
                    app.id@,
                    app.version@,
                ),
            },
    {
        Self::operation_in_progress(
            state,
            AppsOperationType::Uninstall,
            app.id.as_str(),
            app.version.as_str(),
        )
    }

    /// Completes an install request once the device call has returned: a
    /// decoded handle is registered — arming a timeout on `Registered` — and
    /// answered back; a call whose answer held no handle is a processor
    /// error and touches no state.
    pub fn complete_install(
        state: &mut ThunderPackageManagerState,
        app: AppMetadata,
        call_result: Option<String>,
    ) -> (r: (ExtnResponse, Option<RegistrationOutcome>))
        ensures
            match call_result {
                Some(handle) => {
                    let step = register_step(
                        old(state).active_operations@,
                        handle@,
                        (OpModel {
                            op: AppsOperationType::Install,
                            app_id: app.id@,
                            version: app.version@,
                        }),
                    );
                    r.0 == ExtnResponse::String(handle) && r.1 == Some(step.0)
                        && final(state).active_operations@ == step.1
                },
                None => r.0 == ExtnResponse::Error(RippleError::ProcessorError) && r.1 is None
                    && final(state).active_operations@ == old(state).active_operations@,
            },
    {
        match call_result {
            Some(handle) => {
                let operation = Operation::new(
                    AppsOperationType::Install,
                    app.id,
                    AppData::new(app.version),
                );
                let outcome = Self::add_or_remove_operation(state, handle.clone(), operation);
                (ExtnResponse::String(handle), Some(outcome))
            },
            None => (ExtnResponse::Error(RippleError::ProcessorError), None),
        }
    }

    /// Completes an uninstall request, symmetrically to `complete_install`.
    pub fn complete_uninstall(
        state: &mut ThunderPackageManagerState,
        app: InstalledApp,
        call_result: Option<String>,
    ) -> (r: (ExtnResponse, Option<RegistrationOutcome>))
        ensures
            match call_result {
                Some(handle) => {
                    let step = register_step(
                        old(state).active_operations@,
                        handle@,
                        (OpModel {
                            op: AppsOperationType::Uninstall,
                            app_id: app.id@,
                            version: app.version@,
                        }),
                    );
                    r.0 == ExtnResponse::String(handle) && r.1 == Some(step.0)
                        && final(state).active_operations@ == step.1
                },
                None => r.0 == ExtnResponse::Error(RippleError::ProcessorError) && r.1 is None
                    && final(state).active_operations@ == old(state).active_operations@,
            },
    {
        match call_result {
            Some(handle) => {
                let operation = Operation::new(
                    AppsOperationType::Uninstall,
                    app.id,
                    AppData::new(app.version),
                );
                let outcome = Self::add_or_remove_operation(state, handle.clone(), operation);
                (ExtnResponse::String(handle), Some(outcome))
            },
            None => (ExtnResponse::Error(RippleError::ProcessorError), None),
        }
    }

    /// The first listed application carrying `app_id`, whose version the
    /// permission lookup needs.
    pub fn find_installed_app(apps: &Vec<InstalledApp>, app_id: &str) -> (r: Option<usize>)
        ensures
            match r {
                Some(i) => i < apps@.len() && apps@[i as int].id@ == app_id@ && (forall|j: int|
                    0 <= j < i ==> apps@[j].id@ != app_id@),
                None => forall|j: int| 0 <= j < apps@.len() ==> apps@[j].id@ != app_id@,
            },
    {
        let mut i: usize = 0;
        while i < apps.len()
            invariant
                i <= apps@.len(),
                forall|j: int| 0 <= j < i ==> apps@[j].id@ != app_id@,
            decreases apps@.len() - i,
        {
            if str_eq(apps[i].id.as_str(), app_id) {
                return Some(i);
            }
            i = i + 1;
        }
        None
    }

    /// Decodes an application's permission blob: base64 to bytes, bytes to
    /// text, text to the capability list; any failure along the chain is the
    /// one error.
    pub fn decode_permissions(perms_encoded: String) -> (r: Result<FireboltPermissions, ()>)
        ensures
            match r {
                Ok(p) => decoded_permissions(perms_encoded@) == Some(p.capabilities.deep_view()),
                Err(()) => decoded_permissions(perms_encoded@) is None,
            },
    {
        match base64_decode(perms_encoded.as_str()) {
            None => Err(()),
            Some(perms) => {
                let perms_str = utf8_lossy(&perms);
                match parse_permission_blob(perms_str.as_str()) {
                    None => Err(()),
                    Some(capabilities) => Ok(FireboltPermissions { capabilities }),
                }
            },
        }
    }

    /// Answers a permission request from the decoded metadata answer: the
    /// capabilities of the resource entry named `firebolt`, or a processor
    /// error when the answer did not decode, the entry is missing, or its
    /// blob does not decode.
    pub fn permissions_response(decoded: Option<ThunderAppMetadata>) -> (r: ExtnResponse)
        ensures
            match decoded {
                None => r == ExtnResponse::Error(RippleError::ProcessorError),
                Some(metadata) => match resource_value(metadata.resources@, "firebolt"@) {
                    None => r == ExtnResponse::Error(RippleError::ProcessorError),
                    Some(enc) => match decoded_permissions(enc) {
                        None => r == ExtnResponse::Error(RippleError::ProcessorError),
                        Some(caps) => r matches ExtnResponse::Permission(cs) && cs.deep_view()
                            == caps,
                    },
                },
            },
    {
        match decoded {
            None => ExtnResponse::Error(RippleError::ProcessorError),
            Some(metadata) => match Self::find_firebolt_resource(&metadata.resources) {
                None => ExtnResponse::Error(RippleError::ProcessorError),
                Some(value) => match Self::decode_permissions(value) {
                    Ok(permissions) => ExtnResponse::Permission(permissions.capabilities),
                    Err(()) => ExtnResponse::Error(RippleError::ProcessorError),
                },
            },
        }
    }

    /// The value of the first resource entry named `firebolt`, if any.
    fn find_firebolt_resource(resources: &Vec<KeyValuePair>) -> (r: Option<
        String>)
        ensures
            match r {
                Some(v) => resource_value(resources@, "firebolt"@) == Some(v@),
                None => resource_value(resources@, "firebolt"@) is None,
            },
    {
        let mut i: usize = 0;
        proof {
            assert(resources@.skip(0) =~= resources@);
        }
        while i < resources.len()
            invariant
                i <= resources@.len(),
                resource_value(resources@, "firebolt"@) == resource_value(
                    resources@.skip(i as int),
                    "firebolt"@,
                ),
            decreases resources@.len() - i,
        {
            proof {
                assert(resources@.skip(i as int)[0] == resources@[i as int]);
                assert(resources@.skip(i as int).drop_first() =~= resources@.skip(i as int + 1));
            }
            if str_eq(resources[i].key.as_str(), "firebolt") {
                return Some(resources[i].value.clone());
            }
            i = i + 1;
        }
        None
    }
}

} // verus!
