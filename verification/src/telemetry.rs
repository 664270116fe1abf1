//! Operational-metrics payloads and their routing over the message fabric.

use std::collections::HashMap;

use vstd::prelude::*;

use crate::extn::{ExtnEvent, ExtnPayload, ExtnPayloadProvider, ExtnRequest, RippleContract};
use crate::metrics::{ErrorParams, ErrorType, Param, SystemErrorParams};

verus! {

#[derive(Debug, PartialEq, Clone)]
pub struct AppLoadStart {
    pub app_id: String,
    pub app_version: Option<String>,
    pub start_time: i64,
    pub ripple_session_id: String,
    pub ripple_version: String,
    pub ripple_context: Option<String>,
}

#[derive(Debug, PartialEq, Clone)]
pub struct AppLoadStop {
    pub app_id: String,
    pub stop_time: i64,
    pub ripple_session_id: String,
    pub app_session_id: Option<String>,
    pub success: bool,
}

#[derive(Debug, PartialEq, Clone)]
pub struct AppSDKLoaded {
    pub app_id: String,
    pub stop_time: i64,
    pub ripple_session_id: String,
    pub sdk_name: String,
    pub app_session_id: Option<String>,
}

#[derive(Debug, PartialEq, Clone)]
pub struct TelemetryAppError {
    pub app_id: String,
    pub error_type: String,
    pub code: String,
    pub description: String,
    pub visible: bool,
    pub parameters: Option<HashMap<String, String>>,
    pub ripple_session_id: String,
}

#[derive(Debug, PartialEq, Clone)]
pub struct TelemetrySystemError {
    pub error_name: String,
    pub component: String,
    pub context: Option<String>,
    pub ripple_session_id: String,
    pub ripple_version: String,
    pub ripple_context: Option<String>,
}

#[derive(Debug, PartialEq, Clone)]
pub struct TelemetrySignIn {
    pub app_id: String,
    pub ripple_session_id: String,
    pub app_session_id: Option<String>,
}

#[derive(Debug, PartialEq, Clone)]
pub struct TelemetrySignOut {
    pub app_id: String,
    pub ripple_session_id: String,
    pub app_session_id: Option<String>,
}

#[derive(Debug, PartialEq, Clone)]
pub struct InternalInitialize {
    pub app_id: String,
    pub ripple_session_id: String,
    pub app_session_id: Option<String>,
    pub semantic_version: String,
}

#[derive(Debug, PartialEq, Clone)]
pub struct FireboltInteraction {
    pub app_id: String,
    pub method: String,
    pub params: Option<String>,
    pub tt: i64,
    pub success: bool,
    pub ripple_session_id: String,
    pub app_session_id: Option<String>,
}

/// One operational-metrics record.
#[derive(Debug, PartialEq, Clone)]
pub enum TelemetryPayload {
    AppLoadStart(AppLoadStart),
    AppLoadStop(AppLoadStop),
    AppSDKLoaded(AppSDKLoaded),
    AppError(TelemetryAppError),
    SystemError(TelemetrySystemError),
    SignIn(TelemetrySignIn),
    SignOut(TelemetrySignOut),
    InternalInitialize(InternalInitialize),
    FireboltInteraction(FireboltInteraction),
}

/// The payload with its session id replaced, every other field kept.
pub open spec fn with_session_id(p: TelemetryPayload, session_id: String) -> TelemetryPayload {
    match p {
        TelemetryPayload::AppLoadStart(a) => TelemetryPayload::AppLoadStart(
            AppLoadStart { ripple_session_id: session_id, ..a },
        ),
        TelemetryPayload::AppLoadStop(a) => TelemetryPayload::AppLoadStop(
            AppLoadStop { ripple_session_id: session_id, ..a },
        ),
        TelemetryPayload::AppSDKLoaded(a) => TelemetryPayload::AppSDKLoaded(
            AppSDKLoaded { ripple_session_id: session_id, ..a },
        ),
        TelemetryPayload::AppError(a) => TelemetryPayload::AppError(
            TelemetryAppError { ripple_session_id: session_id, ..a },
        ),
        TelemetryPayload::SystemError(s) => TelemetryPayload::SystemError(
            TelemetrySystemError { ripple_session_id: session_id, ..s },
        ),
        TelemetryPayload::SignIn(s) => TelemetryPayload::SignIn(
            TelemetrySignIn { ripple_session_id: session_id, ..s },
        ),
        TelemetryPayload::SignOut(s) => TelemetryPayload::SignOut(
            TelemetrySignOut { ripple_session_id: session_id, ..s },
        ),
        TelemetryPayload::InternalInitialize(i) => TelemetryPayload::InternalInitialize(
            InternalInitialize { ripple_session_id: session_id, ..i },
        ),
        TelemetryPayload::FireboltInteraction(f) => TelemetryPayload::FireboltInteraction(
            FireboltInteraction { ripple_session_id: session_id, ..f },
        ),
    }
}

impl TelemetryPayload {
    /// Stamps the record with the session it belongs to, whichever kind of
    /// record it is.
    pub fn update_session_id(&mut self, session_id: String)
        ensures
            *final(self) == with_session_id(*old(self), session_id),
    {
        match self {
            Self::AppLoadStart(a) => a.ripple_session_id = session_id,
            Self::AppLoadStop(a) => a.ripple_session_id = session_id,
            Self::AppSDKLoaded(a) => a.ripple_session_id = session_id,
            Self::AppError(a) => a.ripple_session_id = session_id,
            Self::SystemError(s) => s.ripple_session_id = session_id,
            Self::SignIn(s) => s.ripple_session_id = session_id,
            Self::SignOut(s) => s.ripple_session_id = session_id,
            Self::InternalInitialize(i) => i.ripple_session_id = session_id,
            Self::FireboltInteraction(f) => f.ripple_session_id = session_id,
        }
    }
}

impl ExtnPayloadProvider for TelemetryPayload {
    open spec fn wrapped_in(payload: ExtnPayload) -> Option<Self> {
        match payload {
            ExtnPayload::Event(ExtnEvent::OperationalMetrics(r)) => Some(r),
            _ => None,
        }
    }

    open spec fn contract_spec() -> RippleContract {
        RippleContract::OperationalMetricListener
    }

    fn get_extn_payload(self) -> (p: ExtnPayload) {
        ExtnPayload::Event(ExtnEvent::OperationalMetrics(self))
    }

    fn get_from_payload(payload: ExtnPayload) -> (r: Option<Self>) {
        match payload {
            ExtnPayload::Event(ExtnEvent::OperationalMetrics(r)) => Some(r),
            _ => None,
        }
    }

    fn contract() -> (c: RippleContract) {
        RippleContract::OperationalMetricListener
    }
}

/// The metrics parameters turned into a plain name-to-value map; present
/// exactly when parameters were given.
pub fn get_params(error_params: Option<Vec<Param>>) -> (r: Option<HashMap<String, String>>)
    ensures
        r is Some <==> error_params is Some,
{
    match error_params {
        Some(params) => {
            let mut map: HashMap<String, String> = HashMap::new();
            let mut i: usize = 0;
            while i < params.len()
                invariant
                    i <= params@.len(),
                decreases params@.len() - i,
            {
                let p = &params[i];
                map.insert(p.name.clone(), p.value.clone());
                i = i + 1;
            }
            Some(map)
        },
        None => None,
    }
}

/// The wire name of each error class.
pub open spec fn error_type_name(error_type: ErrorType) -> Seq<char> {
    match error_type {
        ErrorType::network => "network"@,
        ErrorType::media => "media"@,
        ErrorType::restriction => "restriction"@,
        ErrorType::entitlement => "entitlement"@,
        ErrorType::other => "other"@,
    }
}

pub fn get_error_type(error_type: ErrorType) -> (r: String)
    ensures
        r@ == error_type_name(error_type),
{
    match error_type {
        ErrorType::network => "network".to_owned(),
        ErrorType::media => "media".to_owned(),
        ErrorType::restriction => "restriction".to_owned(),
        ErrorType::entitlement => "entitlement".to_owned(),
        ErrorType::other => "other".to_owned(),
    }
}

impl TelemetryAppError {
    /// The telemetry record for an application error report; the session and
    /// application ids start empty and are stamped later.
    pub fn from(error: ErrorParams) -> (r: TelemetryAppError)
        ensures
            r.app_id@ == Seq::<char>::empty(),
            r.error_type@ == error_type_name(error.error_type),
            r.code == error.code,
            r.description == error.description,
            r.visible == error.visible,
            r.parameters is Some <==> error.parameters is Some,
            r.ripple_session_id@ == Seq::<char>::empty(),
    {
        TelemetryAppError {
            app_id: String::new(),
            error_type: get_error_type(error.error_type),
            code: error.code,
            description: error.description,
            visible: error.visible,
            parameters: get_params(error.parameters),
            ripple_session_id: String::new(),
        }
    }
}

impl TelemetrySystemError {
    /// The telemetry record for a platform error report; the session id
    /// starts empty and the platform version is a placeholder.
    pub fn from(error: SystemErrorParams) -> (r: TelemetrySystemError)
        ensures
            r.error_name == error.error_name,
            r.component == error.component,
            r.context == error.context,
            r.ripple_session_id@ == Seq::<char>::empty(),
            r.ripple_version@ == "ripple.version.tbd"@,
            r.ripple_context is None,
    {
        TelemetrySystemError {
            error_name: error.error_name,
            component: error.component,
            context: error.context,
            ripple_session_id: String::new(),
            ripple_version: "ripple.version.tbd".to_owned(),
            ripple_context: None,
        }
    }
}

/// Subscription control for the operational-metrics stream.
#[derive(Debug, PartialEq, Clone)]
pub enum OperationalMetricRequest {
    Subscribe,
    UnSubscribe,
}

impl ExtnPayloadProvider for OperationalMetricRequest {
    open spec fn wrapped_in(payload: ExtnPayload) -> Option<Self> {
        match payload {
            ExtnPayload::Request(ExtnRequest::OperationalMetricsRequest(r)) => Some(r),
            _ => None,
        }
    }

    open spec fn contract_spec() -> RippleContract {
        RippleContract::OperationalMetricListener
    }

    fn get_extn_payload(self) -> (p: ExtnPayload) {
        ExtnPayload::Request(ExtnRequest::OperationalMetricsRequest(self))
    }

    fn get_from_payload(payload: ExtnPayload) -> (r: Option<Self>) {
        match payload {
            ExtnPayload::Request(ExtnRequest::OperationalMetricsRequest(r)) => Some(r),
            _ => None,
        }
    }

    fn contract() -> (c: RippleContract) {
        RippleContract::OperationalMetricListener
    }
}

} // verus!
