//! The typed message-routing fabric at the broker's boundary: payload
//! envelopes, routing contracts, and the provider trait that says how a typed
//! value wraps itself into an envelope and is recovered from one.

use vstd::prelude::*;

use crate::device_apps::{AppsRequest, InstalledApp};
use crate::discovery::{DiscoveryRequest, MediaEventRequest};
use crate::telemetry::{OperationalMetricRequest, TelemetryPayload};

verus! {

/// The routing contract a payload travels under.
#[derive(Clone, Copy, PartialEq, Eq, Structural, Debug)]
pub enum RippleContract {
    Apps,
    Discovery,
    MediaEvents,
    OperationalMetricListener,
}

/// Failures surfaced to a requester; every decode or lookup failure is
/// recovered locally into one of these.
#[derive(Clone, Copy, PartialEq, Eq, Structural, Debug)]
pub enum RippleError {
    ProcessorError,
}

/// Requests addressed to a distributor extension.
#[derive(Debug, Clone, PartialEq)]
pub enum DistributorRequest {
    Discovery(DiscoveryRequest),
    MediaEvent(MediaEventRequest),
}

/// The request payloads the fabric routes.
#[derive(Debug, Clone, PartialEq)]
pub enum ExtnRequest {
    Distributor(DistributorRequest),
    OperationalMetricsRequest(OperationalMetricRequest),
    Apps(AppsRequest),
}

/// The event payloads the fabric routes.
#[derive(Debug, Clone, PartialEq)]
pub enum ExtnEvent {
    OperationalMetrics(TelemetryPayload),
}

/// The response payloads a request is answered with.
#[derive(Debug, Clone, PartialEq)]
pub enum ExtnResponse {
    String(String),
    InstalledApps(Vec<InstalledApp>),
    Permission(Vec<String>),
    Error(RippleError),
}

/// The envelope every payload travels in.
#[derive(Debug, Clone, PartialEq)]
pub enum ExtnPayload {
    Request(ExtnRequest),
    Response(ExtnResponse),
    Event(ExtnEvent),
}

/// A typed payload the fabric can carry.  `wrapped_in` is the one source of
/// truth: wrapping a value yields an envelope that recovers to exactly that
/// value, and recovery returns whatever `wrapped_in` says the envelope holds.
pub trait ExtnPayloadProvider: Sized {
    /// The value of this type an envelope holds, if it holds one.
    spec fn wrapped_in(payload: ExtnPayload) -> Option<Self>;

    /// The routing contract values of this type travel under.
    spec fn contract_spec() -> RippleContract;

    /// Wraps the value into its envelope.
    fn get_extn_payload(self) -> (p: ExtnPayload)
        ensures
            Self::wrapped_in(p) == Some(self),
    ;

    /// Recovers a value of this type from an envelope.
    fn get_from_payload(payload: ExtnPayload) -> (r: Option<Self>)
        ensures
            r == Self::wrapped_in(payload),
    ;

    fn contract() -> (c: RippleContract)
        ensures
            c == Self::contract_spec(),
    ;
}

/// Round trip: recovering from the envelope a value was wrapped into yields
/// the value back, for every payload-provider type.
pub fn payload_round_trip<T: ExtnPayloadProvider>(value: T) -> (r: Option<T>)
    ensures
        r == Some(value),
{
    T::get_from_payload(value.get_extn_payload())
}

} // verus!
