//! Distributor-facing discovery requests and how they ride the message
//! fabric.

use vstd::prelude::*;

use crate::extn::{
    DistributorRequest, ExtnPayload, ExtnPayloadProvider, ExtnRequest, RippleContract,
};

verus! {

/// Parameters of a content-access list update for one session.
#[derive(Debug, Clone, PartialEq)]
pub struct ContentAccessListSetParams {
    pub session_id: String,
}

/// Parameters of a content-access clear for one session.
#[derive(Debug, Clone, PartialEq)]
pub struct ClearContentSetParams {
    pub session_id: String,
}

/// Parameters of a sign-in or sign-out notification for one session.
#[derive(Debug, Clone, PartialEq)]
pub struct SignInRequestParams {
    pub session_id: String,
    pub is_signed_in: bool,
}

/// Parameters of a media-event account-link request.
#[derive(Debug, Clone, PartialEq)]
pub struct MediaEventsAccountLinkRequestParams {
    pub content_id: String,
    pub completed: bool,
}

/// Discovery work a distributor is asked to do.
#[derive(Debug, Clone, PartialEq)]
pub enum DiscoveryRequest {
    SetContentAccess(ContentAccessListSetParams),
    ClearContent(ClearContentSetParams),
    SignIn(SignInRequestParams),
}

impl ExtnPayloadProvider for DiscoveryRequest {
    open spec fn wrapped_in(payload: ExtnPayload) -> Option<Self> {
        match payload {
            ExtnPayload::Request(
                ExtnRequest::Distributor(DistributorRequest::Discovery(d)),
            ) => Some(d),
            _ => None,
        }
    }

    open spec fn contract_spec() -> RippleContract {
        RippleContract::Discovery
    }

    fn get_from_payload(payload: ExtnPayload) -> (r: Option<Self>) {
        match payload {
            ExtnPayload::Request(
                ExtnRequest::Distributor(DistributorRequest::Discovery(d)),
            ) => Some(d),
            _ => None,
        }
    }

    fn get_extn_payload(self) -> (p: ExtnPayload) {
        ExtnPayload::Request(ExtnRequest::Distributor(DistributorRequest::Discovery(self)))
    }

    fn contract() -> (c: RippleContract) {
        RippleContract::Discovery
    }
}

/// Media-event account-link work a distributor is asked to do.
#[derive(Debug, Clone, PartialEq)]
pub enum MediaEventRequest {
    MediaEventAccountLink(MediaEventsAccountLinkRequestParams),
}

impl ExtnPayloadProvider for MediaEventRequest {
    open spec fn wrapped_in(payload: ExtnPayload) -> Option<Self> {
        match payload {
            ExtnPayload::Request(
                ExtnRequest::Distributor(DistributorRequest::MediaEvent(d)),
            ) => Some(d),
            _ => None,
        }
    }

    open spec fn contract_spec() -> RippleContract {
        RippleContract::MediaEvents
    }

    fn get_from_payload(payload: ExtnPayload) -> (r: Option<Self>) {
        match payload {
            ExtnPayload::Request(
                ExtnRequest::Distributor(DistributorRequest::MediaEvent(d)),
            ) => Some(d),
            _ => None,
        }
    }

    fn get_extn_payload(self) -> (p: ExtnPayload) {
        ExtnPayload::Request(ExtnRequest::Distributor(DistributorRequest::MediaEvent(self)))
    }

    fn contract() -> (c: RippleContract) {
        RippleContract::MediaEvents
    }
}

} // verus!
