//! The error-report parameters that arrive with metrics requests.

use vstd::prelude::*;

verus! {

/// The broad classes an application error report falls into.
#[allow(non_camel_case_types)]
#[derive(Clone, Copy, PartialEq, Eq, Structural, Debug)]
pub enum ErrorType {
    network,
    media,
    restriction,
    entitlement,
    other,
}

/// One named parameter attached to an error report.
#[derive(Debug, Clone, PartialEq)]
pub struct Param {
    pub name: String,
    pub value: String,
}

/// An application error as reported over the metrics interface.
#[derive(Debug, Clone, PartialEq)]
pub struct ErrorParams {
    pub error_type: ErrorType,
    pub code: String,
    pub description: String,
    pub visible: bool,
    pub parameters: Option<Vec<Param>>,
}

/// A platform-component error as reported over the metrics interface.
#[derive(Debug, Clone, PartialEq)]
pub struct SystemErrorParams {
    pub error_name: String,
    pub component: String,
    pub context: Option<String>,
}

} // verus!
