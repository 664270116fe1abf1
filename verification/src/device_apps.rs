//! The application records the broker exchanges with its callers.

use vstd::prelude::*;

verus! {

/// What the catalogue knows about an installable application.
#[derive(Debug, Clone, PartialEq)]
pub struct AppMetadata {
    pub id: String,
    pub title: String,
    pub version: String,
    pub uri: String,
    pub data: Option<String>,
}

/// One application currently installed on the device.
#[derive(Debug, Clone, PartialEq)]
pub struct InstalledApp {
    pub id: String,
    pub version: String,
}

/// The capability grants decoded from an application's permission blob.
#[derive(Debug, Clone, PartialEq)]
pub struct FireboltPermissions {
    pub capabilities: Vec<String>,
}

/// The inbound typed requests the broker answers.
#[derive(Debug, Clone, PartialEq)]
pub enum AppsRequest {
    GetApps(Option<String>),
    InstallApp(AppMetadata),
    UninstallApp(InstalledApp),
    GetFireboltPermissions(String),
}

} // verus!
