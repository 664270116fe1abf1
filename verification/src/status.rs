//! Device-reported operation statuses and their terminal/non-terminal
//! classification.

use vstd::prelude::*;

use crate::text::{ascii_lower, str_eq, str_eq_ignore_ascii_case};

verus! {

/// The progress of one install or uninstall attempt as the device reports it.
#[derive(Clone, Copy, PartialEq, Eq, Structural, Debug)]
pub enum OperationStatus {
    Succeeded,
    Failed,
    NotStarted,
    Downloading,
    Downloaded,
    DownloadFailed,
    Verifying,
    VerificationFailed,
    InstallationFailed,
    Cancelled,
    NotEnoughStorage,
    Unknown,
}

/// The status named by a device status string; every unrecognised string maps
/// to `Unknown`.
pub open spec fn status_of(s: Seq<char>) -> OperationStatus {
    if s == "Succeeded"@ {
        OperationStatus::Succeeded
    } else if s == "Failed"@ {
        OperationStatus::Failed
    } else if s == "NotStarted"@ {
        OperationStatus::NotStarted
    } else if s == "Downloading"@ {
        OperationStatus::Downloading
    } else if s == "Downloaded"@ {
        OperationStatus::Downloaded
    } else if s == "DownloadFailed"@ {
        OperationStatus::DownloadFailed
    } else if s == "Verifying"@ {
        OperationStatus::Verifying
    } else if s == "VerificationFailed"@ {
        OperationStatus::VerificationFailed
    } else if s == "InstallationFailed"@ {
        OperationStatus::InstallationFailed
    } else if s == "Cancelled"@ {
        OperationStatus::Cancelled
    } else if s == "NotEnoughStorage"@ {
        OperationStatus::NotEnoughStorage
    } else {
        OperationStatus::Unknown
    }
}

impl OperationStatus {
    /// Total mapping from a device status string to a status variant.
    pub fn new(s: &str) -> (r: OperationStatus)
        ensures
            r == status_of(s@),
    {
        if str_eq(s, "Succeeded") {
            OperationStatus::Succeeded
        } else if str_eq(s, "Failed") {
            OperationStatus::Failed
        } else if str_eq(s, "NotStarted") {
            OperationStatus::NotStarted
        } else if str_eq(s, "Downloading") {
            OperationStatus::Downloading
        } else if str_eq(s, "Downloaded") {
            OperationStatus::Downloaded
        } else if str_eq(s, "DownloadFailed") {
            OperationStatus::DownloadFailed
        } else if str_eq(s, "Verifying") {
            OperationStatus::Verifying
        } else if str_eq(s, "VerificationFailed") {
            OperationStatus::VerificationFailed
        } else if str_eq(s, "InstallationFailed") {
            OperationStatus::InstallationFailed
        } else if str_eq(s, "Cancelled") {
            OperationStatus::Cancelled
        } else if str_eq(s, "NotEnoughStorage") {
            OperationStatus::NotEnoughStorage
        } else {
            OperationStatus::Unknown
        }
    }

    /// A terminal status signals that the operation will not progress any
    /// further on the device, by success or by any kind of failure.
    pub open spec fn is_terminal(self) -> bool {
        match self {
            OperationStatus::Succeeded => true,
            OperationStatus::Failed => true,
            OperationStatus::NotStarted => false,
            OperationStatus::Downloading => false,
            OperationStatus::Downloaded => false,
            OperationStatus::DownloadFailed => true,
            OperationStatus::Verifying => false,
            OperationStatus::VerificationFailed => true,
            OperationStatus::InstallationFailed => true,
            OperationStatus::Cancelled => true,
            OperationStatus::NotEnoughStorage => true,
            OperationStatus::Unknown => false,
        }
    }

    /// Whether the operation has finished on the device side.
    pub fn completed(&self) -> (r: bool)
        ensures
            r == self.is_terminal(),
    {
        match self {
            OperationStatus::Succeeded => true,
            OperationStatus::Failed => true,
            OperationStatus::NotStarted => false,
            OperationStatus::Downloading => false,
            OperationStatus::Downloaded => false,
            OperationStatus::DownloadFailed => true,
            OperationStatus::Verifying => false,
            OperationStatus::VerificationFailed => true,
            OperationStatus::InstallationFailed => true,
            OperationStatus::Cancelled => true,
            OperationStatus::NotEnoughStorage => true,
            OperationStatus::Unknown => false,
        }
    }
}

/// Whether an operation is an installation or a removal.
#[derive(Clone, Copy, PartialEq, Eq, Structural, Debug)]
pub enum AppsOperationType {
    Install,
    Uninstall,
}

/// The operation type named by a status event's operation string, compared
/// without regard to ASCII case; any other string names no operation type.
pub open spec fn operation_type_of(s: Seq<char>) -> Option<AppsOperationType> {
    if ascii_lower(s) == "install"@ {
        Some(AppsOperationType::Install)
    } else if ascii_lower(s) == "uninstall"@ {
        Some(AppsOperationType::Uninstall)
    } else {
        None
    }
}

impl AppsOperationType {
    /// Parses the operation field of a status event; unrecognised values are
    /// rejected so that the event can be dropped.
    pub fn from_str(input: &str) -> (r: Result<AppsOperationType, ()>)
        ensures
            match r {
                Ok(t) => operation_type_of(input@) == Some(t),
                Err(()) => operation_type_of(input@) is None,
            },
    {
        if str_eq_ignore_ascii_case(input, "install") {
            proof {
                reveal_strlit("install");
            }
            assert(ascii_lower(input@) == "install"@) by {
                assert(ascii_lower("install"@) =~= "install"@);
            }
            Ok(AppsOperationType::Install)
        } else if str_eq_ignore_ascii_case(input, "uninstall") {
            proof {
                reveal_strlit("uninstall");
            }
            assert(ascii_lower(input@) == "uninstall"@) by {
                assert(ascii_lower("uninstall"@) =~= "uninstall"@);
            }
            Ok(AppsOperationType::Uninstall)
        } else {
            proof {
                reveal_strlit("install");
                reveal_strlit("uninstall");
                assert(ascii_lower("install"@) =~= "install"@);
                assert(ascii_lower("uninstall"@) =~= "uninstall"@);
            }
            Err(())
        }
    }
}

} // verus!
