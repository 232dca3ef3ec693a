//! Centralized error types for display-management operations.
use vstd::prelude::*;
use vstd::string::StringExecFns;

use crate::text::{decimal, u64_to_decimal};
use crate::types::DisplayId;

verus! {

#[verifier::external_type_specification]
#[verifier::external_body]
pub struct ExIoError(std::io::Error);

/// Central error type for all display management operations.
///
/// Every public API in this crate returns `Result<T, DisplayError>` so that
/// callers can handle failures via exhaustive pattern matching.
#[derive(Debug)]
pub enum DisplayError {
    /// The connection to the graphics subsystem could not be established.
    ConnectionFailed,
    /// A monitor or output identified by [`DisplayId`] does not exist in the
    /// current topology snapshot.
    NotFound(DisplayId),
    /// The operating system or hardware rejected the requested combination of
    /// resolution, rotation, refresh rate, or spatial layout.
    ConfigurationRejected,
    /// An error specific to High Dynamic Range metadata, tone-mapping, or
    /// state switching.
    HdrError(String),
    /// A feature was invoked that is not supported on the current platform or
    /// backend implementation.
    UnsupportedFeature(String),
    /// A feature was invoked that is not supported by the specific hardware
    /// attached to the system.
    UnsupportedHardware(String),
    /// The requested operation is impossible on the current operating system.
    UnsupportedPlatform(String),
    /// Wrapper for raw backend error codes.
    BackendError(String),
    /// The requested display output is currently disabled.
    OutputDisabled(DisplayId),
    /// The topology was not properly acquired or has been invalidated.
    StaleTopology,
    /// The requested operation requires elevated privileges.
    PermissionDenied,
    /// A timeout expired while waiting for the display subsystem to respond.
    Timeout {
        /// The timeout threshold in milliseconds.
        timeout_ms: u64,
    },
    /// A serialization or deserialization error occurred.
    Serialization(String),
    /// Standard I/O errors.
    Io(std::io::Error),
}

/// Specialized [`Result`] type for display operations.
pub type DisplayResult<T> = Result<T, DisplayError>;

/// The message that each error variant displays; `None` for an I/O error,
/// whose text is that of the underlying I/O error.
pub open spec fn error_message(e: &DisplayError) -> Option<Seq<char>> {
    match e {
        DisplayError::ConnectionFailed => Some("failed to connect to the graphics subsystem"@),
        DisplayError::NotFound(id) => Some("interface or monitor '"@ + id@ + "' not found"@),
        DisplayError::ConfigurationRejected => Some(
            "the system rejected the requested configuration"@,
        ),
        DisplayError::HdrError(s) => Some("HDR error: "@ + s@),
        DisplayError::UnsupportedFeature(s) => Some("feature not supported on this platform: "@ + s@),
        DisplayError::UnsupportedHardware(s) => Some(
            "hardware does not support requested feature: "@ + s@,
        ),
        DisplayError::UnsupportedPlatform(s) => Some(
            "operation not supported on this platform: "@ + s@,
        ),
        DisplayError::BackendError(s) => Some("platform-specific backend error: "@ + s@),
        DisplayError::OutputDisabled(id) => Some("display '"@ + id@ + "' is currently disabled"@),
        DisplayError::StaleTopology => Some("topology stale \u{2014} re-acquire before committing"@),
        DisplayError::PermissionDenied => Some("insufficient privileges for this operation"@),
        DisplayError::Timeout { timeout_ms } => Some(
            "operation timed out after "@ + decimal(*timeout_ms as nat) + " ms"@,
        ),
        DisplayError::Serialization(s) => Some("serialization error: "@ + s@),
        DisplayError::Io(_) => None,
    }
}

impl From<std::io::Error> for DisplayError {
    fn from(e: std::io::Error) -> (res: Self) {
        DisplayError::Io(e)
    }
}

impl vstd::std_specs::convert::FromSpecImpl<std::io::Error> for DisplayError {
    open spec fn obeys_from_spec() -> bool {
        true
    }

    open spec fn from_spec(v: std::io::Error) -> Self {
        DisplayError::Io(v)
    }
}

impl DisplayError {
    /// The human-readable message of the error (what `Display` prints).
    pub fn to_string(&self) -> (res: String)
        ensures
            error_message(self) is Some ==> res@ == error_message(self)->0,
            self is Io ==> exists|t: Seq<char>| res@ == "I/O error: "@ + t,
    {
        match self {
            DisplayError::ConnectionFailed => String::from_str(
                "failed to connect to the graphics subsystem",
            ),
            DisplayError::NotFound(id) => String::from_str("interface or monitor '").concat(
                id.0.as_str(),
            ).concat("' not found"),
            DisplayError::ConfigurationRejected => String::from_str(
                "the system rejected the requested configuration",
            ),
            DisplayError::HdrError(s) => String::from_str("HDR error: ").concat(s.as_str()),
            DisplayError::UnsupportedFeature(s) => String::from_str(
                "feature not supported on this platform: ",
            ).concat(s.as_str()),
            DisplayError::UnsupportedHardware(s) => String::from_str(
                "hardware does not support requested feature: ",
            ).concat(s.as_str()),
            DisplayError::UnsupportedPlatform(s) => String::from_str(
                "operation not supported on this platform: ",
            ).concat(s.as_str()),
            DisplayError::BackendError(s) => String::from_str(
                "platform-specific backend error: ",
            ).concat(s.as_str()),
            DisplayError::OutputDisabled(id) => String::from_str("display '").concat(
                id.0.as_str(),
            ).concat("' is currently disabled"),
            DisplayError::StaleTopology => String::from_str(
                "topology stale \u{2014} re-acquire before committing",
            ),
            DisplayError::PermissionDenied => String::from_str(
                "insufficient privileges for this operation",
            ),
            DisplayError::Timeout { timeout_ms } => {
                let digits = u64_to_decimal(*timeout_ms);
                String::from_str("operation timed out after ").concat(digits.as_str()).concat(
                    " ms",
                )
            },
            DisplayError::Serialization(s) => String::from_str("serialization error: ").concat(
                s.as_str(),
            ),
            DisplayError::Io(e) => {
                let inner = e.to_string();
                String::from_str("I/O error: ").concat(inner.as_str())
            },
        }
    }
}

} // verus!
