//! Error types for server discovery operations.
use vstd::prelude::*;
use crate::error::IndigoError;

verus! {

/// Errors that can occur during server discovery.
#[derive(Debug, Clone, PartialEq, Eq)]
pub enum DiscoveryError {
    /// Discovery feature is not enabled (requires `auto` feature flag).
    NotSupported(String),
    /// Failed to initialize mDNS browser.
    InitializationFailed(String),
    /// Discovery operation timed out.
    Timeout(String),
    /// No servers were discovered.
    NoServersFound,
    /// An error occurred during discovery.
    DiscoveryFailed(String),
    /// Platform-specific error (e.g., Avahi not installed on Linux).
    PlatformError(String),
}

impl DiscoveryError {
    pub open spec fn spec_text(&self) -> Seq<char> {
        match self {
            DiscoveryError::NotSupported(m) => "Discovery not supported: "@ + m@,
            DiscoveryError::InitializationFailed(m) => "Failed to initialize discovery: "@ + m@,
            DiscoveryError::Timeout(m) => "Discovery timeout: "@ + m@,
            DiscoveryError::NoServersFound => "No INDIGO servers found"@,
            DiscoveryError::DiscoveryFailed(m) => "Discovery failed: "@ + m@,
            DiscoveryError::PlatformError(m) => "Platform error: "@ + m@,
        }
    }

    /// The text of the error, as its `Display` writes it.
    pub fn text(&self) -> (r: String)
        ensures
            r@ == self.spec_text(),
    {
        let (prefix, detail): (&str, &str) = match self {
            DiscoveryError::NotSupported(m) => ("Discovery not supported: ", m.as_str()),
            DiscoveryError::InitializationFailed(m) => ("Failed to initialize discovery: ", m.as_str()),
            DiscoveryError::Timeout(m) => ("Discovery timeout: ", m.as_str()),
            DiscoveryError::NoServersFound => {
                return "No INDIGO servers found".to_owned();
            },
            DiscoveryError::DiscoveryFailed(m) => ("Discovery failed: ", m.as_str()),
            DiscoveryError::PlatformError(m) => ("Platform error: ", m.as_str()),
        };
        let mut t = prefix.to_owned();
        t.append(detail);
        t
    }
}

/// Whether `e` is the library error that the discovery error `err` stands for: the
/// same message under the kind of failure it is.
pub open spec fn is_indigo_error_of(err: DiscoveryError, e: IndigoError) -> bool {
    match err {
        DiscoveryError::NotSupported(msg) => e matches IndigoError::NotSupported(m) && m@ == msg@,
        DiscoveryError::InitializationFailed(msg) => e matches IndigoError::ConnectionError(m) && m@ == msg@,
        DiscoveryError::Timeout(msg) => e matches IndigoError::Timeout(m) && m@ == msg@,
        DiscoveryError::NoServersFound => e matches IndigoError::Timeout(m) && m@ == "No INDIGO servers discovered"@,
        DiscoveryError::DiscoveryFailed(msg) => e matches IndigoError::ConnectionError(m) && m@ == msg@,
        DiscoveryError::PlatformError(msg) => e matches IndigoError::ConnectionError(m) && m@ == msg@,
    }
}

impl vstd::std_specs::convert::FromSpecImpl<DiscoveryError> for IndigoError {
    /// The conversion is stated by `is_indigo_error_of`, over the texts of the
    /// messages, rather than as one value.
    open spec fn obeys_from_spec() -> bool {
        false
    }

    open spec fn from_spec(err: DiscoveryError) -> IndigoError {
        arbitrary()
    }
}

impl From<DiscoveryError> for IndigoError {
    fn from(err: DiscoveryError) -> (r: IndigoError)
        ensures
            is_indigo_error_of(err, r),
    {
        match err {
            DiscoveryError::NotSupported(msg) => IndigoError::NotSupported(msg),
            DiscoveryError::InitializationFailed(msg) => IndigoError::ConnectionError(msg),
            DiscoveryError::Timeout(msg) => IndigoError::Timeout(msg),
            DiscoveryError::NoServersFound => IndigoError::Timeout("No INDIGO servers discovered".to_owned()),
            DiscoveryError::DiscoveryFailed(msg) => IndigoError::ConnectionError(msg),
            DiscoveryError::PlatformError(msg) => IndigoError::ConnectionError(msg),
        }
    }
}

} // verus!
