//! Error types of libindigo.
use vstd::prelude::*;

verus! {

#[verifier::external_type_specification]
#[verifier::external_body]
pub struct ExIoError(std::io::Error);

/// The main error type for libindigo operations.
#[derive(Debug)]
pub enum IndigoError {
    /// Connection to INDIGO server failed.
    ConnectionError(String),
    /// INDIGO protocol error occurred.
    ProtocolError(String),
    /// I/O error occurred during network or file operations.
    IoError(std::io::Error),
    /// Requested property was not found.
    PropertyNotFound(String),
    /// Device was not found.
    DeviceNotFound(String),
    /// Invalid state transition or operation in current state.
    InvalidState(String),
    /// Failed to parse data (XML, values, etc.).
    ParseError(String),
    /// Timeout occurred during operation.
    Timeout(String),
    /// Invalid parameter or argument provided.
    InvalidParameter(String),
    /// Operation not supported by current strategy or configuration.
    NotSupported(String),
    /// Property builder error occurred.
    PropertyBuilderError(PropertyBuilderError),
    /// A property with this name is already defined.
    PropertyAlreadyExists(String),
    /// A driver with this name is already registered.
    DriverAlreadyRegistered(String),
    /// No driver with this name is registered.
    DriverNotFound(String),
    /// The driver is already attached.
    DriverAlreadyAttached(String),
    /// The driver is not attached.
    DriverNotAttached(String),
    /// The driver must be detached first.
    DriverStillAttached(String),
    /// Any other failure, described by its message.
    Other(String),
    /// A failure reported by the bus.
    Bus(BusError),
}

/// A specialized `Result` type for libindigo operations.
pub type IndigoResult<T> = core::result::Result<T, IndigoError>;

/// Error type for property builder operations.
#[derive(Debug, Clone, Copy, PartialEq, Eq)]
pub enum PropertyBuilderError {
    /// Device name is required but was not set.
    MissingDevice,
    /// Property name is required but was not set.
    MissingName,
    /// Property type is required but was not set.
    MissingPropertyType,
}

/// Result codes of the INDIGO bus.
#[derive(Debug, Clone, Copy, PartialEq, Eq)]
pub enum BusError {
    /// unspecified error
    Failed,
    /// too many clients/devices/properties/items etc.
    TooManyElements,
    /// mutex lock error
    LockError,
    /// unknown client/device/property/item etc.
    NotFound,
    /// network server start failure
    CantStartServer,
    /// duplicated items etc.
    Duplicated,
    /// operation failed because the resourse is busy.
    Busy,
    /// Guide process error (srar lost, SNR too low etc..).
    GuideError,
    /// Unsupported architecture.
    UnsupportedArchitecture,
    /// Unresolved dependencies (missing library, executable, ...).
    UnresolvedDependency,
}

impl PropertyBuilderError {
    /// The message of the error.
    pub open spec fn spec_message(self) -> &'static str {
        match self {
            PropertyBuilderError::MissingDevice => "Device name is required",
            PropertyBuilderError::MissingName => "Property name is required",
            PropertyBuilderError::MissingPropertyType => "Property type is required",
        }
    }

    /// The message of the error.
    pub fn message(&self) -> (r: &'static str)
        ensures
            r == self.spec_message(),
    {
        match self {
            PropertyBuilderError::MissingDevice => "Device name is required",
            PropertyBuilderError::MissingName => "Property name is required",
            PropertyBuilderError::MissingPropertyType => "Property type is required",
        }
    }
}

impl vstd::std_specs::convert::FromSpecImpl<PropertyBuilderError> for IndigoError {
    open spec fn obeys_from_spec() -> bool {
        true
    }

    open spec fn from_spec(e: PropertyBuilderError) -> IndigoError {
        IndigoError::PropertyBuilderError(e)
    }
}

impl From<PropertyBuilderError> for IndigoError {
    fn from(e: PropertyBuilderError) -> (r: IndigoError) {
        IndigoError::PropertyBuilderError(e)
    }
}

impl vstd::std_specs::convert::FromSpecImpl<std::io::Error> for IndigoError {
    open spec fn obeys_from_spec() -> bool {
        true
    }

    open spec fn from_spec(e: std::io::Error) -> IndigoError {
        IndigoError::IoError(e)
    }
}

impl From<std::io::Error> for IndigoError {
    fn from(e: std::io::Error) -> (r: IndigoError) {
        IndigoError::IoError(e)
    }
}

/// The text that `std::io::Error`'s `Display` writes.
///
/// Calls `ToString::to_string` on the error; std documents no more of the text than
/// that it describes the error, so nothing is stated of it.
#[verifier::external_body]
fn io_error_text(e: &std::io::Error) -> (r: String) {
    e.to_string()
}

impl BusError {
    /// The message of the bus result.
    pub open spec fn spec_message(self) -> &'static str {
        match self {
            BusError::Failed => "unspecified error",
            BusError::TooManyElements => "too many elements",
            BusError::LockError => "lock error",
            BusError::NotFound => "not found",
            BusError::CantStartServer => "network server start error",
            BusError::Duplicated => "duplicated objects",
            BusError::Busy => "resource is busy",
            BusError::GuideError => "guide process errror",
            BusError::UnsupportedArchitecture => "unsupported architecture",
            BusError::UnresolvedDependency => "unresolved dependency",
        }
    }

    /// The message of the bus result.
    pub fn message(&self) -> (r: &'static str)
        ensures
            r == self.spec_message(),
    {
        match self {
            BusError::Failed => "unspecified error",
            BusError::TooManyElements => "too many elements",
            BusError::LockError => "lock error",
            BusError::NotFound => "not found",
            BusError::CantStartServer => "network server start error",
            BusError::Duplicated => "duplicated objects",
            BusError::Busy => "resource is busy",
            BusError::GuideError => "guide process errror",
            BusError::UnsupportedArchitecture => "unsupported architecture",
            BusError::UnresolvedDependency => "unresolved dependency",
        }
    }
}

impl IndigoError {
    /// The text of an error other than an I/O error: its kind, then its detail.
    pub open spec fn spec_text(&self) -> Seq<char> {
        match self {
            IndigoError::ConnectionError(m) => "Connection failed: "@ + m@,
            IndigoError::ProtocolError(m) => "Protocol error: "@ + m@,
            IndigoError::IoError(_) => "I/O error: "@,
            IndigoError::PropertyNotFound(m) => "Property not found: "@ + m@,
            IndigoError::DeviceNotFound(m) => "Device not found: "@ + m@,
            IndigoError::InvalidState(m) => "Invalid state: "@ + m@,
            IndigoError::ParseError(m) => "Parse error: "@ + m@,
            IndigoError::Timeout(m) => "Operation timed out: "@ + m@,
            IndigoError::InvalidParameter(m) => "Invalid parameter: "@ + m@,
            IndigoError::NotSupported(m) => "Not supported: "@ + m@,
            IndigoError::PropertyBuilderError(e) => "Property builder error: "@ + e.spec_message()@,
            IndigoError::PropertyAlreadyExists(m) => "Property already exists: "@ + m@,
            IndigoError::DriverAlreadyRegistered(m) => "Driver already registered: "@ + m@,
            IndigoError::DriverNotFound(m) => "Driver not found: "@ + m@,
            IndigoError::DriverAlreadyAttached(m) => "Driver already attached: "@ + m@,
            IndigoError::DriverNotAttached(m) => "Driver not attached: "@ + m@,
            IndigoError::DriverStillAttached(m) => "Driver still attached: "@ + m@,
            IndigoError::Other(m) => m@,
            IndigoError::Bus(b) => b.spec_message()@,
        }
    }

    /// The text of the error, as its `Display` writes it.
    ///
    /// An I/O error is `I/O error: ` followed by the text of the underlying error.
    pub fn text(&self) -> (r: String)
        ensures
            self is IoError ==> self.spec_text().is_prefix_of(r@),
            !(self is IoError) ==> r@ == self.spec_text(),
    {
        let (prefix, detail): (&str, &str) = match self {
            IndigoError::ConnectionError(m) => ("Connection failed: ", m.as_str()),
            IndigoError::ProtocolError(m) => ("Protocol error: ", m.as_str()),
            IndigoError::IoError(e) => {
                let mut t = "I/O error: ".to_owned();
                let d = io_error_text(e);
                t.append(d.as_str());
                return t;
            },
            IndigoError::PropertyNotFound(m) => ("Property not found: ", m.as_str()),
            IndigoError::DeviceNotFound(m) => ("Device not found: ", m.as_str()),
            IndigoError::InvalidState(m) => ("Invalid state: ", m.as_str()),
            IndigoError::ParseError(m) => ("Parse error: ", m.as_str()),
            IndigoError::Timeout(m) => ("Operation timed out: ", m.as_str()),
            IndigoError::InvalidParameter(m) => ("Invalid parameter: ", m.as_str()),
            IndigoError::NotSupported(m) => ("Not supported: ", m.as_str()),
            IndigoError::PropertyBuilderError(e) => ("Property builder error: ", e.message()),
            IndigoError::PropertyAlreadyExists(m) => ("Property already exists: ", m.as_str()),
            IndigoError::DriverAlreadyRegistered(m) => ("Driver already registered: ", m.as_str()),
            IndigoError::DriverNotFound(m) => ("Driver not found: ", m.as_str()),
            IndigoError::DriverAlreadyAttached(m) => ("Driver already attached: ", m.as_str()),
            IndigoError::DriverNotAttached(m) => ("Driver not attached: ", m.as_str()),
            IndigoError::DriverStillAttached(m) => ("Driver still attached: ", m.as_str()),
            IndigoError::Other(m) => ("", m.as_str()),
            IndigoError::Bus(b) => ("", b.message()),
        };
        let mut t = prefix.to_owned();
        t.append(detail);
        proof {
            reveal_strlit("");
        }
        t
    }
}

} // verus!
