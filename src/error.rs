use vstd::prelude::*;

verus! {

/// What the foreign runtime reports when it cannot perform a network operation.
#[derive(Debug, PartialEq, Eq, Clone)]
pub enum FFINetworkingError {
    /// The foreign side could not build a URL from the given string.
    FailedToCreateURLFrom { string: String },
    /// The transport or session failed.
    RequestFailed {
        status_code: Option<u16>,
        url_session_underlying_error: Option<String>,
        error_message_from_gateway: Option<String>,
    },
}

/// Every failure that the foreign side can report.
#[derive(Debug, PartialEq, Eq, Clone)]
pub enum FFISideError {
    Networking { error: FFINetworkingError },
}

/// Failures that this library detects itself, after a response arrived or
/// while bridging an operation.
#[derive(Debug, PartialEq, Eq, Clone)]
pub enum RustSideError {
    NoResponseCode,
    /// The status code lies outside 200 through 299.
    BadResponseCode,
    /// The body is not JSON of the expected type, named here.
    UnableJSONDeserializeHTTPResponseBodyIntoTypeName { target_type: String },
    NoXRDBalanceFound,
    /// The outcome channel was dropped before an outcome was delivered.
    FailedToReceiveResponseFromSwift,
    /// The awaiting side was gone when an outcome was delivered.
    FailedToPropagateResultFromFFIOperationBackToDispatcher,
    /// A response arrived with an empty body.
    ResponseBodyWasNil,
    WrongFFIOperationOKExpectedFFINetworkingResponse,
    /// An outcome listener was notified a second time: the foreign side broke
    /// its promise of a single delivery.
    OutcomeListenerNotifiedTwice,
}

/// The one error type handed to callers of the gateway: a local failure or a
/// foreign one.
#[derive(Debug, PartialEq, Eq, Clone)]
pub enum FFIBridgeError {
    FromRust { error: RustSideError },
    FromFFI { error: FFISideError },
}

impl From<FFINetworkingError> for FFISideError {
    fn from(value: FFINetworkingError) -> (r: Self)
        ensures
            r == (FFISideError::Networking { error: value }),
    {
        FFISideError::Networking { error: value }
    }
}

impl vstd::std_specs::convert::FromSpecImpl<FFINetworkingError> for FFISideError {
    open spec fn obeys_from_spec() -> bool {
        true
    }

    open spec fn from_spec(v: FFINetworkingError) -> FFISideError {
        FFISideError::Networking { error: v }
    }
}

impl From<RustSideError> for FFIBridgeError {
    fn from(value: RustSideError) -> (r: Self)
        ensures
            r == (FFIBridgeError::FromRust { error: value }),
    {
        FFIBridgeError::FromRust { error: value }
    }
}

impl vstd::std_specs::convert::FromSpecImpl<RustSideError> for FFIBridgeError {
    open spec fn obeys_from_spec() -> bool {
        true
    }

    open spec fn from_spec(v: RustSideError) -> FFIBridgeError {
        FFIBridgeError::FromRust { error: v }
    }
}

impl From<FFISideError> for FFIBridgeError {
    fn from(value: FFISideError) -> (r: Self)
        ensures
            r == (FFIBridgeError::FromFFI { error: value }),
    {
        FFIBridgeError::FromFFI { error: value }
    }
}

impl vstd::std_specs::convert::FromSpecImpl<FFISideError> for FFIBridgeError {
    open spec fn obeys_from_spec() -> bool {
        true
    }

    open spec fn from_spec(v: FFISideError) -> FFIBridgeError {
        FFIBridgeError::FromFFI { error: v }
    }
}

/// The bridge error that wraps a failure reported by the foreign side.
pub open spec fn foreign_failure(e: FFINetworkingError) -> FFIBridgeError {
    FFIBridgeError::FromFFI { error: FFISideError::Networking { error: e } }
}

/// The bridge error that wraps a failure detected by this library.
pub open spec fn local_failure(e: RustSideError) -> FFIBridgeError {
    FFIBridgeError::FromRust { error: e }
}

impl From<FFINetworkingError> for FFIBridgeError {
    fn from(value: FFINetworkingError) -> (r: Self)
        ensures
            r == foreign_failure(value),
    {
        FFIBridgeError::FromFFI { error: FFISideError::from(value) }
    }
}

impl vstd::std_specs::convert::FromSpecImpl<FFINetworkingError> for FFIBridgeError {
    open spec fn obeys_from_spec() -> bool {
        true
    }

    open spec fn from_spec(v: FFINetworkingError) -> FFIBridgeError {
        foreign_failure(v)
    }
}

} // verus!
