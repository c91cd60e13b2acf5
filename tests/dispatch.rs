use std::sync::Mutex;

use crypto_service::dispatch::{
    new_operation, registration_result, response_from_received, FFINetworkingDispatcher,
    FFINetworkingExecutor, FFIOperationOutcomeListener,
};
use crypto_service::error::{FFIBridgeError, FFINetworkingError, FFISideError, RustSideError};
use crypto_service::headers::Headers;
use crypto_service::network::{FFINetworkingOutcome, FFINetworkingRequest, FFINetworkingResponse};

fn resp(status_code: u16, body: &[u8]) -> FFINetworkingResponse {
    FFINetworkingResponse { status_code, body: body.to_vec() }
}

fn request(url: &str, body: &[u8]) -> FFINetworkingRequest {
    FFINetworkingRequest {
        url: url.to_string(),
        method: "POST".to_string(),
        headers: Headers::new(),
        body: body.to_vec(),
    }
}

fn foreign(error: FFINetworkingError) -> FFIBridgeError {
    FFIBridgeError::FromFFI { error: FFISideError::Networking { error } }
}

#[test]
fn listener_delivers_first_outcome() {
    let (mut listener, receiver) = new_operation();
    assert!(listener.is_pending());
    let outcome = FFINetworkingOutcome::Success { value: resp(200, b"{}") };
    assert_eq!(listener.notify_outcome(outcome.clone()), Ok(()));
    assert!(!listener.is_pending());
    assert_eq!(receiver.blocking_recv().unwrap(), outcome);
}

#[test]
fn listener_second_notification_is_violation() {
    let (mut listener, receiver) = new_operation();
    let first = FFINetworkingOutcome::Success { value: resp(200, b"1") };
    let second = FFINetworkingOutcome::Success { value: resp(201, b"2") };
    assert_eq!(listener.notify_outcome(first.clone()), Ok(()));
    assert_eq!(
        listener.notify_outcome(second),
        Err(RustSideError::OutcomeListenerNotifiedTwice)
    );
    assert_eq!(receiver.blocking_recv().unwrap(), first);
}

#[test]
fn listener_notifying_abandoned_receiver_fails() {
    let (mut listener, receiver) = new_operation();
    drop(receiver);
    let outcome = FFINetworkingOutcome::Success { value: resp(200, b"1") };
    assert_eq!(
        listener.notify_outcome(outcome),
        Err(RustSideError::FailedToPropagateResultFromFFIOperationBackToDispatcher)
    );
    assert!(!listener.is_pending());
}

#[test]
fn dropped_listener_is_failure_to_receive() {
    let (listener, receiver) = new_operation();
    drop(listener);
    assert_eq!(
        response_from_received(receiver.blocking_recv()),
        Err(FFIBridgeError::FromRust { error: RustSideError::FailedToReceiveResponseFromSwift })
    );
}

#[test]
fn received_success_is_response() {
    let (mut listener, receiver) = new_operation();
    listener
        .notify_outcome(FFINetworkingOutcome::Success { value: resp(204, b"x") })
        .unwrap();
    assert_eq!(response_from_received(receiver.blocking_recv()), Ok(resp(204, b"x")));
}

#[test]
fn received_failure_is_foreign_error() {
    let (mut listener, receiver) = new_operation();
    let error = FFINetworkingError::RequestFailed {
        status_code: Some(503),
        url_session_underlying_error: Some("timed out".into()),
        error_message_from_gateway: None,
    };
    listener
        .notify_outcome(FFINetworkingOutcome::Failure { error: error.clone() })
        .unwrap();
    assert_eq!(response_from_received(receiver.blocking_recv()), Err(foreign(error)));
}

#[test]
fn registration_result_classifies() {
    assert_eq!(registration_result(Ok(())), Ok(()));
    let error = FFINetworkingError::FailedToCreateURLFrom { string: "::".into() };
    assert_eq!(registration_result(Err(error.clone())), Err(foreign(error)));
}

struct RejectingExecutor;

impl FFINetworkingExecutor for RejectingExecutor {
    fn execute_networking_request(
        &self,
        request: FFINetworkingRequest,
        _listener: FFIOperationOutcomeListener,
    ) -> Result<(), FFINetworkingError> {
        Err(FFINetworkingError::FailedToCreateURLFrom { string: request.url })
    }
}

#[test]
fn rejected_registration_fails_fast() {
    let dispatcher = FFINetworkingDispatcher::new(RejectingExecutor);
    let result = dispatcher.register(request("not a url", b""));
    assert_eq!(
        result.err(),
        Some(foreign(FFINetworkingError::FailedToCreateURLFrom { string: "not a url".into() }))
    );
}

/// Holds every listener it is given, to be notified later and in any order.
struct HoldingExecutor {
    held: Mutex<Vec<(FFINetworkingRequest, FFIOperationOutcomeListener)>>,
}

impl FFINetworkingExecutor for HoldingExecutor {
    fn execute_networking_request(
        &self,
        request: FFINetworkingRequest,
        listener: FFIOperationOutcomeListener,
    ) -> Result<(), FFINetworkingError> {
        self.held.lock().unwrap().push((request, listener));
        Ok(())
    }
}

#[test]
fn concurrent_dispatches_receive_own_outcomes() {
    let dispatcher = FFINetworkingDispatcher::new(HoldingExecutor { held: Mutex::new(Vec::new()) });
    let first = dispatcher.register(request("https://a", b"first")).unwrap();
    let second = dispatcher.register(request("https://b", b"second")).unwrap();
    let mut held = dispatcher.executor.held.lock().unwrap();
    // Notify in the reverse order of registration, echoing each body.
    while let Some((req, mut listener)) = held.pop() {
        let outcome = FFINetworkingOutcome::Success { value: resp(200, &req.body) };
        assert_eq!(listener.notify_outcome(outcome), Ok(()));
    }
    drop(held);
    assert_eq!(response_from_received(first.blocking_recv()), Ok(resp(200, b"first")));
    assert_eq!(response_from_received(second.blocking_recv()), Ok(resp(200, b"second")));
}
