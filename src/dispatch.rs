use vstd::prelude::*;
use tokio::sync::oneshot::{Receiver, Sender};
use tokio::sync::oneshot::error::RecvError;
use crate::error::{FFIBridgeError, FFINetworkingError, RustSideError, foreign_failure, local_failure};
use crate::network::{FFINetworkingOutcome, FFINetworkingRequest, FFINetworkingResponse};

verus! {

#[verifier::external_type_specification]
#[verifier::external_body]
#[verifier::reject_recursive_types(T)]
pub struct ExSender<T>(Sender<T>);

#[verifier::external_type_specification]
#[verifier::external_body]
#[verifier::reject_recursive_types(T)]
pub struct ExReceiver<T>(Receiver<T>);

#[verifier::external_type_specification]
#[verifier::external_body]
pub struct ExRecvError(RecvError);

/// Relies on tokio::sync::oneshot::channel: a new channel's two ends.
pub assume_specification<T>[ tokio::sync::oneshot::channel::<T> ]() -> (Sender<T>, Receiver<T>);

/// Relies on tokio::sync::oneshot::Sender::send: a value that could not be
/// sent is handed back.
pub assume_specification<T>[ Sender::<T>::send ](sender: Sender<T>, t: T) -> (r: Result<(), T>)
    ensures
        r matches Err(v) ==> v == t,
;

/// The single-use completion slot of one in-flight operation. The foreign
/// side notifies it once with the operation's outcome.
pub struct FFIOperationOutcomeListener {
    sender: Option<Sender<FFINetworkingOutcome>>,
}

/// What notifying a listener returns, given whether it was still pending and
/// whether the awaiting side was still there to receive the outcome.
pub open spec fn notification_result(was_pending: bool, received: bool) -> Result<(), RustSideError> {
    if !was_pending {
        Err(RustSideError::OutcomeListenerNotifiedTwice)
    } else if received {
        Ok(())
    } else {
        Err(RustSideError::FailedToPropagateResultFromFFIOperationBackToDispatcher)
    }
}

impl FFIOperationOutcomeListener {
    /// The listener still holds its completion handle: no outcome has been
    /// delivered through it.
    pub closed spec fn pending(&self) -> bool {
        self.sender is Some
    }

    /// A listener that delivers through `sender`.
    pub fn new(sender: Sender<FFINetworkingOutcome>) -> (r: Self)
        ensures
            r.pending(),
    {
        FFIOperationOutcomeListener { sender: Some(sender) }
    }

    /// Whether no outcome has been delivered yet.
    pub fn is_pending(&self) -> (r: bool)
        ensures
            r == self.pending(),
    {
        self.sender.is_some()
    }

    /// Delivers `result` to the awaiting side, on the first call only. The
    /// handle is consumed by that call; a later call delivers nothing and
    /// reports the broken single-delivery promise.
    pub fn notify_outcome(&mut self, result: FFINetworkingOutcome) -> (r: Result<(), RustSideError>)
        ensures
            !final(self).pending(),
            r == notification_result(old(self).pending(), r is Ok),
            !old(self).pending() ==> r == Err::<(), RustSideError>(
                RustSideError::OutcomeListenerNotifiedTwice,
            ),
    {
        match self.sender.take() {
            None => Err(RustSideError::OutcomeListenerNotifiedTwice),
            Some(sender) => match sender.send(result) {
                Ok(()) => Ok(()),
                Err(_) => Err(RustSideError::FailedToPropagateResultFromFFIOperationBackToDispatcher),
            },
        }
    }
}

/// A fresh listener and the receiving end that awaits its outcome.
pub fn new_operation() -> (r: (FFIOperationOutcomeListener, Receiver<FFINetworkingOutcome>))
    ensures
        r.0.pending(),
{
    let (sender, receiver) = tokio::sync::oneshot::channel();
    (FFIOperationOutcomeListener::new(sender), receiver)
}

/// The foreign capability that performs network operations. `execute` only
/// accepts or rejects the attempt to start one; the outcome arrives later,
/// once, through `listener`.
pub trait FFINetworkingExecutor {
    fn execute_networking_request(
        &self,
        request: FFINetworkingRequest,
        listener: FFIOperationOutcomeListener,
    ) -> Result<(), FFINetworkingError>;
}

/// The dispatcher's answer once the executor has accepted or rejected the
/// registration of an operation: a rejection fails at once.
pub open spec fn registration_spec(accepted: Result<(), FFINetworkingError>) -> Result<(), FFIBridgeError> {
    match accepted {
        Ok(()) => Ok(()),
        Err(e) => Err(foreign_failure(e)),
    }
}

/// The dispatcher's answer for what the receiving end produced: the outcome,
/// or nothing when the listener was dropped without delivering.
pub open spec fn dispatch_spec(received: Option<FFINetworkingOutcome>) -> Result<FFINetworkingResponse, FFIBridgeError> {
    match received {
        Some(FFINetworkingOutcome::Success { value }) => Ok(value),
        Some(FFINetworkingOutcome::Failure { error }) => Err(foreign_failure(error)),
        None => Err(local_failure(RustSideError::FailedToReceiveResponseFromSwift)),
    }
}

/// Classifies the executor's answer to a registration.
pub fn registration_result(accepted: Result<(), FFINetworkingError>) -> (r: Result<(), FFIBridgeError>)
    ensures
        r == registration_spec(accepted),
{
    match accepted {
        Ok(()) => Ok(()),
        Err(e) => Err(FFIBridgeError::from(e)),
    }
}

/// Turns what the receiving end produced into the dispatcher's result.
pub fn response_from_received(received: Result<FFINetworkingOutcome, RecvError>) -> (r: Result<
    FFINetworkingResponse,
    FFIBridgeError,
>)
    ensures
        r == dispatch_spec(
            match received {
                Ok(o) => Some(o),
                Err(_) => None,
            },
        ),
{
    match received {
        Ok(FFINetworkingOutcome::Success { value }) => Ok(value),
        Ok(FFINetworkingOutcome::Failure { error }) => Err(FFIBridgeError::from(error)),
        Err(_) => Err(FFIBridgeError::FromRust { error: RustSideError::FailedToReceiveResponseFromSwift }),
    }
}

/// A listener delivers at most once. The first notification of a pending
/// listener is a delivery or a failed delivery, never the violation; any
/// notification of a listener that is no longer pending (as every listener is
/// after its first notification) is the single-delivery violation and
/// delivers nothing.
pub proof fn lemma_second_notification_rejected(first_received: bool, second_received: bool)
    ensures
        notification_result(true, first_received) != Err::<(), RustSideError>(
            RustSideError::OutcomeListenerNotifiedTwice,
        ),
        notification_result(false, second_received) == Err::<(), RustSideError>(
            RustSideError::OutcomeListenerNotifiedTwice,
        ),
        !(notification_result(false, second_received) is Ok),
{
}

/// A dispatch resolves to exactly one result: the delivered response when
/// the foreign side reported success, and otherwise a bridge error (the
/// foreign failure itself, or the local failure to receive any outcome).
pub proof fn lemma_dispatch_resolves_once(received: Option<FFINetworkingOutcome>)
    ensures
        dispatch_spec(received) is Ok <==> received matches Some(FFINetworkingOutcome::Success { .. }),
        dispatch_spec(received) matches Ok(v) ==> received == Some(
            FFINetworkingOutcome::Success { value: v },
        ),
        received matches Some(FFINetworkingOutcome::Failure { error }) ==> dispatch_spec(received)
            == Err::<FFINetworkingResponse, FFIBridgeError>(foreign_failure(error)),
        received is None ==> dispatch_spec(received) == Err::<FFINetworkingResponse, FFIBridgeError>(
            local_failure(RustSideError::FailedToReceiveResponseFromSwift),
        ),
{
}

/// A registration that the executor rejects fails at once with the foreign
/// failure, whatever outcome might have followed: nothing is awaited.
pub proof fn lemma_rejection_fails_fast(error: FFINetworkingError)
    ensures
        registration_spec(Err(error)) == Err::<(), FFIBridgeError>(foreign_failure(error)),
{
}

/// Hands requests to a shared executor, one fresh listener per request.
pub struct FFINetworkingDispatcher<E> {
    pub executor: E,
}

impl<E: FFINetworkingExecutor> FFINetworkingDispatcher<E> {
    /// A dispatcher over `executor`.
    pub fn new(executor: E) -> (r: Self)
        ensures
            r.executor == executor,
    {
        FFINetworkingDispatcher { executor }
    }

    /// Registers `request` with the executor under a new listener. On
    /// acceptance the result is the end that awaits the outcome; a rejection
    /// is a foreign failure, and nothing is left to await.
    pub fn register(&self, request: FFINetworkingRequest) -> (r: Result<
        Receiver<FFINetworkingOutcome>,
        FFIBridgeError,
    >)
        ensures
            r matches Err(e) ==> exists|f: FFINetworkingError| e == foreign_failure(f),
    {
        let (listener, receiver) = new_operation();
        let accepted = self.executor.execute_networking_request(request, listener);
        match registration_result(accepted) {
            Ok(()) => Ok(receiver),
            Err(e) => Err(e),
        }
    }
}

} // verus!
