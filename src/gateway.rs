use vstd::prelude::*;
use serde::de::DeserializeOwned;
use tokio::sync::oneshot::error::RecvError;
use crate::dispatch::response_from_received;
use crate::error::{FFIBridgeError, RustSideError, foreign_failure, local_failure};
use crate::network::{
    ClientKeys, CoinWatchExternalClient, ExternalClient, FFINetworkingOutcome, FFINetworkingRequest,
    FFINetworkingResponse, coin_watch_base_url, coin_watch_headers,
};

verus! {

#[verifier::external_type_specification]
#[verifier::external_body]
pub struct ExJsonError(serde_json::Error);

/// Relies on serde_json::from_slice: the body parsed as JSON into `U`, or the
/// parser's error.
#[verifier::external_body]
fn decode_json<U: DeserializeOwned>(bytes: &[u8]) -> (r: Result<U, serde_json::Error>) {
    serde_json::from_slice::<U>(bytes)
}

/// A status code in the success range, 200 through 299.
pub open spec fn status_accepted(code: u16) -> bool {
    200 <= code && code <= 299
}

/// What validating a response yields before its body is decoded.
pub open spec fn response_check(response: FFINetworkingResponse) -> Result<(), RustSideError> {
    if !status_accepted(response.status_code) {
        Err(RustSideError::BadResponseCode)
    } else if response.body@.len() == 0 {
        Err(RustSideError::ResponseBodyWasNil)
    } else {
        Ok(())
    }
}

/// The local failure for a body that does not decode into `target_type`.
pub open spec fn decode_failure(target_type: String) -> RustSideError {
    RustSideError::UnableJSONDeserializeHTTPResponseBodyIntoTypeName { target_type }
}

/// A status code outside the success range fails the response as a bad
/// response code, whatever its body holds.
pub proof fn lemma_bad_status_ignores_body(status_code: u16, body: Vec<u8>)
    requires
        !status_accepted(status_code),
    ensures
        response_check(FFINetworkingResponse { status_code, body }) == Err::<(), RustSideError>(
            RustSideError::BadResponseCode,
        ),
{
}

/// Checks the status code and that the body is not empty.
pub fn check_response(response: &FFINetworkingResponse) -> (r: Result<(), RustSideError>)
    ensures
        r == response_check(*response),
{
    if !(200 <= response.status_code && response.status_code <= 299) {
        return Err(RustSideError::BadResponseCode);
    }
    if response.body.len() == 0 {
        return Err(RustSideError::ResponseBodyWasNil);
    }
    Ok(())
}

/// Classifies the decoder's result: a decoded value is kept, a decoder
/// error becomes the failure that names `target_type`.
pub fn decoded_model<U>(decoded: Result<U, serde_json::Error>, target_type: String) -> (r: Result<
    U,
    RustSideError,
>)
    ensures
        match decoded {
            Ok(u) => r == Ok::<U, RustSideError>(u),
            Err(_) => r == Err::<U, RustSideError>(decode_failure(target_type)),
        },
{
    match decoded {
        Ok(u) => Ok(u),
        Err(_) => Err(RustSideError::UnableJSONDeserializeHTTPResponseBodyIntoTypeName { target_type }),
    }
}

/// Validates `response` and decodes its body as JSON into `U`, which is
/// named `target_type` in a decode failure.
pub fn model_from_response<U: DeserializeOwned>(
    response: FFINetworkingResponse,
    target_type: String,
) -> (r: Result<U, RustSideError>)
    ensures
        response_check(response) matches Err(e) ==> r == Err::<U, RustSideError>(e),
        response_check(response) is Ok ==> (r is Ok || r == Err::<U, RustSideError>(
            decode_failure(target_type),
        )),
{
    match check_response(&response) {
        Err(e) => Err(e),
        Ok(()) => decoded_model(decode_json::<U>(response.body.as_slice()), target_type),
    }
}

/// The identity mapping, for operations whose decoded value is already the
/// domain value.
pub fn res_id<T>(x: T) -> (r: Result<T, FFIBridgeError>)
    ensures
        r == Ok::<T, FFIBridgeError>(x),
{
    Ok(x)
}

/// Completes an operation from its response: validates and decodes the body
/// into `U`, then maps the decoded value with `map`. Every failure before the
/// mapping is a local one.
pub fn complete_request<U: DeserializeOwned, V, F: Fn(U) -> Result<V, FFIBridgeError>>(
    response: FFINetworkingResponse,
    target_type: String,
    map: F,
) -> (r: Result<V, FFIBridgeError>)
    requires
        forall|u: U| call_requires(map, (u,)),
    ensures
        response_check(response) matches Err(e) ==> r == Err::<V, FFIBridgeError>(local_failure(e)),
        response_check(response) is Ok ==> (r == Err::<V, FFIBridgeError>(
            local_failure(decode_failure(target_type)),
        ) || exists|u: U| call_ensures(map, (u,), r)),
{
    match model_from_response::<U>(response, target_type) {
        Err(e) => Err(FFIBridgeError::from(e)),
        Ok(model) => map(model),
    }
}

/// Completes an operation from what the receiving end of its listener
/// produced: a foreign failure or a missing outcome fails the operation, and
/// a response is completed as `complete_request` does. Nothing partial is
/// returned.
pub fn complete_received<U: DeserializeOwned, V, F: Fn(U) -> Result<V, FFIBridgeError>>(
    received: Result<FFINetworkingOutcome, RecvError>,
    target_type: String,
    map: F,
) -> (r: Result<V, FFIBridgeError>)
    requires
        forall|u: U| call_requires(map, (u,)),
    ensures
        match received {
            Ok(FFINetworkingOutcome::Success { value }) => {
                &&& response_check(value) matches Err(e) ==> r == Err::<V, FFIBridgeError>(
                    local_failure(e),
                )
                &&& response_check(value) is Ok ==> (r == Err::<V, FFIBridgeError>(
                    local_failure(decode_failure(target_type)),
                ) || exists|u: U| call_ensures(map, (u,), r))
            },
            Ok(FFINetworkingOutcome::Failure { error }) => r == Err::<V, FFIBridgeError>(
                foreign_failure(error),
            ),
            Err(_) => r == Err::<V, FFIBridgeError>(
                local_failure(RustSideError::FailedToReceiveResponseFromSwift),
            ),
        },
{
    match response_from_received(received) {
        Err(e) => Err(e),
        Ok(response) => complete_request::<U, V, F>(response, target_type, map),
    }
}

/// Completes an operation whose body was already decoded into `decoded`:
/// what `complete_request` does, for each result of the decoder.
pub fn complete_decoded<U, V, F: Fn(U) -> Result<V, FFIBridgeError>>(
    response: &FFINetworkingResponse,
    decoded: Result<U, serde_json::Error>,
    target_type: String,
    map: F,
) -> (r: Result<V, FFIBridgeError>)
    requires
        forall|u: U| call_requires(map, (u,)),
    ensures
        response_check(*response) matches Err(e) ==> r == Err::<V, FFIBridgeError>(local_failure(e)),
        response_check(*response) is Ok ==> match decoded {
            Ok(u) => call_ensures(map, (u,), r),
            Err(_) => r == Err::<V, FFIBridgeError>(local_failure(decode_failure(target_type))),
        },
{
    match check_response(response) {
        Err(e) => Err(FFIBridgeError::from(e)),
        Ok(()) => match decoded_model(decoded, target_type) {
            Err(e) => Err(FFIBridgeError::from(e)),
            Ok(model) => map(model),
        },
    }
}

/// The request that the gateway hands to the dispatcher: `path` appended to
/// the provider's base URL, the provider's header fields, and `body`.
pub fn build_request<C: ExternalClient>(client: &C, path: &str, method: &str, body: Vec<u8>) -> (r:
    FFINetworkingRequest)
    ensures
        r.url@ == client.base_url_spec() + path@,
        r.method@ == method@,
        r.headers.wf(),
        r.headers@ == client.headers_spec(),
        r.body == body,
{
    let mut url = client.get_base_url();
    url.append(path);
    FFINetworkingRequest {
        url,
        method: String::from_str(method),
        headers: client.get_headers(),
        body,
    }
}

/// A POST request to `path` of the provider, carrying `body`.
pub fn post_request<C: ExternalClient>(client: &C, path: &str, body: Vec<u8>) -> (r:
    FFINetworkingRequest)
    ensures
        r.url@ == client.base_url_spec() + path@,
        r.method@ == "POST"@,
        r.headers.wf(),
        r.headers@ == client.headers_spec(),
        r.body == body,
{
    build_request(client, path, "POST", body)
}

/// The domain operations that the gateway offers on Live Coin Watch.
#[derive(Debug, PartialEq, Eq, Clone, Copy)]
pub enum CoinWatchOperation {
    ListOfCoins,
    CoinMeta,
    CoinHistory,
}

impl CoinWatchOperation {
    /// The path of the operation, relative to the base URL.
    pub open spec fn path_spec(self) -> Seq<char> {
        match self {
            CoinWatchOperation::ListOfCoins => "/coins/list"@,
            CoinWatchOperation::CoinMeta => "/coins/single"@,
            CoinWatchOperation::CoinHistory => "/coins/single/history"@,
        }
    }

    pub fn path(self) -> (r: &'static str)
        ensures
            r@ == self.path_spec(),
    {
        match self {
            CoinWatchOperation::ListOfCoins => "/coins/list",
            CoinWatchOperation::CoinMeta => "/coins/single",
            CoinWatchOperation::CoinHistory => "/coins/single/history",
        }
    }
}

/// The request for `operation`, with the JSON `body`, made with the Live
/// Coin Watch key of `keys`.
pub fn coin_watch_request(keys: &ClientKeys, operation: CoinWatchOperation, body: Vec<u8>) -> (r:
    FFINetworkingRequest)
    ensures
        r.url@ == coin_watch_base_url() + operation.path_spec(),
        r.method@ == "POST"@,
        r.headers.wf(),
        r.headers@ == coin_watch_headers(keys.coin_watch@),
        r.body == body,
{
    let client = CoinWatchExternalClient::new(keys.coin_watch.clone());
    post_request(&client, operation.path(), body)
}

} // verus!
