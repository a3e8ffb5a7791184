//! What the service's answers mean: the status decides between success and
//! an error of the service, and only a successful answer is decoded.

use vstd::prelude::*;

verus! {

#[verifier::external_type_specification]
#[verifier::external_body]
pub struct ExValue(serde_json::Value);

/// Why an answer of the service gives no value.
#[derive(PartialEq, Eq, Clone, Debug)]
pub enum ResponseError {
    /// The collection or document does not exist; the service's error
    /// body, as it came.
    NotFound { content: Vec<u8> },
    /// Any other status outside the 2xx range, with the service's error
    /// body as it came.
    Api { status: u16, content: Vec<u8> },
    /// A successful answer whose body is not of the expected shape.
    Deserialize,
}

/// The successful statuses: those of the 2xx range.
pub open spec fn is_success(status: u16) -> bool {
    200 <= status <= 299
}

/// The error that an answer with that status and body stands for, if it is
/// one.
pub open spec fn status_error(status: u16, content: Vec<u8>) -> Option<ResponseError> {
    if is_success(status) {
        None
    } else if status == 404 {
        Some(ResponseError::NotFound { content })
    } else {
        Some(ResponseError::Api { status, content })
    }
}

/// The outcome of an answer with that status and body, whose body decoded
/// to `decoded` (`None` where it did not decode).
pub open spec fn outcome<D>(status: u16, content: Vec<u8>, decoded: Option<D>) -> Result<
    D,
    ResponseError,
> {
    match status_error(status, content) {
        Some(e) => Err(e),
        None => match decoded {
            Some(d) => Ok(d),
            None => Err(ResponseError::Deserialize),
        },
    }
}

/// Whether a status is in the 2xx range.
pub fn is_success_status(status: u16) -> (r: bool)
    ensures
        r == is_success(status),
{
    200 <= status && status <= 299
}

/// The error that an answer with that status and body stands for, if it is
/// one.
pub fn response_error(status: u16, content: Vec<u8>) -> (r: Option<ResponseError>)
    ensures
        r == status_error(status, content),
{
    if is_success_status(status) {
        None
    } else if status == 404 {
        Some(ResponseError::NotFound { content })
    } else {
        Some(ResponseError::Api { status, content })
    }
}

/// The outcome of an answer: an error status wins over whatever the body
/// decoded to, so a missing document is `NotFound` and never `Deserialize`.
pub fn decoded_outcome<D>(status: u16, content: Vec<u8>, decoded: Option<D>) -> (r: Result<
    D,
    ResponseError,
>)
    ensures
        r == outcome(status, content, decoded),
{
    if is_success_status(status) {
        match decoded {
            Some(d) => Ok(d),
            None => Err(ResponseError::Deserialize),
        }
    } else if status == 404 {
        Err(ResponseError::NotFound { content })
    } else {
        Err(ResponseError::Api { status, content })
    }
}

/// The `num_deleted` member of a JSON body, where the body is a JSON object
/// and that member an unsigned integer that fits in a `u64`.
pub uninterp spec fn num_deleted_in(body: Seq<u8>) -> Option<u64>;

/// Relies on serde_json::from_slice, Value::get and Value::as_u64: the body
/// parsed as JSON, its `num_deleted` member, read as a `u64`. The result
/// depends on the bytes alone.
#[verifier::external_body]
fn num_deleted_of(body: &[u8]) -> (r: Option<u64>)
    ensures
        r == num_deleted_in(body@),
{
    match serde_json::from_slice::<serde_json::Value>(body) {
        Ok(v) => v.get("num_deleted").and_then(serde_json::Value::as_u64),
        Err(_) => None,
    }
}

/// The number of documents that a delete by filter removed, read from the
/// answer's status and body. A status outside the 2xx range gives its
/// error; a successful answer gives the count, or `Deserialize` where the
/// body holds none.
pub fn delete_by_filter_outcome(status: u16, body: Vec<u8>) -> (r: Result<u64, ResponseError>)
    ensures
        r == outcome(status, body, num_deleted_in(body@)),
{
    let count = num_deleted_of(body.as_slice());
    decoded_outcome(status, body, count)
}

/// The answer of the operations endpoints.
#[derive(PartialEq, Eq, Clone, Copy, Debug, Structural)]
pub struct SuccessStatus {
    pub success: bool,
}

/// The body of an error answer to a snapshot request.
#[derive(Debug)]
pub enum TakeSnapshotError {
    UnknownValue(serde_json::Value),
}

/// The body of an error answer to a vote request.
#[derive(Debug)]
pub enum VoteError {
    UnknownValue(serde_json::Value),
}

} // verus!
