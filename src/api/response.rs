//! The status-tagged envelope that many REST endpoints wrap their results
//! in.

use vstd::prelude::*;

verus! {

/// A response error as reported by the service: the status it reported.
#[derive(Clone, Debug, PartialEq, Eq)]
pub struct ResponseError(pub String);

/// The prefix of the description of a `ResponseError`.
pub open spec fn response_error_prefix() -> Seq<char> {
    "response did not indicate success: "@
}

impl ResponseError {
    /// A human readable description of this error.
    pub fn to_string(&self) -> (r: String)
        ensures
            r@ == response_error_prefix() + self.0@,
    {
        let prefix = String::from_str("response did not indicate success: ");
        prefix.concat(self.0.as_str())
    }
}

/// The response as returned by various endpoints.
#[derive(Clone, Debug, PartialEq)]
pub enum Response<T> {
    /// The request was successful and all results were retrieved.
    Complete(T),
    /// The response contains data that was delayed and does not contain
    /// the most recent data points.
    Delayed(T),
    /// An error occurred or an unexpected status was reported; the status
    /// is kept.
    Failed(String),
}

/// The status that marks a complete result.
pub open spec fn status_ok() -> Seq<char> {
    "OK"@
}

/// The status that marks a delayed result.
pub open spec fn status_delayed() -> Seq<char> {
    "DELAYED"@
}

impl<T> Response<T> {
    /// The envelope variant for the reported `status`: `OK` and `DELAYED`
    /// carry `results`; any other status is an error that keeps it.
    pub fn from_status(status: String, results: T) -> (r: Response<T>)
        ensures
            status@ == status_ok() ==> r == Response::Complete(results),
            status@ == status_delayed() ==> r == Response::Delayed(results),
            status@ != status_ok() && status@ != status_delayed() ==> r == Response::<T>::Failed(
                status,
            ),
    {
        proof {
            reveal_strlit("OK");
            reveal_strlit("DELAYED");
            assert(status_ok().len() != status_delayed().len());
        }
        if crate::text::same_text(status.as_str(), "OK") {
            Response::Complete(results)
        } else if crate::text::same_text(status.as_str(), "DELAYED") {
            Response::Delayed(results)
        } else {
            Response::Failed(status)
        }
    }

    /// Convert a `Response` into a `Result`.
    ///
    /// Both `Complete` and `Delayed` variants are treated as success; an error
    /// carries the status that was reported.
    pub fn into_result(self) -> (r: Result<T, ResponseError>)
        ensures
            r == into_result_of(self),
    {
        match self {
            Response::Complete(data) => Ok(data),
            Response::Delayed(data) => Ok(data),
            Response::Failed(status) => Err(ResponseError(status)),
        }
    }
}

/// What `into_result` gives for a response.
pub open spec fn into_result_of<T>(r: Response<T>) -> Result<T, ResponseError> {
    match r {
        Response::Complete(data) => Ok(data),
        Response::Delayed(data) => Ok(data),
        Response::Failed(status) => Err(ResponseError(status)),
    }
}

/// An envelope built from a status and results and then turned into a
/// `Result` gives the results where the status is `OK` or `DELAYED`, and
/// otherwise an error whose message is the status.
pub proof fn lemma_envelope_result<T>(status: String, results: T, r: Response<T>)
    requires
        status@ == status_ok() ==> r == Response::Complete(results),
        status@ == status_delayed() ==> r == Response::Delayed(results),
        status@ != status_ok() && status@ != status_delayed() ==> r == Response::<T>::Failed(status),
    ensures
        (status@ == status_ok() || status@ == status_delayed()) ==> into_result_of(r) == Ok::<
            T,
            ResponseError,
        >(results),
        !(status@ == status_ok() || status@ == status_delayed()) ==> (into_result_of(r) matches Err(
            e,
        ) && e.0@ == status@),
{
}

} // verus!
