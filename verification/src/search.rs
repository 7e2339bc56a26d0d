//! The judgement of what a search request brought back.

use vstd::prelude::*;

use crate::error::SearchError;
use crate::model::ApiResponse;

verus! {

/// What came of sending a search request.
#[derive(Debug, Clone, PartialEq, Eq)]
pub enum SearchReply {
    /// The request brought no response.
    NoResponse,
    /// A response came with this status. `body` is the answer that its body
    /// holds, or `None` where the body was not read or holds none.
    Answered { status: u16, body: Option<ApiResponse> },
}

/// The statuses that report success: 200 to 299.
pub open spec fn is_success(status: u16) -> bool {
    200 <= status <= 299
}

/// The outcome of a search: the answer where a response with a successful
/// status carried one, else the one error that says what went wrong first.
pub open spec fn search_outcome_of(reply: SearchReply) -> Result<ApiResponse, SearchError> {
    match reply {
        SearchReply::NoResponse => Err(SearchError::TransportFailure),
        SearchReply::Answered { status, body } => if !is_success(status) {
            Err(SearchError::UnsuccessfulStatus(status))
        } else {
            match body {
                Some(answer) => Ok(answer),
                None => Err(SearchError::DeserializationFailure),
            }
        },
    }
}

/// Whether `status` reports success.
pub fn status_is_success(status: u16) -> (yes: bool)
    ensures
        yes == is_success(status),
{
    200 <= status && status <= 299
}

/// Judges what a search request brought back. No response is a transport
/// failure; a status outside 200 to 299 is reported with the status,
/// whatever the body; a successful response without a readable answer is a
/// deserialization failure. No failure is ever turned into an empty answer.
pub fn search_outcome(reply: SearchReply) -> (outcome: Result<ApiResponse, SearchError>)
    ensures
        outcome == search_outcome_of(reply),
        outcome is Ok <==> (reply matches SearchReply::Answered { status, body } && is_success(
            status,
        ) && body is Some),
{
    match reply {
        SearchReply::NoResponse => Err(SearchError::TransportFailure),
        SearchReply::Answered { status, body } => {
            if !status_is_success(status) {
                Err(SearchError::UnsuccessfulStatus(status))
            } else {
                match body {
                    Some(answer) => Ok(answer),
                    None => Err(SearchError::DeserializationFailure),
                }
            }
        },
    }
}

} // verus!
