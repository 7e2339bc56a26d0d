//! The ways in which a retrieval can fail, one type for each stage.

use vstd::prelude::*;

verus! {

/// Why a search gave no answer that could be used.
#[derive(Debug, Clone, Copy, PartialEq, Eq, Structural)]
pub enum SearchError {
    /// No response came back from the service.
    TransportFailure,
    /// The service answered with a status outside the successful range; the
    /// status is kept.
    UnsuccessfulStatus(u16),
    /// The body of the answer was not a search answer.
    DeserializationFailure,
}

/// Why no song could be picked from a search answer.
#[derive(Debug, Clone, Copy, PartialEq, Eq, Structural)]
pub enum SelectionError {
    /// The search went through and found nothing.
    NoResults,
}

/// Why a lyrics page could not be had.
#[derive(Debug, Clone, Copy, PartialEq, Eq, Structural)]
pub enum FetchError {
    /// The request failed, or what came back was no text.
    FetchFailure,
}

/// Why a retrieval failed, and at which stage.
#[derive(Debug, Clone, Copy, PartialEq, Eq, Structural)]
pub enum PipelineError {
    Search(SearchError),
    Selection(SelectionError),
    Fetch(FetchError),
}

} // verus!
