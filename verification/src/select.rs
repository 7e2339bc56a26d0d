//! Picking the song to go on with from the answer to a search.

use vstd::prelude::*;

use crate::error::SelectionError;
use crate::model::{ApiResponse, HighlightResult};

verus! {

/// The best match of a search answer: the song of its first hit, or
/// `NoResults` where it has no hit.
pub open spec fn first_hit_of(answer: ApiResponse) -> Result<HighlightResult, SelectionError> {
    if answer.response.hits@.len() > 0 {
        Ok(answer.response.hits@[0].result)
    } else {
        Err(SelectionError::NoResults)
    }
}

/// Picks the song of the first hit. An answer without hits gives
/// `NoResults` and nothing else.
pub fn first_hit(answer: ApiResponse) -> (picked: Result<HighlightResult, SelectionError>)
    ensures
        picked == first_hit_of(answer),
        picked is Ok <==> answer.response.hits@.len() > 0,
        picked is Err ==> picked == Err::<HighlightResult, SelectionError>(
            SelectionError::NoResults,
        ),
{
    let mut hits = answer.response.hits;
    if hits.len() > 0 {
        Ok(hits.swap_remove(0).result)
    } else {
        Err(SelectionError::NoResults)
    }
}

} // verus!
