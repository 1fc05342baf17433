//! Responses of the game reporting and association list components.
use vstd::prelude::*;
use crate::encode::{tag_var_int_list_empty, tag_zero, tdf_tag_var_int_list_empty, tdf_tag_zero};

verus! {

/// The default response to offline game reporting.
pub struct GameReportResponse;

impl GameReportResponse {
    /// Writes this response to `w`: empty data and zero error, final flag
    /// and IDs.
    pub fn serialize(&self, w: &mut Vec<u8>)
        ensures
            final(w)@ == old(w)@ + tdf_tag_var_int_list_empty(['D', 'A', 'T', 'A']) + tdf_tag_zero(
                ['E', 'R', 'O', 'R'],
            ) + tdf_tag_zero(['F', 'N', 'L', '\0']) + tdf_tag_zero(['G', 'H', 'I', 'D']) + tdf_tag_zero(
                ['G', 'R', 'I', 'D'],
            ),
    {
        tag_var_int_list_empty(w, ['D', 'A', 'T', 'A']);
        tag_zero(w, ['E', 'R', 'O', 'R']);
        tag_zero(w, ['F', 'N', 'L', '\0']);
        tag_zero(w, ['G', 'H', 'I', 'D']);
        tag_zero(w, ['G', 'R', 'I', 'D']);
    }
}

/// The default response to association lists.
pub struct AssocListResponse;

} // verus!
