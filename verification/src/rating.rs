//! Rules of the contest-rating source: how one wire row becomes a
//! `ContestResult`, how a history collapses to the current rating, and how a
//! response of the source is classified.

use vstd::prelude::*;
use crate::entity::ContestResult;

verus! {

/// One history row as the rating source reports it, before the derived
/// `diff` field is computed. The transport layer fills this from the wire.
#[derive(Debug, Clone, PartialEq, Eq)]
pub struct ContestRow {
    pub is_rated: bool,
    pub place: i32,
    pub old_rating: i32,
    pub new_rating: i32,
    pub performance: i32,
    pub contest_screen_name: String,
    pub contest_name: String,
    pub end_time: String,
}

/// The rating difference a row carries: new rating minus old rating.
pub open spec fn row_diff(row: ContestRow) -> int {
    row.new_rating - row.old_rating
}

/// Whether the rating difference of `row` is representable as an `i32`.
pub open spec fn row_diff_fits(row: ContestRow) -> bool {
    i32::MIN <= row_diff(row) <= i32::MAX
}

/// The history entry a wire row denotes: every reported field kept, and
/// `diff` derived as new rating minus old rating.
pub open spec fn result_of_row(row: ContestRow) -> ContestResult {
    ContestResult {
        is_rated: row.is_rated,
        place: row.place,
        old_rating: row.old_rating,
        new_rating: row.new_rating,
        diff: row_diff(row) as i32,
        performance: row.performance,
        contest_screen_name: row.contest_screen_name,
        contest_name: row.contest_name,
        end_time: row.end_time,
    }
}

/// Builds the history entry for one wire row.
pub fn contest_result_from_row(row: ContestRow) -> (r: ContestResult)
    requires
        row_diff_fits(row),
    ensures
        r == result_of_row(row),
{
    let diff = row.new_rating - row.old_rating;
    ContestResult {
        is_rated: row.is_rated,
        place: row.place,
        old_rating: row.old_rating,
        new_rating: row.new_rating,
        diff,
        performance: row.performance,
        contest_screen_name: row.contest_screen_name,
        contest_name: row.contest_name,
        end_time: row.end_time,
    }
}

/// Builds the history entries for a whole response, keeping the source
/// order.
pub fn contest_results_from_rows(rows: Vec<ContestRow>) -> (r: Vec<ContestResult>)
    requires
        forall|i: int| 0 <= i < rows@.len() ==> row_diff_fits(#[trigger] rows@[i]),
    ensures
        r@.len() == rows@.len(),
        forall|i: int| 0 <= i < rows@.len() ==> r@[i] == result_of_row(#[trigger] rows@[i]),
{
    let mut out: Vec<ContestResult> = Vec::new();
    let mut idx: usize = 0;
    while idx < rows.len()
        invariant
            idx <= rows@.len(),
            forall|i: int| 0 <= i < rows@.len() ==> row_diff_fits(#[trigger] rows@[i]),
            out@.len() == idx,
            forall|i: int| 0 <= i < idx ==> out@[i] == result_of_row(#[trigger] rows@[i]),
        decreases rows@.len() - idx,
    {
        let row = clone_row(&rows[idx]);
        out.push(contest_result_from_row(row));
        idx = idx + 1;
    }
    out
}

/// Copies one wire row field by field.
fn clone_row(row: &ContestRow) -> (r: ContestRow)
    ensures
        r == *row,
{
    ContestRow {
        is_rated: row.is_rated,
        place: row.place,
        old_rating: row.old_rating,
        new_rating: row.new_rating,
        performance: row.performance,
        contest_screen_name: row.contest_screen_name.clone(),
        contest_name: row.contest_name.clone(),
        end_time: row.end_time.clone(),
    }
}

/// The rating a history denotes: the `new_rating` of its last entry, or `0`
/// for an empty history. A linked account therefore never has an absent or
/// negative default.
pub open spec fn latest_rating_spec(history: Seq<ContestResult>) -> i32 {
    if history.len() == 0 {
        0i32
    } else {
        history.last().new_rating
    }
}

/// Current rating of one category history.
pub fn latest_rating(history: &Vec<ContestResult>) -> (r: i32)
    ensures
        r == latest_rating_spec(history@),
{
    if history.len() == 0 {
        0
    } else {
        history[history.len() - 1].new_rating
    }
}

/// How the rating source answered one (account, category) request.
#[derive(Debug, Clone, PartialEq, Eq)]
pub enum RatingResponseKind {
    /// A non-success status: fatal to the whole run.
    UnexpectedStatus,
    /// Success without the expected compressed-transfer marker: the history
    /// degrades to an empty sequence, observable but not an error.
    MissingCompression,
    /// Success with the marker: the body holds the compressed history.
    Compressed,
}

/// Classifies one rating-source response from its success status and its
/// compressed-transfer marker.
pub fn classify_rating_response(status_ok: bool, gzip_marker: bool) -> (r: RatingResponseKind)
    ensures
        (r is UnexpectedStatus) <==> !status_ok,
        (r is MissingCompression) <==> (status_ok && !gzip_marker),
        (r is Compressed) <==> (status_ok && gzip_marker),
{
    if !status_ok {
        RatingResponseKind::UnexpectedStatus
    } else if !gzip_marker {
        RatingResponseKind::MissingCompression
    } else {
        RatingResponseKind::Compressed
    }
}

} // verus!
