//! The report page: report records and their extraction.

use vstd::prelude::*;
use crate::assignment::{AssignmentDate, AssignmentReceptibleState, AssignmentSubmitState};
use crate::date::Date;
use crate::dom::{assignment_rows_in, scan_assignment_rows};
use crate::error::ManabaError;
use crate::extract::{
    Assignment, AssignmentView, assemble_records, first_bad_row, row_ok, spec_row_error,
    spec_row_record,
};

verus! {

/// One report assignment of a course, as extracted from its report page.
#[derive(Debug, Clone, PartialEq, Eq)]
pub struct Report {
    pub title: String,
    pub submit_state: AssignmentSubmitState,
    pub receptible_state: AssignmentReceptibleState,
    pub start_date: Option<AssignmentDate>,
    pub due_date: Option<AssignmentDate>,
}

impl DeepView for Report {
    type V = AssignmentView;

    open spec fn deep_view(&self) -> AssignmentView {
        AssignmentView {
            title: self.title@,
            submit_state: self.submit_state,
            receptible_state: self.receptible_state,
            start_date: self.start_date,
            due_date: self.due_date,
        }
    }
}

impl Report {
    /// Wraps one shared assignment record as a report.
    pub fn from_record(rec: &Assignment) -> (r: Report)
        ensures
            r.deep_view() == rec.deep_view(),
    {
        Report {
            title: rec.title.clone(),
            submit_state: rec.submit_state,
            receptible_state: rec.receptible_state,
            start_date: rec.start_date,
            due_date: rec.due_date,
        }
    }
}

/// Extracts the report list of one report page, as of `today`: one record
/// per table row in page order where every row satisfies the schema, and
/// the first offending row's error otherwise.
pub fn extract_reports(html: &str, today: &Date) -> (r: Result<Vec<Report>, ManabaError>)
    requires
        today.well_formed(),
    ensures
        r is Ok <==> (forall|j: int|
            0 <= j < assignment_rows_in(html@).len() ==> row_ok(assignment_rows_in(html@)[j])),
        r matches Ok(v) ==> v.deep_view().len() == assignment_rows_in(html@).len() && (forall|
            j: int,
        |
            0 <= j < assignment_rows_in(html@).len() ==> v.deep_view()[j] == spec_row_record(
                assignment_rows_in(html@)[j],
                *today,
            )),
        r matches Err(e) ==> exists|j: int|
            first_bad_row(assignment_rows_in(html@), j) && e@ == spec_row_error(
                assignment_rows_in(html@)[j],
                j,
            ),
{
    let rows = scan_assignment_rows(html);
    let recs = match assemble_records(&rows, today) {
        Ok(v) => v,
        Err(e) => {
            return Err(e);
        },
    };
    let mut out: Vec<Report> = Vec::new();
    let n = recs.len();
    for i in 0..n
        invariant
            n == recs@.len(),
            out@.len() == i,
            forall|j: int|
                0 <= j < i ==> (#[trigger] out@[j]).deep_view() == recs@[j].deep_view(),
    {
        out.push(Report::from_record(&recs[i]));
    }
    assert(out.deep_view() =~= recs.deep_view());
    Ok(out)
}

} // verus!
