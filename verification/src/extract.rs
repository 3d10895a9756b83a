//! The extraction core shared by the report and exam pages: the fixed
//! column schema, the state classifier, and the row-to-record assembly.
//!
//! Reports and exams come from different pages but share the same row
//! layout, so one routine handles both; the page-specific modules wrap its
//! records.

use vstd::prelude::*;
use crate::assignment::{
    AssignmentDate, AssignmentReceptibleState, AssignmentSubmitState, assignment_date_of,
};
use crate::date::{Date, valid_datetime_text};
use crate::dom::{CellFragment, CellView, RowFragments};
use crate::error::{ErrorView, ManabaError};
use crate::text::str_eq;

verus! {

/// The column count the assignment-page schema requires: title, combined
/// state, start date, due date.
pub const REQUIRED_COLUMNS: usize = 4;

/// The locale marker phrase a state cell shows while submissions are
/// accepted.
pub open spec fn reception_open_marker() -> Seq<char> {
    "受付中"@
}

/// The locale marker phrase a state cell shows once the window has closed.
pub open spec fn reception_closed_marker() -> Seq<char> {
    "受付終了"@
}

/// The locale marker phrase of the nested element that flags an assignment
/// as not yet submitted.
pub open spec fn todo_marker() -> Seq<char> {
    "未提出"@
}

/// The reception state a state cell's plain text denotes: one of the two
/// marker phrases, or the conservative default `NotStarted` for anything
/// else, an empty or missing text included.
pub open spec fn spec_receptible(state_text: Option<Seq<char>>) -> AssignmentReceptibleState {
    match state_text {
        Option::Some(t) => {
            if t == reception_open_marker() {
                AssignmentReceptibleState::Open
            } else if t == reception_closed_marker() {
                AssignmentReceptibleState::Closed
            } else {
                AssignmentReceptibleState::NotStarted
            }
        },
        Option::None => AssignmentReceptibleState::NotStarted,
    }
}

/// The submission state the nested marker element denotes: present with the
/// not-yet-submitted phrase means `Todo`; anything else means `Done`.
pub open spec fn spec_submit(marker: Option<Seq<char>>) -> AssignmentSubmitState {
    match marker {
        Option::Some(m) => {
            if m == todo_marker() {
                AssignmentSubmitState::Todo
            } else {
                AssignmentSubmitState::Done
            }
        },
        Option::None => AssignmentSubmitState::Done,
    }
}

/// Classifies the combined state cell. The reception state comes from the
/// cell's plain text and the submission state from its nested marker
/// element; the two readings are independent and neither short-circuits the
/// other, so a closed window with a pending submission classifies as
/// `(Closed, Todo)`. Unrecognised text is not an error: it classifies as
/// the conservative `(NotStarted, Done)`.
pub fn classify_state(state_text: &Option<String>, marker: &Option<String>) -> (r: (
    AssignmentReceptibleState,
    AssignmentSubmitState,
))
    ensures
        r.0 == spec_receptible(state_text.deep_view()),
        r.1 == spec_submit(marker.deep_view()),
{
    let receptible = match state_text {
        Some(t) => {
            if str_eq(t.as_str(), "受付中") {
                AssignmentReceptibleState::Open
            } else if str_eq(t.as_str(), "受付終了") {
                AssignmentReceptibleState::Closed
            } else {
                AssignmentReceptibleState::NotStarted
            }
        },
        None => AssignmentReceptibleState::NotStarted,
    };
    let submit = match marker {
        Some(m) => {
            if str_eq(m.as_str(), "未提出") {
                AssignmentSubmitState::Todo
            } else {
                AssignmentSubmitState::Done
            }
        },
        None => AssignmentSubmitState::Done,
    };
    (receptible, submit)
}

/// One extracted assignment row. Reports and exams share this shape; the
/// page-specific record types wrap it.
#[derive(Debug, Clone, PartialEq, Eq)]
pub struct Assignment {
    pub title: String,
    pub submit_state: AssignmentSubmitState,
    pub receptible_state: AssignmentReceptibleState,
    pub start_date: Option<AssignmentDate>,
    pub due_date: Option<AssignmentDate>,
}

/// Spec-level shape of an extracted assignment record.
pub struct AssignmentView {
    pub title: Seq<char>,
    pub submit_state: AssignmentSubmitState,
    pub receptible_state: AssignmentReceptibleState,
    pub start_date: Option<AssignmentDate>,
    pub due_date: Option<AssignmentDate>,
}

impl DeepView for Assignment {
    type V = AssignmentView;

    open spec fn deep_view(&self) -> AssignmentView {
        AssignmentView {
            title: self.title@,
            submit_state: self.submit_state,
            receptible_state: self.receptible_state,
            start_date: self.start_date,
            due_date: self.due_date,
        }
    }
}

/// Whether a date cell is acceptable: empty (no such date) or a well-formed
/// date-time text.
pub open spec fn date_cell_ok(raw: Seq<char>) -> bool {
    raw.len() == 0 || valid_datetime_text(raw)
}

/// The optional date an acceptable date cell denotes, as of `today`.
pub open spec fn spec_opt_date(raw: Seq<char>, today: Date) -> Option<AssignmentDate> {
    if raw.len() == 0 {
        Option::None
    } else {
        Option::Some(assignment_date_of(raw, today))
    }
}

/// Whether one row satisfies the schema: enough columns, a title anchor,
/// and acceptable date cells.
pub open spec fn row_ok(cells: Seq<CellView>) -> bool {
    &&& cells.len() >= REQUIRED_COLUMNS
    &&& cells[0].anchor is Some
    &&& date_cell_ok(cells[2].raw)
    &&& date_cell_ok(cells[3].raw)
}

/// The record a well-formed row denotes, as of `today`.
pub open spec fn spec_row_record(cells: Seq<CellView>, today: Date) -> AssignmentView {
    AssignmentView {
        title: cells[0].anchor.unwrap(),
        submit_state: spec_submit(cells[1].marker),
        receptible_state: spec_receptible(cells[1].state_text),
        start_date: spec_opt_date(cells[2].raw, today),
        due_date: spec_opt_date(cells[3].raw, today),
    }
}

/// The error an offending row (index `row`) gives rise to: a missing column
/// or title anchor is schema drift naming the row; a non-empty date cell
/// that does not parse is a date error carrying the cell text.
pub open spec fn spec_row_error(cells: Seq<CellView>, row: int) -> ErrorView {
    if cells.len() < REQUIRED_COLUMNS || !(cells[0].anchor is Some) {
        ErrorView::MalformedRow { row, expected: REQUIRED_COLUMNS as int }
    } else if !date_cell_ok(cells[2].raw) {
        ErrorView::DateParse { text: cells[2].raw }
    } else {
        ErrorView::DateParse { text: cells[3].raw }
    }
}

/// Whether row `j` is the first row of the page that breaks the schema.
pub open spec fn first_bad_row(rows: Seq<Seq<CellView>>, j: int) -> bool {
    &&& 0 <= j < rows.len()
    &&& !row_ok(rows[j])
    &&& forall|k: int| 0 <= k < j ==> row_ok(rows[k])
}

/// The spec-level outcome of one page's extraction.
pub open spec fn extraction_view(r: Result<Vec<Assignment>, ManabaError>) -> Result<
    Seq<AssignmentView>,
    ErrorView,
> {
    match r {
        Result::Ok(v) => Result::Ok(v.deep_view()),
        Result::Err(e) => Result::Err(e@),
    }
}

/// The exact outcome the extraction contract admits for given rows and a
/// given `today`: the full record list where every row satisfies the
/// schema, and the first offending row's error otherwise.
pub open spec fn extraction_result_matches(
    rows: Seq<Seq<CellView>>,
    today: Date,
    r: Result<Seq<AssignmentView>, ErrorView>,
) -> bool {
    match r {
        Result::Ok(v) => {
            &&& forall|j: int| 0 <= j < rows.len() ==> row_ok(#[trigger] rows[j])
            &&& v.len() == rows.len()
            &&& forall|j: int|
                0 <= j < rows.len() ==> v[j] == spec_row_record(#[trigger] rows[j], today)
        },
        Result::Err(e) => exists|j: int| first_bad_row(rows, j) && e == spec_row_error(rows[j], j),
    }
}

/// Law: extraction is deterministic. For given rows and a given `today` the
/// extraction contract admits exactly one outcome, so repeating the same
/// extraction yields identical records, with no hidden state to differ.
#[verifier::rlimit(50)]
pub proof fn lemma_extraction_deterministic(
    rows: Seq<Seq<CellView>>,
    today: Date,
    r1: Result<Seq<AssignmentView>, ErrorView>,
    r2: Result<Seq<AssignmentView>, ErrorView>,
)
    requires
        extraction_result_matches(rows, today, r1),
        extraction_result_matches(rows, today, r2),
    ensures
        r1 == r2,
{
    match (r1, r2) {
        (Result::Ok(v1), Result::Ok(v2)) => {
            assert forall|j: int| 0 <= j < v1.len() implies v1[j] == v2[j] by {
                assert(v1[j] == spec_row_record(rows[j], today));
                assert(v2[j] == spec_row_record(rows[j], today));
            }
            assert(v1 =~= v2);
        },
        (Result::Err(e1), Result::Err(e2)) => {
            let j1 = choose|j: int| first_bad_row(rows, j) && e1 == spec_row_error(rows[j], j);
            let j2 = choose|j: int| first_bad_row(rows, j) && e2 == spec_row_error(rows[j], j);
            if j1 < j2 {
                assert(row_ok(rows[j1]));
                assert(false);
            }
            if j2 < j1 {
                assert(row_ok(rows[j2]));
                assert(false);
            }
        },
        (Result::Ok(_), Result::Err(e2)) => {
            let j = choose|j: int| first_bad_row(rows, j) && e2 == spec_row_error(rows[j], j);
            assert(row_ok(rows[j]));
            assert(false);
        },
        (Result::Err(e1), Result::Ok(_)) => {
            let j = choose|j: int| first_bad_row(rows, j) && e1 == spec_row_error(rows[j], j);
            assert(row_ok(rows[j]));
            assert(false);
        },
    }
}

/// Parses an optional date cell: an empty fragment means "no such date" and
/// is not an error; a non-empty fragment must be a well-formed date-time
/// text, else the whole page's extraction aborts.
pub fn parse_date_cell(raw: &String, today: &Date) -> (r: Result<
    Option<AssignmentDate>,
    ManabaError,
>)
    requires
        today.well_formed(),
    ensures
        r is Ok <==> date_cell_ok(raw@),
        r matches Ok(d) ==> d == spec_opt_date(raw@, *today),
        r matches Err(e) ==> e@ == (ErrorView::DateParse { text: raw@ }),
{
    if raw.as_str().is_empty() {
        Ok(None)
    } else {
        match AssignmentDate::new(raw.as_str(), today) {
            Ok(d) => Ok(Some(d)),
            Err(e) => Err(e),
        }
    }
}

/// Assembles one row into a record, or reports how the row breaks the
/// schema. No partial record is ever produced: the required fields must all
/// extract, while each date field is individually tolerant of absence.
pub fn assemble_row(cells: &Vec<CellFragment>, row: usize, today: &Date) -> (r: Result<
    Assignment,
    ManabaError,
>)
    requires
        today.well_formed(),
    ensures
        row_ok(cells.deep_view()) ==> (r matches Ok(rec) && rec.deep_view() == spec_row_record(
            cells.deep_view(),
            *today,
        )),
        !row_ok(cells.deep_view()) ==> (r matches Err(e) && e@ == spec_row_error(
            cells.deep_view(),
            row as int,
        )),
{
    if cells.len() < REQUIRED_COLUMNS {
        return Err(ManabaError::MalformedRow { row, expected: REQUIRED_COLUMNS });
    }
    let title = match &cells[0].anchor {
        Some(t) => t.clone(),
        None => {
            return Err(ManabaError::MalformedRow { row, expected: REQUIRED_COLUMNS });
        },
    };
    let (receptible_state, submit_state) = classify_state(&cells[1].state_text, &cells[1].marker);
    let start_date = match parse_date_cell(&cells[2].raw, today) {
        Ok(d) => d,
        Err(e) => {
            return Err(e);
        },
    };
    let due_date = match parse_date_cell(&cells[3].raw, today) {
        Ok(d) => d,
        Err(e) => {
            return Err(e);
        },
    };
    Ok(Assignment { title, submit_state, receptible_state, start_date, due_date })
}

/// Assembles the rows of one assignment page into records, as of `today`.
/// Exactly the pages whose every row satisfies the schema yield a list, one
/// record per row in page order; otherwise the first offending row decides
/// the error and nothing of the page is returned, so a truncated list can
/// never pass for a complete one.
#[verifier::rlimit(50)]
pub fn assemble_records(rows: &Vec<RowFragments>, today: &Date) -> (r: Result<
    Vec<Assignment>,
    ManabaError,
>)
    requires
        today.well_formed(),
    ensures
        r is Ok <==> (forall|j: int|
            0 <= j < rows.deep_view().len() ==> row_ok(rows.deep_view()[j])),
        r matches Ok(v) ==> v.deep_view().len() == rows.deep_view().len() && (forall|j: int|
            0 <= j < rows.deep_view().len() ==> v.deep_view()[j] == spec_row_record(
                rows.deep_view()[j],
                *today,
            )),
        r matches Err(e) ==> exists|j: int|
            first_bad_row(rows.deep_view(), j) && e@ == spec_row_error(rows.deep_view()[j], j),
        extraction_result_matches(rows.deep_view(), *today, extraction_view(r)),
{
    let ghost rws = rows.deep_view();
    let mut out: Vec<Assignment> = Vec::new();
    let n = rows.len();
    for i in 0..n
        invariant
            today.well_formed(),
            n == rows.len(),
            rws == rows.deep_view(),
            out@.len() == i,
            forall|j: int| 0 <= j < i ==> row_ok(rws[j]),
            forall|j: int|
                0 <= j < i ==> (#[trigger] out@[j]).deep_view() == spec_row_record(
                    rws[j],
                    *today,
                ),
    {
        let cells = &rows[i].cells;
        assert(cells.deep_view() == rws[i as int]);
        match assemble_row(cells, i, today) {
            Ok(rec) => {
                out.push(rec);
            },
            Err(e) => {
                assert(first_bad_row(rws, i as int));
                return Err(e);
            },
        }
    }
    Ok(out)
}

} // verus!
