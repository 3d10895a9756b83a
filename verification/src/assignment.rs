//! The assignment data model: submission and reception states, urgency
//! levels, and due / start dates carrying their urgency.

use vstd::prelude::*;
use crate::date::{Date, DateTime, datetime_of_text, parse_datetime, valid_datetime_text};
use crate::error::{ErrorView, ManabaError};

verus! {

/// Whether the user has already submitted the assignment.
#[derive(Clone, Copy, Debug, PartialEq, Eq, Structural, Default)]
pub enum AssignmentSubmitState {
    #[default]
    Todo,
    Done,
}

/// Whether the submission window is open, not yet begun, or already closed.
#[derive(Clone, Copy, Debug, PartialEq, Eq, Structural, Default)]
pub enum AssignmentReceptibleState {
    #[default]
    NotStarted,
    Open,
    Closed,
}

/// How urgent a due date is relative to the current date. `Expired` means
/// the due date is already past and no longer actionable.
#[derive(Clone, Copy, Debug, PartialEq, Eq, Structural)]
pub enum AssignmentImportanceLevel {
    Expired,
    Low,
    Medium,
    High,
}

/// The urgency policy, over day numbers: a due date before today is
/// `Expired`; within three days of today it is `High`; within a week,
/// `Medium`; further out, `Low`.
pub open spec fn importance_of(due_day: int, today_day: int) -> AssignmentImportanceLevel {
    if due_day < today_day {
        AssignmentImportanceLevel::Expired
    } else if due_day <= today_day + 3 {
        AssignmentImportanceLevel::High
    } else if due_day <= today_day + 7 {
        AssignmentImportanceLevel::Medium
    } else {
        AssignmentImportanceLevel::Low
    }
}

impl AssignmentImportanceLevel {
    /// Classifies the urgency of a due date relative to `today`.
    pub fn classify(due: &Date, today: &Date) -> (r: Self)
        requires
            due.well_formed(),
            today.well_formed(),
        ensures
            r == importance_of(due.spec_day_number(), today.spec_day_number()),
    {
        let dd = due.day_number();
        let td = today.day_number();
        if dd < td {
            AssignmentImportanceLevel::Expired
        } else if dd - td <= 3 {
            AssignmentImportanceLevel::High
        } else if dd - td <= 7 {
            AssignmentImportanceLevel::Medium
        } else {
            AssignmentImportanceLevel::Low
        }
    }
}

/// A parsed date-time column together with its urgency, which is always
/// derived from the timestamp and the extraction-time date, never stored
/// across runs.
#[derive(Clone, Copy, Debug, PartialEq, Eq, Structural)]
pub struct AssignmentDate {
    pub date: DateTime,
    pub importance_level: AssignmentImportanceLevel,
}

/// The assignment date that a well-formed date-time text denotes, as of
/// `today`.
pub open spec fn assignment_date_of(s: Seq<char>, today: Date) -> AssignmentDate {
    let dt = datetime_of_text(s);
    AssignmentDate {
        date: dt,
        importance_level: importance_of(dt.spec_date().spec_day_number(), today.spec_day_number()),
    }
}

impl AssignmentDate {
    /// Parses a date-time cell and derives its urgency as of `today`.
    /// Accepts exactly the well-formed `YYYY-MM-DD HH:MM` texts; anything
    /// else is a hard schema-drift error.
    pub fn new(text: &str, today: &Date) -> (r: Result<AssignmentDate, ManabaError>)
        requires
            today.well_formed(),
        ensures
            r is Ok <==> valid_datetime_text(text@),
            r matches Ok(d) ==> d == assignment_date_of(text@, *today),
            r matches Err(e) ==> e@ == (ErrorView::DateParse { text: text@ }),
    {
        match parse_datetime(text) {
            Some(dt) => {
                let level = AssignmentImportanceLevel::classify(&dt.date(), today);
                Ok(AssignmentDate { date: dt, importance_level: level })
            },
            None => Err(ManabaError::DateParse { text: text.to_owned() }),
        }
    }
}

} // verus!
