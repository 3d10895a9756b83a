//! Decision helpers over extracted records: display filtering, urgency
//! counting, status labels, and course lookup.

use vstd::prelude::*;
use crate::assignment::{
    AssignmentDate, AssignmentImportanceLevel, AssignmentReceptibleState, AssignmentSubmitState,
};
use crate::course::Course;
use crate::exam::Exam;
use crate::extract::AssignmentView;
use crate::report::Report;
use crate::text::str_eq;

verus! {

/// Whether a record passes the listing filter: everything under `all`; only
/// pending records of an open window under the default; and of those, under
/// `warn`, only the ones whose due date is near (`High` or `Medium`). A
/// record without a due date never matches the `warn` filter.
pub open spec fn spec_should_display(
    submit: AssignmentSubmitState,
    receptible: AssignmentReceptibleState,
    due: Option<AssignmentDate>,
    all: bool,
    warn: bool,
) -> bool {
    if all {
        true
    } else if warn {
        &&& submit == AssignmentSubmitState::Todo
        &&& receptible == AssignmentReceptibleState::Open
        &&& match due {
            Option::Some(d) => d.importance_level == AssignmentImportanceLevel::High
                || d.importance_level == AssignmentImportanceLevel::Medium,
            Option::None => false,
        }
    } else {
        submit == AssignmentSubmitState::Todo && receptible == AssignmentReceptibleState::Open
    }
}

/// Decides whether one record is shown under the given listing flags.
pub fn should_display(
    submit: &AssignmentSubmitState,
    receptible: &AssignmentReceptibleState,
    due: &Option<AssignmentDate>,
    all: bool,
    warn: bool,
) -> (r: bool)
    ensures
        r == spec_should_display(*submit, *receptible, *due, all, warn),
{
    if all {
        return true;
    }
    let pending = matches!(submit, AssignmentSubmitState::Todo) && matches!(
        receptible,
        AssignmentReceptibleState::Open,
    );
    if warn {
        pending && match due {
            Some(d) => matches!(
                d.importance_level,
                AssignmentImportanceLevel::High | AssignmentImportanceLevel::Medium,
            ),
            None => false,
        }
    } else {
        pending
    }
}

/// Law: a record without a due date never matches the urgency filter — with
/// `warn` set and `all` clear it is never shown, whatever its states.
pub proof fn lemma_no_due_never_urgent(
    submit: AssignmentSubmitState,
    receptible: AssignmentReceptibleState,
)
    ensures
        !spec_should_display(submit, receptible, Option::None, false, true),
{
}

/// Law: a record whose window has not yet begun is never actionable,
/// whatever its due date says — the default and urgency listings never show
/// it, it counts toward no urgency tally, and its status reads `Waiting`.
pub proof fn lemma_not_started_never_actionable(
    submit: AssignmentSubmitState,
    due: Option<AssignmentDate>,
    warn: bool,
    level: AssignmentImportanceLevel,
)
    ensures
        !spec_should_display(submit, AssignmentReceptibleState::NotStarted, due, false, warn),
        !counts_toward(submit, AssignmentReceptibleState::NotStarted, due, level),
        spec_status_label(submit, AssignmentReceptibleState::NotStarted) == StatusLabel::Waiting,
{
}

/// Whether a record with these fields counts toward the urgency tally of
/// `level`: it is pending, its window is open, and its due date carries
/// that urgency.
pub open spec fn counts_toward(
    submit: AssignmentSubmitState,
    receptible: AssignmentReceptibleState,
    due: Option<AssignmentDate>,
    level: AssignmentImportanceLevel,
) -> bool {
    &&& submit == AssignmentSubmitState::Todo
    &&& receptible == AssignmentReceptibleState::Open
    &&& match due {
        Option::Some(d) => d.importance_level == level,
        Option::None => false,
    }
}

/// `counts_toward` over a whole record.
pub open spec fn rec_counts_toward(rec: AssignmentView, level: AssignmentImportanceLevel) -> bool {
    counts_toward(rec.submit_state, rec.receptible_state, rec.due_date, level)
}

/// How many records of `recs` count toward the urgency tally of `level`.
pub open spec fn spec_count_level(
    recs: Seq<AssignmentView>,
    level: AssignmentImportanceLevel,
) -> int
    decreases recs.len(),
{
    if recs.len() == 0 {
        0
    } else {
        spec_count_level(recs.drop_last(), level) + if rec_counts_toward(recs.last(), level) {
            1int
        } else {
            0int
        }
    }
}

proof fn lemma_count_le_len(recs: Seq<AssignmentView>, level: AssignmentImportanceLevel)
    ensures
        0 <= spec_count_level(recs, level) <= recs.len(),
    decreases recs.len(),
{
    if recs.len() > 0 {
        lemma_count_le_len(recs.drop_last(), level);
    }
}

/// Decides, for one record, which urgency tallies it counts toward.
fn level_flags(
    submit: &AssignmentSubmitState,
    receptible: &AssignmentReceptibleState,
    due: &Option<AssignmentDate>,
) -> (r: (bool, bool, bool))
    ensures
        r.0 == counts_toward(*submit, *receptible, *due, AssignmentImportanceLevel::High),
        r.1 == counts_toward(*submit, *receptible, *due, AssignmentImportanceLevel::Medium),
        r.2 == counts_toward(*submit, *receptible, *due, AssignmentImportanceLevel::Low),
{
    let pending = matches!(submit, AssignmentSubmitState::Todo) && matches!(
        receptible,
        AssignmentReceptibleState::Open,
    );
    match due {
        Some(d) => (
            pending && matches!(d.importance_level, AssignmentImportanceLevel::High),
            pending && matches!(d.importance_level, AssignmentImportanceLevel::Medium),
            pending && matches!(d.importance_level, AssignmentImportanceLevel::Low),
        ),
        None => (false, false, false),
    }
}

/// Adds the urgency tallies of a report list onto the counters.
fn tally_reports(recs: &Vec<Report>, high: &mut usize, medium: &mut usize, low: &mut usize)
    requires
        *old(high) + recs@.len() <= usize::MAX,
        *old(medium) + recs@.len() <= usize::MAX,
        *old(low) + recs@.len() <= usize::MAX,
    ensures
        *final(high) == *old(high) + spec_count_level(
            recs.deep_view(),
            AssignmentImportanceLevel::High,
        ),
        *final(medium) == *old(medium) + spec_count_level(
            recs.deep_view(),
            AssignmentImportanceLevel::Medium,
        ),
        *final(low) == *old(low) + spec_count_level(
            recs.deep_view(),
            AssignmentImportanceLevel::Low,
        ),
{
    let ghost rv = recs.deep_view();
    let n = recs.len();
    for i in 0..n
        invariant
            n == recs@.len(),
            rv == recs.deep_view(),
            rv.len() == n,
            *old(high) + n <= usize::MAX,
            *old(medium) + n <= usize::MAX,
            *old(low) + n <= usize::MAX,
            *high == *old(high) + spec_count_level(
                rv.take(i as int),
                AssignmentImportanceLevel::High,
            ),
            *medium == *old(medium) + spec_count_level(
                rv.take(i as int),
                AssignmentImportanceLevel::Medium,
            ),
            *low == *old(low) + spec_count_level(rv.take(i as int), AssignmentImportanceLevel::Low),
    {
        proof {
            lemma_count_le_len(rv.take(i as int), AssignmentImportanceLevel::High);
            lemma_count_le_len(rv.take(i as int), AssignmentImportanceLevel::Medium);
            lemma_count_le_len(rv.take(i as int), AssignmentImportanceLevel::Low);
            assert(rv.take(i + 1).drop_last() =~= rv.take(i as int));
            assert(rv.take(i + 1).last() == rv[i as int]);
            assert(rv[i as int] == recs@[i as int].deep_view());
        }
        let rec = &recs[i];
        let (h, m, l) = level_flags(&rec.submit_state, &rec.receptible_state, &rec.due_date);
        if h {
            *high = *high + 1;
        }
        if m {
            *medium = *medium + 1;
        }
        if l {
            *low = *low + 1;
        }
    }
    proof {
        assert(rv.take(n as int) =~= rv);
    }
}

/// Adds the urgency tallies of an exam list onto the counters.
fn tally_exams(recs: &Vec<Exam>, high: &mut usize, medium: &mut usize, low: &mut usize)
    requires
        *old(high) + recs@.len() <= usize::MAX,
        *old(medium) + recs@.len() <= usize::MAX,
        *old(low) + recs@.len() <= usize::MAX,
    ensures
        *final(high) == *old(high) + spec_count_level(
            recs.deep_view(),
            AssignmentImportanceLevel::High,
        ),
        *final(medium) == *old(medium) + spec_count_level(
            recs.deep_view(),
            AssignmentImportanceLevel::Medium,
        ),
        *final(low) == *old(low) + spec_count_level(
            recs.deep_view(),
            AssignmentImportanceLevel::Low,
        ),
{
    let ghost rv = recs.deep_view();
    let n = recs.len();
    for i in 0..n
        invariant
            n == recs@.len(),
            rv == recs.deep_view(),
            rv.len() == n,
            *old(high) + n <= usize::MAX,
            *old(medium) + n <= usize::MAX,
            *old(low) + n <= usize::MAX,
            *high == *old(high) + spec_count_level(
                rv.take(i as int),
                AssignmentImportanceLevel::High,
            ),
            *medium == *old(medium) + spec_count_level(
                rv.take(i as int),
                AssignmentImportanceLevel::Medium,
            ),
            *low == *old(low) + spec_count_level(rv.take(i as int), AssignmentImportanceLevel::Low),
    {
        proof {
            lemma_count_le_len(rv.take(i as int), AssignmentImportanceLevel::High);
            lemma_count_le_len(rv.take(i as int), AssignmentImportanceLevel::Medium);
            lemma_count_le_len(rv.take(i as int), AssignmentImportanceLevel::Low);
            assert(rv.take(i + 1).drop_last() =~= rv.take(i as int));
            assert(rv.take(i + 1).last() == rv[i as int]);
            assert(rv[i as int] == recs@[i as int].deep_view());
        }
        let rec = &recs[i];
        let (h, m, l) = level_flags(&rec.submit_state, &rec.receptible_state, &rec.due_date);
        if h {
            *high = *high + 1;
        }
        if m {
            *medium = *medium + 1;
        }
        if l {
            *low = *low + 1;
        }
    }
    proof {
        assert(rv.take(n as int) =~= rv);
    }
}

/// Counts, over one course's reports and exams together, how many pending
/// open-window assignments fall under each urgency level: `(high, medium,
/// low)`. Expired due dates and records without one count toward none.
pub fn count_by_urgency(reports: &Vec<Report>, exams: &Vec<Exam>) -> (r: (usize, usize, usize))
    requires
        reports@.len() + exams@.len() <= usize::MAX,
    ensures
        r.0 == spec_count_level(reports.deep_view(), AssignmentImportanceLevel::High)
            + spec_count_level(exams.deep_view(), AssignmentImportanceLevel::High),
        r.1 == spec_count_level(reports.deep_view(), AssignmentImportanceLevel::Medium)
            + spec_count_level(exams.deep_view(), AssignmentImportanceLevel::Medium),
        r.2 == spec_count_level(reports.deep_view(), AssignmentImportanceLevel::Low)
            + spec_count_level(exams.deep_view(), AssignmentImportanceLevel::Low),
{
    let mut high: usize = 0;
    let mut medium: usize = 0;
    let mut low: usize = 0;
    tally_reports(reports, &mut high, &mut medium, &mut low);
    proof {
        lemma_count_le_len(reports.deep_view(), AssignmentImportanceLevel::High);
        lemma_count_le_len(reports.deep_view(), AssignmentImportanceLevel::Medium);
        lemma_count_le_len(reports.deep_view(), AssignmentImportanceLevel::Low);
    }
    tally_exams(exams, &mut high, &mut medium, &mut low);
    (high, medium, low)
}

/// The headline status of one record under the full listing.
#[derive(Clone, Copy, Debug, PartialEq, Eq, Structural)]
pub enum StatusLabel {
    Waiting,
    Todo,
    Done,
    Closed,
}

/// The status a record's states denote: a window not yet begun is
/// `Waiting`; a pending record of an open window is `Todo`; a submitted
/// record whose window has begun is `Done`; what remains — pending but
/// closed — is `Closed`.
pub open spec fn spec_status_label(
    submit: AssignmentSubmitState,
    receptible: AssignmentReceptibleState,
) -> StatusLabel {
    if receptible == AssignmentReceptibleState::NotStarted {
        StatusLabel::Waiting
    } else if submit == AssignmentSubmitState::Todo && receptible
        == AssignmentReceptibleState::Open {
        StatusLabel::Todo
    } else if submit == AssignmentSubmitState::Done {
        StatusLabel::Done
    } else {
        StatusLabel::Closed
    }
}

/// Labels one record for the full listing.
pub fn status_label(
    submit: &AssignmentSubmitState,
    receptible: &AssignmentReceptibleState,
) -> (r: StatusLabel)
    ensures
        r == spec_status_label(*submit, *receptible),
{
    match (submit, receptible) {
        (_, AssignmentReceptibleState::NotStarted) => StatusLabel::Waiting,
        (AssignmentSubmitState::Todo, AssignmentReceptibleState::Open) => StatusLabel::Todo,
        (AssignmentSubmitState::Done, _) => StatusLabel::Done,
        _ => StatusLabel::Closed,
    }
}

/// Finds the first course bearing `id`, if any.
pub fn find_course_by_id(courses: &Vec<Course>, id: &str) -> (r: Option<usize>)
    ensures
        r matches Some(i) ==> i < courses@.len() && courses@[i as int].id@ == id@ && (forall|
            k: int,
        |
            0 <= k < i ==> (#[trigger] courses@[k]).id@ != id@),
        r is None ==> forall|k: int|
            0 <= k < courses@.len() ==> (#[trigger] courses@[k]).id@ != id@,
{
    let n = courses.len();
    for i in 0..n
        invariant
            n == courses@.len(),
            forall|k: int| 0 <= k < i ==> (#[trigger] courses@[k]).id@ != id@,
    {
        if str_eq(courses[i].id.as_str(), id) {
            return Some(i);
        }
    }
    None
}

} // verus!
