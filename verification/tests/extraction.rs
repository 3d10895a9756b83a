use manaba::assignment::{
    AssignmentImportanceLevel, AssignmentReceptibleState, AssignmentSubmitState,
};
use manaba::date::Date;
use manaba::error::ManabaError;
use manaba::exam::extract_exams;
use manaba::extract::classify_state;
use manaba::listing::should_display;
use manaba::report::extract_reports;

fn fixture_page(rows: &[&str]) -> String {
    let mut s = String::from(
        "<html><body><table class=\"stdlist\"><tr class=\"title\"><th>a</th><th>b</th><th>c</th><th>d</th></tr>",
    );
    for row in rows {
        s.push_str(row);
    }
    s.push_str("</table></body></html>");
    s
}

const TODAY: Date = Date { year: 2024, month: 1, day: 10 };

#[test]
fn well_formed_rows_extract_verbatim() {
    let html = fixture_page(&[
        "<tr><td><a href=\"r1\">Essay one</a></td><td>受付中<span>未提出</span></td><td>2024-01-01 00:00</td><td>2024-01-16 10:00</td></tr>",
        "<tr><td><a href=\"r2\">Essay two</a></td><td>受付終了</td><td></td><td>2024-01-05 10:00</td></tr>",
        "<tr><td><a href=\"r3\">Essay three</a></td><td></td><td></td><td></td></tr>",
    ]);
    let reports = extract_reports(&html, &TODAY).unwrap();
    assert_eq!(reports.len(), 3);

    assert_eq!(reports[0].title, "Essay one");
    assert_eq!(reports[0].submit_state, AssignmentSubmitState::Todo);
    assert_eq!(reports[0].receptible_state, AssignmentReceptibleState::Open);
    let start = reports[0].start_date.as_ref().unwrap();
    assert_eq!(
        (start.date.year, start.date.month, start.date.day, start.date.hour, start.date.minute),
        (2024, 1, 1, 0, 0)
    );
    assert_eq!(start.importance_level, AssignmentImportanceLevel::Expired);
    let due = reports[0].due_date.as_ref().unwrap();
    assert_eq!((due.date.month, due.date.day, due.date.hour), (1, 16, 10));
    assert_eq!(due.importance_level, AssignmentImportanceLevel::Medium);

    assert_eq!(reports[1].title, "Essay two");
    assert_eq!(reports[1].submit_state, AssignmentSubmitState::Done);
    assert_eq!(reports[1].receptible_state, AssignmentReceptibleState::Closed);
    assert!(reports[1].start_date.is_none());
    assert_eq!(
        reports[1].due_date.as_ref().unwrap().importance_level,
        AssignmentImportanceLevel::Expired
    );

    assert_eq!(reports[2].title, "Essay three");
    assert_eq!(reports[2].submit_state, AssignmentSubmitState::Done);
    assert_eq!(reports[2].receptible_state, AssignmentReceptibleState::NotStarted);
    assert!(reports[2].start_date.is_none());
    assert!(reports[2].due_date.is_none());
}

#[test]
fn repeated_extraction_is_byte_identical() {
    let html = fixture_page(&[
        "<tr><td><a href=\"r1\">Quiz</a></td><td>受付中<span>未提出</span></td><td>2024-01-02 08:30</td><td>2024-01-12 23:59</td></tr>",
    ]);
    let first = extract_exams(&html, &TODAY).unwrap();
    let second = extract_exams(&html, &TODAY).unwrap();
    assert_eq!(first, second);
    let third = extract_reports(&html, &TODAY).unwrap();
    assert_eq!(first.len(), third.len());
    assert_eq!(first[0].title, third[0].title);
}

#[test]
fn state_cell_markers_classify_independently() {
    let open_todo = fixture_page(&[
        "<tr><td><a href=\"x\">A</a></td><td>受付中<span>未提出</span></td><td></td><td></td></tr>",
    ]);
    let r = extract_reports(&open_todo, &TODAY).unwrap();
    assert_eq!(r[0].receptible_state, AssignmentReceptibleState::Open);
    assert_eq!(r[0].submit_state, AssignmentSubmitState::Todo);

    let closed_done = fixture_page(&[
        "<tr><td><a href=\"x\">B</a></td><td>受付終了</td><td></td><td></td></tr>",
    ]);
    let r = extract_reports(&closed_done, &TODAY).unwrap();
    assert_eq!(r[0].receptible_state, AssignmentReceptibleState::Closed);
    assert_eq!(r[0].submit_state, AssignmentSubmitState::Done);

    let neither = fixture_page(&[
        "<tr><td><a href=\"x\">C</a></td><td>準備中</td><td></td><td></td></tr>",
    ]);
    let r = extract_reports(&neither, &TODAY).unwrap();
    assert_eq!(r[0].receptible_state, AssignmentReceptibleState::NotStarted);
    assert_eq!(r[0].submit_state, AssignmentSubmitState::Done);

    let closed_todo = fixture_page(&[
        "<tr><td><a href=\"x\">D</a></td><td>受付終了<span>未提出</span></td><td></td><td></td></tr>",
    ]);
    let r = extract_reports(&closed_todo, &TODAY).unwrap();
    assert_eq!(r[0].receptible_state, AssignmentReceptibleState::Closed);
    assert_eq!(r[0].submit_state, AssignmentSubmitState::Todo);
}

#[test]
fn classify_state_on_fragments() {
    let (rs, ss) = classify_state(&Some(String::from("受付中")), &Some(String::from("未提出")));
    assert_eq!(rs, AssignmentReceptibleState::Open);
    assert_eq!(ss, AssignmentSubmitState::Todo);
    let (rs, ss) = classify_state(&Some(String::from("受付終了")), &None);
    assert_eq!(rs, AssignmentReceptibleState::Closed);
    assert_eq!(ss, AssignmentSubmitState::Done);
    let (rs, ss) = classify_state(&None, &None);
    assert_eq!(rs, AssignmentReceptibleState::NotStarted);
    assert_eq!(ss, AssignmentSubmitState::Done);
    let (rs, ss) = classify_state(&Some(String::from("something else")), &Some(String::from("済")));
    assert_eq!(rs, AssignmentReceptibleState::NotStarted);
    assert_eq!(ss, AssignmentSubmitState::Done);
}

#[test]
fn missing_due_date_is_none_and_never_urgent() {
    let html = fixture_page(&[
        "<tr><td><a href=\"x\">No due</a></td><td>受付中<span>未提出</span></td><td>2024-01-01 00:00</td><td></td></tr>",
    ]);
    let r = extract_reports(&html, &TODAY).unwrap();
    assert!(r[0].due_date.is_none());
    assert!(!should_display(
        &r[0].submit_state,
        &r[0].receptible_state,
        &r[0].due_date,
        false,
        true,
    ));
    assert!(should_display(
        &r[0].submit_state,
        &r[0].receptible_state,
        &r[0].due_date,
        false,
        false,
    ));
}

#[test]
fn malformed_row_fails_with_row_index() {
    let html = fixture_page(&[
        "<tr><td><a href=\"x\">Fine</a></td><td>受付中</td><td></td><td></td></tr>",
        "<tr><td>No anchor here</td><td>受付中</td><td></td><td></td></tr>",
    ]);
    let err = extract_reports(&html, &TODAY).unwrap_err();
    assert_eq!(err, ManabaError::MalformedRow { row: 1, expected: 4 });

    let short = fixture_page(&["<tr><td><a href=\"x\">Short</a></td><td>受付中</td></tr>"]);
    let err = extract_exams(&short, &TODAY).unwrap_err();
    assert_eq!(err, ManabaError::MalformedRow { row: 0, expected: 4 });
}

#[test]
fn unparsable_date_cell_aborts_the_page() {
    let html = fixture_page(&[
        "<tr><td><a href=\"x\">Fine</a></td><td>受付中</td><td></td><td>2024-01-16 10:00</td></tr>",
        "<tr><td><a href=\"y\">Bad</a></td><td>受付中</td><td></td><td>next Tuesday</td></tr>",
    ]);
    let err = extract_reports(&html, &TODAY).unwrap_err();
    assert_eq!(err, ManabaError::DateParse { text: String::from("next Tuesday") });
}

#[test]
fn empty_page_extracts_no_records() {
    let html = fixture_page(&[]);
    assert_eq!(extract_reports(&html, &TODAY).unwrap().len(), 0);
    let bare = String::from("<html><body><p>nothing here</p></body></html>");
    assert_eq!(extract_exams(&bare, &TODAY).unwrap().len(), 0);
}
