use manaba::assignment::{
    AssignmentDate, AssignmentImportanceLevel, AssignmentReceptibleState, AssignmentSubmitState,
};
use manaba::clock::today;
use manaba::color::{
    AppColor, colorize, colorize_bg, create_app_color_from_config, format_assignment_indicator,
};
use manaba::config::{AppConfig, Config};
use manaba::cookie::Cookie;
use manaba::course::{Course, extract_courses};
use manaba::date::{Date, DateTime};
use manaba::dom::session_page_is_valid;
use manaba::exam::Exam;
use manaba::listing::{
    StatusLabel, count_by_urgency, find_course_by_id, should_display, status_label,
};
use manaba::report::Report;

#[test]
fn duplicate_course_links_collapse_to_first() {
    let html = String::from(
        "<html><body>\
         <a href=\"course_12345\">12345 Algebra</a>\
         <a href=\"course_12345\">12345 Algebra (mirror)</a>\
         <a href=\"course_67890\">67890 Mechanics</a>\
         <a href=\"course_99999\">Course navigation</a>\
         <a href=\"other_11111\">11111 Unrelated</a>\
         </body></html>",
    );
    let courses = extract_courses(&html);
    assert_eq!(courses.len(), 2);
    assert_eq!(courses[0].id, "course_12345");
    assert_eq!(courses[0].title, "12345 Algebra");
    assert_eq!(courses[1].id, "course_67890");
    assert_eq!(courses[1].title, "67890 Mechanics");
}

#[test]
fn course_url_joins_base_and_id() {
    let c = Course { id: String::from("course_12345"), title: String::from("t") };
    assert_eq!(c.url("https://lms.example/ct"), "https://lms.example/ct/course_12345");
}

#[test]
fn find_course_prefers_the_first_match() {
    let courses = vec![
        Course { id: String::from("course_1"), title: String::from("a") },
        Course { id: String::from("course_2"), title: String::from("b") },
    ];
    assert_eq!(find_course_by_id(&courses, "course_2"), Some(1));
    assert_eq!(find_course_by_id(&courses, "course_1"), Some(0));
    assert_eq!(find_course_by_id(&courses, "course_9"), None);
}

#[test]
fn session_page_detection() {
    assert!(session_page_is_valid(
        "<html><body><div id=\"orgheader\">Org</div></body></html>",
    ));
    assert!(!session_page_is_valid("<html><body><div id=\"other\">x</div></body></html>"));
}

#[test]
fn clock_answers_a_valid_date() {
    let d = today().unwrap();
    assert!(1 <= d.month && d.month <= 12);
    assert!(1 <= d.day && d.day <= 31);
}

#[test]
fn cookie_assembly_requires_a_session() {
    let pairs = vec![
        (String::from("theme"), String::from("dark")),
        (String::from("sessionid"), String::from("example")),
        (String::from("lang"), String::from("ja")),
    ];
    let cookie = Cookie::from_pairs(&pairs).unwrap();
    assert_eq!(cookie.0, "theme=dark;sessionid=example;lang=ja");

    let no_session = vec![(String::from("theme"), String::from("dark"))];
    assert!(Cookie::from_pairs(&no_session).is_none());
    assert!(Cookie::from_pairs(&Vec::new()).is_none());

    assert_eq!(Cookie::new("k=v").0, "k=v");
}

fn record(
    submit: AssignmentSubmitState,
    receptible: AssignmentReceptibleState,
    due: Option<AssignmentImportanceLevel>,
) -> Report {
    Report {
        title: String::from("r"),
        submit_state: submit,
        receptible_state: receptible,
        start_date: None,
        due_date: due.map(|level| AssignmentDate {
            date: DateTime { year: 2024, month: 1, day: 15, hour: 12, minute: 0 },
            importance_level: level,
        }),
    }
}

#[test]
fn urgency_counts_tally_pending_open_records() {
    let reports = vec![
        record(
            AssignmentSubmitState::Todo,
            AssignmentReceptibleState::Open,
            Some(AssignmentImportanceLevel::High),
        ),
        record(
            AssignmentSubmitState::Todo,
            AssignmentReceptibleState::Open,
            Some(AssignmentImportanceLevel::Medium),
        ),
        record(
            AssignmentSubmitState::Done,
            AssignmentReceptibleState::Open,
            Some(AssignmentImportanceLevel::High),
        ),
        record(
            AssignmentSubmitState::Todo,
            AssignmentReceptibleState::Closed,
            Some(AssignmentImportanceLevel::High),
        ),
        record(AssignmentSubmitState::Todo, AssignmentReceptibleState::Open, None),
    ];
    let exams = vec![Exam {
        title: String::from("e"),
        submit_state: AssignmentSubmitState::Todo,
        receptible_state: AssignmentReceptibleState::Open,
        start_date: None,
        due_date: Some(AssignmentDate {
            date: DateTime { year: 2024, month: 1, day: 20, hour: 9, minute: 0 },
            importance_level: AssignmentImportanceLevel::Low,
        }),
    }];
    assert_eq!(count_by_urgency(&reports, &exams), (1, 1, 1));
    assert_eq!(count_by_urgency(&Vec::new(), &Vec::new()), (0, 0, 0));
}

#[test]
fn display_filter_flags() {
    let todo = AssignmentSubmitState::Todo;
    let done = AssignmentSubmitState::Done;
    let open = AssignmentReceptibleState::Open;
    let closed = AssignmentReceptibleState::Closed;
    let high = Some(AssignmentDate {
        date: DateTime { year: 2024, month: 1, day: 11, hour: 0, minute: 0 },
        importance_level: AssignmentImportanceLevel::High,
    });
    let low = Some(AssignmentDate {
        date: DateTime { year: 2024, month: 2, day: 11, hour: 0, minute: 0 },
        importance_level: AssignmentImportanceLevel::Low,
    });

    assert!(should_display(&done, &closed, &None, true, false));
    assert!(should_display(&todo, &open, &None, false, false));
    assert!(!should_display(&done, &open, &None, false, false));
    assert!(!should_display(&todo, &closed, &None, false, false));
    assert!(should_display(&todo, &open, &high, false, true));
    assert!(!should_display(&todo, &open, &low, false, true));
    assert!(!should_display(&todo, &closed, &high, false, true));
}

#[test]
fn status_labels_cover_the_state_product() {
    let todo = AssignmentSubmitState::Todo;
    let done = AssignmentSubmitState::Done;
    assert_eq!(status_label(&todo, &AssignmentReceptibleState::NotStarted), StatusLabel::Waiting);
    assert_eq!(status_label(&done, &AssignmentReceptibleState::NotStarted), StatusLabel::Waiting);
    assert_eq!(status_label(&todo, &AssignmentReceptibleState::Open), StatusLabel::Todo);
    assert_eq!(status_label(&done, &AssignmentReceptibleState::Open), StatusLabel::Done);
    assert_eq!(status_label(&done, &AssignmentReceptibleState::Closed), StatusLabel::Done);
    assert_eq!(status_label(&todo, &AssignmentReceptibleState::Closed), StatusLabel::Closed);
}

#[test]
fn colorize_preserves_the_text() {
    let palette = AppColor::default();
    let tinted = colorize(
        "deadline soon",
        &AssignmentReceptibleState::Open,
        &AssignmentImportanceLevel::High,
        &palette,
    );
    assert!(tinted.contains("deadline soon"));
    let plain = colorize(
        "long gone",
        &AssignmentReceptibleState::Open,
        &AssignmentImportanceLevel::Expired,
        &palette,
    );
    assert_eq!(plain, "long gone");
    let bg = colorize_bg(
        "waiting",
        &AssignmentReceptibleState::NotStarted,
        &AssignmentImportanceLevel::Low,
        &palette,
    );
    assert!(bg.contains("waiting"));
}

#[test]
fn indicator_shows_all_three_tallies() {
    let palette = AppColor::default();
    let s = format_assignment_indicator(2, 0, 13, &palette);
    assert!(s.starts_with("("));
    assert!(s.ends_with(") "));
    assert!(s.contains("2"));
    assert!(s.contains("0"));
    assert!(s.contains("13"));
}

#[test]
fn palette_configuration_overrides_defaults() {
    let pairs = vec![
        (String::from("red"), String::from("FF0000")),
        (String::from("red"), String::from("AA0000")),
        (String::from("gray"), String::from("808080")),
    ];
    let palette = create_app_color_from_config(&pairs);
    assert_eq!(palette.red, "FF0000");
    assert_eq!(palette.gray, "808080");
    assert_eq!(palette.white, "D3C6AA");
    assert_eq!(palette.aqua, "83C092");
}

#[test]
fn configuration_defaults() {
    let app = AppConfig::default();
    assert_eq!(app.base_url, "https://ct.ritsumei.ac.jp/ct/");
    assert_eq!(app.cookie_domain, "ct.ritsumei.ac.jp");
    assert!(app.timetable.is_empty());
    assert!(app.color.is_empty());
    let config = Config::default();
    assert_eq!(config.base_url, app.base_url);
    assert_eq!(config.cookie.0, "");
    assert_eq!(config.timetable, "");
}

#[test]
fn extraction_keeps_page_order() {
    let html = String::from(
        "<html><body>\
         <a href=\"course_22222\">22222 Second</a>\
         <a href=\"course_11111\">11111 First</a>\
         </body></html>",
    );
    let courses = extract_courses(&html);
    let titles: Vec<&str> = courses.iter().map(|c| c.title.as_str()).collect();
    assert_eq!(titles, vec!["22222 Second", "11111 First"]);
    let d = Date { year: 2024, month: 6, day: 1 };
    assert!(d.day_number() > 0);
}
