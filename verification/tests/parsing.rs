//! The row parsers and the text helpers they rest on.

use guidesync::calendar::{CalendarDate, ClockTime};
use guidesync::parse_nasup::find_commas_without_following_whitespace;
use guidesync::parse_nasup::parse_model::{
    PairedConcurrentDiscriminant, ParseError, ParsedNasupSessionType, SessionTypeError,
};
use guidesync::parse_nasup::parse_presenter_institutions::parse_nasup_presenter_institutions_from_worksheet;
use guidesync::parse_nasup::parse_sessions::{
    parse_nasup_session_from_row, parse_nasup_sessions_from_worksheet,
};
use guidesync::parse_nasup::parse_strands::parse_nasup_strands_from_worksheet;
use guidesync::sheet::SheetCell;
use guidesync::text::{split_comma_space, trim_text};

fn text(value: &str) -> SheetCell {
    SheetCell::Text { value: value.to_string(), highlighted: false }
}

fn paid_text(value: &str) -> SheetCell {
    SheetCell::Text { value: value.to_string(), highlighted: true }
}

fn date_cell(year: i32, month: u32, day: u32) -> SheetCell {
    SheetCell::DateTime {
        date: CalendarDate { year, month, day },
        time: ClockTime { hour: 0, minute: 0, second: 0 },
    }
}

fn time_cell(hour: u32, minute: u32, second: u32) -> SheetCell {
    SheetCell::DateTime {
        date: CalendarDate { year: 1899, month: 12, day: 31 },
        time: ClockTime { hour, minute, second },
    }
}

fn session_row() -> Vec<SheetCell> {
    vec![
        text("Monday"),
        date_cell(2026, 6, 15),
        time_cell(10, 0, 0),
        time_cell(11, 30, 0),
        text(" Hall A "),
        text("General"),
        text("  A Session Title "),
        text(" Describes things. "),
        paid_text("Ada Lovelace"),
        SheetCell::Empty,
        text("Grace Hopper"),
    ]
}

#[test]
fn parses_a_full_session_row() {
    let s = parse_nasup_session_from_row(1, &session_row()).unwrap();
    assert_eq!(s.row_index, 1);
    assert_eq!(s.date, CalendarDate { year: 2026, month: 6, day: 15 });
    assert_eq!(s.start_time, ClockTime { hour: 10, minute: 0, second: 0 });
    assert_eq!(s.end_time, ClockTime { hour: 11, minute: 30, second: 0 });
    assert_eq!(s.room, "Hall A");
    assert_eq!(s.session_type, ParsedNasupSessionType::General);
    assert_eq!(s.title, "A Session Title");
    assert_eq!(s.description, "Describes things.");
    assert_eq!(s.presenters.len(), 2);
    assert_eq!(s.presenters[0].name, "Ada Lovelace");
    assert!(s.presenters[0].paid);
    assert_eq!(s.presenters[1].name, "Grace Hopper");
    assert!(!s.presenters[1].paid);
}

#[test]
fn session_row_errors() {
    assert_eq!(
        parse_nasup_session_from_row(3, &vec![]).err(),
        Some(ParseError::EmptyRow { row: 3 })
    );
    assert_eq!(
        parse_nasup_session_from_row(3, &vec![text("Monday")]).err(),
        Some(ParseError::TooFewCells { row: 3, got: 1, want: 9 })
    );

    let mut row = session_row();
    row[0] = text("Funday");
    assert_eq!(parse_nasup_session_from_row(2, &row).err(), Some(ParseError::BadWeekday { row: 2 }));

    let mut row = session_row();
    row[1] = date_cell(2026, 2, 30);
    assert_eq!(parse_nasup_session_from_row(2, &row).err(), Some(ParseError::BadDate { row: 2 }));

    let mut row = session_row();
    row[2] = time_cell(25, 0, 0);
    assert_eq!(parse_nasup_session_from_row(2, &row).err(), Some(ParseError::BadTime { row: 2, col: 2 }));

    let mut row = session_row();
    row[5] = text("Interpretive Dance");
    assert_eq!(
        parse_nasup_session_from_row(2, &row).err(),
        Some(ParseError::UnknownSessionType { row: 2 })
    );

    let mut row = session_row();
    row[5] = text("Paired Concurrent");
    assert_eq!(
        parse_nasup_session_from_row(2, &row).err(),
        Some(ParseError::UnknownTitlePrefix { row: 2 })
    );

    let mut row = session_row();
    row[4] = SheetCell::Other;
    assert_eq!(
        parse_nasup_session_from_row(2, &row).err(),
        Some(ParseError::BadCellKind { row: 2, col: 4 })
    );

    let mut row = session_row();
    row[9] = SheetCell::Other;
    assert_eq!(
        parse_nasup_session_from_row(2, &row).err(),
        Some(ParseError::BadCellKind { row: 2, col: 9 })
    );
}

#[test]
fn leap_day_is_accepted() {
    let mut row = session_row();
    row[1] = date_cell(2028, 2, 29);
    assert!(parse_nasup_session_from_row(2, &row).is_ok());
}

#[test]
fn session_type_discriminators() {
    assert_eq!(
        ParsedNasupSessionType::from_type_and_title("Symposium", "Anything"),
        Ok(ParsedNasupSessionType::Symposium)
    );
    assert_eq!(
        ParsedNasupSessionType::from_type_and_title("Paired Concurrent", "A: First"),
        Ok(ParsedNasupSessionType::PairedConcurrent(PairedConcurrentDiscriminant::A))
    );
    assert_eq!(
        ParsedNasupSessionType::from_type_and_title("Paired Concurrent", "B: Second"),
        Ok(ParsedNasupSessionType::PairedConcurrent(PairedConcurrentDiscriminant::B))
    );
    assert_eq!(
        ParsedNasupSessionType::from_type_and_title("Round Tables", "RT 4: Topic"),
        Ok(ParsedNasupSessionType::RoundTable(4))
    );
    assert_eq!(
        ParsedNasupSessionType::from_type_and_title("Round Tables", "Topic"),
        Err(SessionTypeError::UnknownTitlePrefix)
    );
    assert_eq!(
        ParsedNasupSessionType::from_type_and_title("Paired Concurrent", "X:"),
        Err(SessionTypeError::UnknownTitlePrefix)
    );
    assert_eq!(
        ParsedNasupSessionType::from_type_and_title("Whatever", "Anything"),
        Err(SessionTypeError::UnknownSessionType)
    );
}

#[test]
fn worksheet_parsing_skips_header_and_stops_at_first_error() {
    let header = vec![text("h"); 9];
    let rows = vec![header.clone(), session_row(), vec![text("x")]];
    // the second data row is too short
    assert_eq!(
        parse_nasup_sessions_from_worksheet(&rows).err(),
        Some(ParseError::TooFewCells { row: 2, got: 1, want: 9 })
    );
    let rows = vec![header, session_row(), session_row()];
    let parsed = parse_nasup_sessions_from_worksheet(&rows).unwrap();
    assert_eq!(parsed.len(), 2);
    assert_eq!(parsed[0].row_index, 1);
    assert_eq!(parsed[1].row_index, 2);
}

fn pi_row() -> Vec<SheetCell> {
    vec![
        text(" Shared Session "),
        text("Ada Lovelace, Grace Hopper"),
        SheetCell::Empty,
        text("Analytical Engines"),  // Ada, first
        SheetCell::Empty,            // Ada, second
        text("US Navy"),             // Grace, first
        text("Harvard"),             // Grace, second
        SheetCell::Empty,
        SheetCell::Empty,
    ]
}

#[test]
fn parses_presenter_institutions_row() {
    let rows = vec![vec![text("h"); 9], pi_row()];
    let records = parse_nasup_presenter_institutions_from_worksheet(&rows).unwrap();
    assert_eq!(records.len(), 2);
    assert_eq!(records[0].name, "Ada Lovelace");
    assert_eq!(records[0].session_name, "Shared Session");
    assert_eq!(records[0].first_institution, Some("Analytical Engines".to_string()));
    assert_eq!(records[0].second_institution, None);
    assert_eq!(records[1].name, "Grace Hopper");
    assert_eq!(records[1].first_institution, Some("US Navy".to_string()));
    assert_eq!(records[1].second_institution, Some("Harvard".to_string()));
}

#[test]
fn institution_cells_must_be_text_or_empty() {
    let mut row = pi_row();
    row[4] = SheetCell::Other;
    let rows = vec![vec![text("h"); 9], row];
    assert_eq!(
        parse_nasup_presenter_institutions_from_worksheet(&rows).err(),
        Some(ParseError::BadCellKind { row: 1, col: 4 })
    );
}

#[test]
fn parses_strands_row() {
    let row = vec![
        text(" A Session "),
        text("Ada Lovelace, Grace Hopper"),
        text(" Computing "),
        text(" Everyone "),
    ];
    let rows = vec![vec![text("h"); 4], row];
    let records = parse_nasup_strands_from_worksheet(&rows).unwrap();
    assert_eq!(records.len(), 1);
    assert_eq!(records[0].title, "A Session");
    assert_eq!(
        records[0].presenters,
        vec!["Ada Lovelace".to_string(), "Grace Hopper".to_string()]
    );
    assert_eq!(records[0].strand, "Computing");
    assert_eq!(records[0].intended_audience, "Everyone");
}

#[test]
fn strands_row_errors() {
    let rows = vec![vec![text("h"); 4], vec![text("t"), text("a")]];
    assert_eq!(
        parse_nasup_strands_from_worksheet(&rows).err(),
        Some(ParseError::TooFewCells { row: 1, got: 2, want: 4 })
    );
}

#[test]
fn session_type_labels() {
    assert_eq!(
        ParsedNasupSessionType::PairedConcurrent(PairedConcurrentDiscriminant::A).type_label(),
        "Paired Concurrent"
    );
    assert_eq!(ParsedNasupSessionType::RoundTable(3).type_label(), "Round Tables");
    assert_eq!(ParsedNasupSessionType::Symposium.type_label(), "Symposium");
}

#[test]
fn trimming_strips_both_ends() {
    assert_eq!(trim_text("  hi there\t\n"), "hi there");
    assert_eq!(trim_text("   "), "");
    assert_eq!(trim_text("x"), "x");
}

#[test]
fn splitting_on_comma_space() {
    assert_eq!(split_comma_space("a, b, c"), vec!["a", "b", "c"]);
    assert_eq!(split_comma_space("single"), vec!["single"]);
    assert_eq!(split_comma_space("a,b, c"), vec!["a,b", "c"]);
    assert_eq!(split_comma_space(""), vec![""]);
}

#[test]
fn finds_commas_missing_their_space() {
    assert_eq!(find_commas_without_following_whitespace("a,b, c"), vec![1]);
    assert_eq!(find_commas_without_following_whitespace("a, b"), Vec::<usize>::new());
    assert_eq!(find_commas_without_following_whitespace("x,"), Vec::<usize>::new());
    assert_eq!(find_commas_without_following_whitespace(",a,b"), vec![0, 2]);
}
