//! Synthesis: time-zone conversion, presenter and strand joins, the
//! correlation key, and the discriminator stripping.

use chrono::TimeZone;
use guidesync::calendar::{CalendarDate, ClockTime};
use guidesync::parse_nasup::parse_model::{
    ParsedNasupPresenterWithInstitutionBySession, ParsedNasupPresenterWithPaymentStatus,
    ParsedNasupSession, ParsedNasupSessionType, ParsedNasupStrandAndIntendedAudience,
};
use guidesync::synth_nasup::{
    strip_session_discriminators_from_name, synthesize_parsed_nasup_data, SynthError,
};

fn parsed_session(title: &str, presenters: Vec<(&str, bool)>) -> ParsedNasupSession {
    ParsedNasupSession {
        row_index: 2,
        date: CalendarDate { year: 2026, month: 6, day: 15 },
        start_time: ClockTime { hour: 10, minute: 0, second: 0 },
        end_time: ClockTime { hour: 11, minute: 30, second: 0 },
        room: "Hall A".to_string(),
        session_type: ParsedNasupSessionType::General,
        title: title.to_string(),
        description: "About things".to_string(),
        presenters: presenters
            .into_iter()
            .map(|(name, paid)| ParsedNasupPresenterWithPaymentStatus {
                name: name.to_string(),
                paid,
            })
            .collect(),
    }
}

fn eastern_ts(y: i32, mo: u32, d: u32, h: u32, mi: u32) -> i64 {
    chrono_tz::US::Eastern
        .with_ymd_and_hms(y, mo, d, h, mi, 0)
        .single()
        .unwrap()
        .timestamp()
}

#[test]
fn synthesis_converts_eastern_times_and_joins_records() {
    let sessions = vec![parsed_session("A: Joint Work", vec![("Ada", true), ("Grace", false)])];
    let institutions = vec![ParsedNasupPresenterWithInstitutionBySession {
        name: "Ada".to_string(),
        session_name: "Joint Work".to_string(),
        first_institution: Some("Analytical Engines".to_string()),
        second_institution: None,
    }];
    let strands = vec![ParsedNasupStrandAndIntendedAudience {
        title: "Joint Work".to_string(),
        presenters: vec!["Ada".to_string()],
        strand: "Computing".to_string(),
        intended_audience: "Everyone".to_string(),
    }];
    let out = synthesize_parsed_nasup_data(&sessions, &institutions, &strands).unwrap();
    assert_eq!(out.len(), 1);
    let ns = &out[0];
    assert_eq!(ns.start_datetime, eastern_ts(2026, 6, 15, 10, 0));
    assert_eq!(ns.end_datetime, eastern_ts(2026, 6, 15, 11, 30));
    assert_eq!(ns.title, "A: Joint Work");
    assert_eq!(ns.rank, 2);
    // only the paid presenter is kept, joined with its institutions by
    // the discriminator-stripped title
    assert_eq!(ns.approved_presenters.len(), 1);
    assert_eq!(ns.approved_presenters[0].name, "Ada");
    assert_eq!(
        ns.approved_presenters[0].first_institution,
        Some("Analytical Engines".to_string())
    );
    assert_eq!(ns.approved_presenters[0].second_institution, None);
    assert_eq!(ns.strand, Some("Computing".to_string()));
    assert_eq!(ns.intended_audience, Some("Everyone".to_string()));
}

#[test]
fn paid_presenter_without_record_keeps_no_institutions() {
    let sessions = vec![parsed_session("Solo", vec![("Nobody Known", true)])];
    let out = synthesize_parsed_nasup_data(&sessions, &vec![], &vec![]).unwrap();
    assert_eq!(out[0].approved_presenters.len(), 1);
    assert_eq!(out[0].approved_presenters[0].first_institution, None);
    assert_eq!(out[0].strand, None);
    assert_eq!(out[0].intended_audience, None);
}

#[test]
fn nonexistent_civil_time_is_an_error() {
    // 2:30 on the night the US clocks spring forward does not exist
    let mut s = parsed_session("Gap", vec![]);
    s.date = CalendarDate { year: 2026, month: 3, day: 8 };
    s.start_time = ClockTime { hour: 2, minute: 30, second: 0 };
    let r = synthesize_parsed_nasup_data(&vec![s], &vec![], &vec![]);
    assert_eq!(r.err(), Some(SynthError::TimeConversion { row: 2 }));
}

#[test]
fn discriminators_are_stripped_repeatedly() {
    assert_eq!(strip_session_discriminators_from_name("A: Topic"), "Topic");
    assert_eq!(strip_session_discriminators_from_name("B: RT 3: Topic"), "Topic");
    assert_eq!(strip_session_discriminators_from_name(" RT 6: Topic"), "Topic");
    assert_eq!(strip_session_discriminators_from_name("Plain"), "Plain");
    // without a discriminator the name is returned untouched
    assert_eq!(strip_session_discriminators_from_name("  Plain"), "  Plain");
}

#[test]
fn primary_key_is_a_stable_rendering_of_intrinsic_fields() {
    let sessions = vec![parsed_session("Keyed \"Session\"", vec![])];
    let out = synthesize_parsed_nasup_data(&sessions, &vec![], &vec![]).unwrap();
    let key = out[0].primary_key();
    let expected = format!(
        "{{\"name\":\"Keyed \\\"Session\\\"\",\"room\":\"Hall A\",\"start\":{},\"end\":{}}}",
        out[0].start_datetime, out[0].end_datetime
    );
    assert_eq!(key, expected);
    // stable: the same session yields the same key
    assert_eq!(key, out[0].primary_key());
}

#[test]
fn primary_key_uses_only_the_first_thirty_title_characters() {
    let long = "X".repeat(45);
    let mut s = parsed_session(&long, vec![]);
    s.room = "R".to_string();
    let out = synthesize_parsed_nasup_data(&vec![s], &vec![], &vec![]).unwrap();
    let key = out[0].primary_key();
    let expected_name = "X".repeat(30);
    assert!(key.starts_with(&format!("{{\"name\":\"{}\",\"room\":\"R\"", expected_name)));
}
