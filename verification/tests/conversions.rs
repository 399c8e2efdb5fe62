//! Conversions from desired sessions to remote entity shapes: tracks,
//! presenters, and the full session payload with resolved references.

use guidesync::config::Config;
use guidesync::guidebook::model::{GuidebookPresenter, GuidebookScheduleTrack};
use guidesync::nasup_to_guidebook::{
    nasup_presenter_to_guidebook_presenter, nasup_session_to_guidebook_session,
    nasup_sessions_to_guidebook_presenters, nasup_sessions_to_guidebook_schedule_tracks, WithLinks,
};
use guidesync::parse_nasup::parse_model::ParsedNasupSessionType;
use guidesync::synth_nasup::{NasupPresenter, NasupSession};

fn test_config() -> Config {
    Config {
        guide_id: 7,
        api_key: "k".to_string(),
        presenter_custom_list_id: 3,
        spreadsheet_id_sessions: "s1".to_string(),
        spreadsheet_id_presenter_institutions: "s2".to_string(),
        spreadsheet_id_strands: "s3".to_string(),
    }
}

fn nasup_session(
    title: &str,
    strand: Option<&str>,
    audience: Option<&str>,
    presenters: Vec<NasupPresenter>,
) -> NasupSession {
    NasupSession {
        start_datetime: 1_000,
        end_datetime: 2_000,
        room: "Hall A".to_string(),
        session_type: ParsedNasupSessionType::General,
        title: title.to_string(),
        description: "Great <stuff> & more".to_string(),
        approved_presenters: presenters,
        strand: strand.map(|s| s.to_string()),
        intended_audience: audience.map(|s| s.to_string()),
        rank: 2,
    }
}

fn ada() -> NasupPresenter {
    NasupPresenter {
        name: "Ada".to_string(),
        first_institution: Some("Engines".to_string()),
        second_institution: Some("London".to_string()),
    }
}

#[test]
fn tracks_are_distinct_strands_then_audiences() {
    let sessions = vec![
        nasup_session("One", Some("Computing"), Some("Everyone"), vec![]),
        nasup_session("Two", Some("Computing"), Some("Leaders"), vec![]),
        nasup_session("Three", None, Some("Everyone"), vec![]),
    ];
    let tracks = nasup_sessions_to_guidebook_schedule_tracks(&test_config(), &sessions);
    let names: Vec<Option<String>> = tracks.iter().map(|t| t.name.clone()).collect();
    assert_eq!(
        names,
        vec![
            Some("Computing".to_string()),
            Some("Everyone".to_string()),
            Some("Leaders".to_string()),
        ]
    );
    for t in &tracks {
        assert_eq!(t.guide_id, 7);
        assert_eq!(t.id, None);
        assert_eq!(t.color, None);
    }
}

#[test]
fn presenter_subtitle_joins_institutions() {
    let p = nasup_presenter_to_guidebook_presenter(&test_config(), &ada());
    assert_eq!(p.name, Some("Ada".to_string()));
    assert_eq!(p.subtitle, Some("Engines, London".to_string()));
    assert_eq!(p.description_html, Some(String::new()));

    let solo = NasupPresenter {
        name: "Solo".to_string(),
        first_institution: None,
        second_institution: None,
    };
    let p2 = nasup_presenter_to_guidebook_presenter(&test_config(), &solo);
    assert_eq!(p2.subtitle, Some(String::new()));
}

#[test]
fn presenters_are_deduplicated_across_sessions() {
    let sessions = vec![
        nasup_session("One", None, None, vec![ada()]),
        nasup_session("Two", None, None, vec![ada()]),
    ];
    let ps = nasup_sessions_to_guidebook_presenters(&test_config(), &sessions);
    assert_eq!(ps.len(), 1);
    assert_eq!(ps[0].name, Some("Ada".to_string()));
}

#[test]
fn session_payload_resolves_tracks_and_links() {
    let track = |name: &str, id: u32| GuidebookScheduleTrack {
        id: Some(id),
        guide_id: 7,
        name: Some(name.to_string()),
        description_html: None,
        color: Some("#101010".to_string()),
        import_id: None,
    };
    let existing_tracks = vec![track("Computing", 1), track("Everyone", 2)];
    let existing_presenter = GuidebookPresenter {
        id: Some(50),
        guide_id: 7,
        name: Some("Ada".to_string()),
        description_html: Some(String::new()),
        subtitle: Some("Engines, London".to_string()),
        allow_rating: None,
        import_id: None,
        locations: None,
        contact_email: None,
    };
    let ns = nasup_session("A: Solo Talk", Some("Computing"), Some("Everyone"), vec![ada()]);
    let WithLinks(session, links) = nasup_session_to_guidebook_session(
        &test_config(),
        &ns,
        &existing_tracks,
        &vec![existing_presenter],
    );
    assert_eq!(session.name, Some("Solo Talk".to_string()));
    assert_eq!(
        session.description_html,
        Some("<h1>Solo Talk</h1>Great &lt;stuff&gt; &amp; more".to_string())
    );
    assert_eq!(session.start_time, 1_000);
    assert_eq!(session.end_time, Some(2_000));
    assert_eq!(session.schedule_tracks, Some(vec![1, 2]));
    assert_eq!(session.rank, Some(1));
    assert_eq!(session.import_id, Some(ns.primary_key()));
    assert_eq!(session.require_login, Some(true));
    assert_eq!(session.add_to_schedule, Some(true));
    assert_eq!(links, vec![50]);
}

#[test]
fn unknown_tracks_and_presenters_are_skipped() {
    let ns = nasup_session("Talk", Some("Missing Strand"), None, vec![ada()]);
    let WithLinks(session, links) =
        nasup_session_to_guidebook_session(&test_config(), &ns, &vec![], &vec![]);
    assert_eq!(session.schedule_tracks, Some(vec![]));
    assert_eq!(links, Vec::<u32>::new());
}
