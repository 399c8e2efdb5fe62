//! Driving the whole pipeline through its linear chain of stages, and
//! the step errors.

use guidesync::calendar::{CalendarDate, ClockTime};
use guidesync::config::Config;
use guidesync::guidebook::model::{GuidebookPresenter, GuidebookScheduleTrack, GuidebookSession};
use guidesync::sheet::SheetCell;
use guidesync::state::{MasterState, StepError, StepEvent};

fn pipeline_config() -> Config {
    Config {
        guide_id: 7,
        api_key: "k".to_string(),
        presenter_custom_list_id: 3,
        spreadsheet_id_sessions: "s1".to_string(),
        spreadsheet_id_presenter_institutions: "s2".to_string(),
        spreadsheet_id_strands: "s3".to_string(),
    }
}

fn cell(value: &str) -> SheetCell {
    SheetCell::Text { value: value.to_string(), highlighted: false }
}

fn highlighted_cell(value: &str) -> SheetCell {
    SheetCell::Text { value: value.to_string(), highlighted: true }
}

fn sessions_worksheet() -> Vec<Vec<SheetCell>> {
    let date = SheetCell::DateTime {
        date: CalendarDate { year: 2026, month: 6, day: 15 },
        time: ClockTime { hour: 0, minute: 0, second: 0 },
    };
    let start = SheetCell::DateTime {
        date: CalendarDate { year: 1899, month: 12, day: 31 },
        time: ClockTime { hour: 10, minute: 0, second: 0 },
    };
    let end = SheetCell::DateTime {
        date: CalendarDate { year: 1899, month: 12, day: 31 },
        time: ClockTime { hour: 11, minute: 30, second: 0 },
    };
    vec![
        vec![cell("h"); 9],
        vec![
            cell("Monday"),
            date,
            start,
            end,
            cell("Hall A"),
            cell("General"),
            cell("Solo Talk"),
            cell("Great <stuff> & more"),
            highlighted_cell("Ada"),
        ],
    ]
}

fn pi_worksheet() -> Vec<Vec<SheetCell>> {
    vec![
        vec![cell("h"); 9],
        vec![
            cell("Solo Talk"),
            cell("Ada"),
            SheetCell::Empty,
            cell("Engines"),
            SheetCell::Empty,
            SheetCell::Empty,
            SheetCell::Empty,
            SheetCell::Empty,
            SheetCell::Empty,
        ],
    ]
}

fn strands_worksheet() -> Vec<Vec<SheetCell>> {
    vec![
        vec![cell("h"); 4],
        vec![cell("Solo Talk"), cell("Ada"), cell("Computing"), cell("Everyone")],
    ]
}

fn remote_track(name: &str, id: u32) -> GuidebookScheduleTrack {
    GuidebookScheduleTrack {
        id: Some(id),
        guide_id: 7,
        name: Some(name.to_string()),
        description_html: None,
        color: Some("#123456".to_string()),
        import_id: None,
    }
}

fn remote_presenter(name: &str, subtitle: &str, id: u32) -> GuidebookPresenter {
    GuidebookPresenter {
        id: Some(id),
        guide_id: 7,
        name: Some(name.to_string()),
        description_html: Some(String::new()),
        subtitle: Some(subtitle.to_string()),
        allow_rating: None,
        import_id: None,
        locations: None,
        contact_email: None,
    }
}

#[test]
fn pipeline_runs_to_completion() {
    let config = pipeline_config();
    let state = MasterState::Start;
    assert!(!state.completed());

    // fetch the three sheets
    let state = state
        .step(
            &config,
            StepEvent::SheetsFetched {
                sessions_worksheet: sessions_worksheet(),
                presenter_worksheet: pi_worksheet(),
                strands_worksheet: strands_worksheet(),
            },
        )
        .unwrap();

    // parse
    let state = state.step(&config, StepEvent::Proceed).unwrap();
    match &state {
        MasterState::ParsedInputs { sessions, presenters, strands } => {
            assert_eq!(sessions.len(), 1);
            assert_eq!(presenters.len(), 1);
            assert_eq!(strands.len(), 1);
        },
        _ => panic!("expected parsed inputs"),
    }

    // synthesize
    let state = state.step(&config, StepEvent::Proceed).unwrap();
    match &state {
        MasterState::SynthesizedInputs { sessions } => {
            assert_eq!(sessions.len(), 1);
            assert_eq!(sessions[0].strand, Some("Computing".to_string()));
        },
        _ => panic!("expected synthesized inputs"),
    }

    // fetch remote tracks (none yet), then reconcile them
    let state = state
        .step(&config, StepEvent::StrandsFetched { existing_strands: vec![] })
        .unwrap();
    let state = state.step(&config, StepEvent::Proceed).unwrap();
    match &state {
        MasterState::CalculatedStrandsReconciliation { strands_reconciliation, .. } => {
            let names: Vec<Option<String>> = strands_reconciliation
                .strands_to_create
                .iter()
                .map(|t| t.name.clone())
                .collect();
            assert_eq!(
                names,
                vec![Some("Computing".to_string()), Some("Everyone".to_string())]
            );
        },
        _ => panic!("expected strands reconciliation"),
    }

    // execute the track creations and re-fetch
    let state = state
        .step(
            &config,
            StepEvent::StrandsReconciliationExecuted {
                existing_strands: vec![remote_track("Computing", 1), remote_track("Everyone", 2)],
            },
        )
        .unwrap();

    // fetch remote presenters (none yet), reconcile, execute, re-fetch
    let state = state
        .step(&config, StepEvent::PresentersFetched { existing_presenters: vec![] })
        .unwrap();
    let state = state.step(&config, StepEvent::Proceed).unwrap();
    match &state {
        MasterState::CalculatedPresenterReconciliation { presenter_reconciliation, .. } => {
            assert_eq!(presenter_reconciliation.presenters_to_create.len(), 1);
            assert_eq!(
                presenter_reconciliation.presenters_to_create[0].subtitle,
                Some("Engines".to_string())
            );
            assert!(presenter_reconciliation.presenters_to_update.is_empty());
        },
        _ => panic!("expected presenter reconciliation"),
    }
    let state = state
        .step(
            &config,
            StepEvent::PresenterReconciliationExecuted {
                existing_presenters: vec![remote_presenter("Ada", "Engines", 50)],
            },
        )
        .unwrap();

    // fetch remote sessions (none yet): the intended payloads are built
    let state = state
        .step(&config, StepEvent::SessionsFetched { existing_sessions: vec![] })
        .unwrap();
    let key: String;
    match &state {
        MasterState::FetchedGuidebookSessionState {
            intended_sessions,
            intended_session_import_id_to_presenter_link_map,
            ..
        } => {
            assert_eq!(intended_sessions.len(), 1);
            let s = &intended_sessions[0];
            assert_eq!(s.name, Some("Solo Talk".to_string()));
            assert_eq!(
                s.description_html,
                Some("<h1>Solo Talk</h1>Great &lt;stuff&gt; &amp; more".to_string())
            );
            assert_eq!(s.schedule_tracks, Some(vec![1, 2]));
            key = s.import_id.clone().unwrap();
            assert_eq!(
                intended_session_import_id_to_presenter_link_map[0],
                (key.clone(), vec![50])
            );
        },
        _ => panic!("expected fetched session state"),
    }

    // reconcile sessions: one creation
    let state = state.step(&config, StepEvent::Proceed).unwrap();
    match &state {
        MasterState::CalculatedSessionReconciliation { session_reconciliation, .. } => {
            assert_eq!(session_reconciliation.sessions_to_create.len(), 1);
            assert!(session_reconciliation.sessions_to_update.is_empty());
            assert!(session_reconciliation.orphaned_existing_import_ids.is_empty());
        },
        _ => panic!("expected session reconciliation"),
    }

    // execute and re-fetch: the created session now has a remote ID, so
    // the link map resolves to an adjacency
    let mut created = GuidebookSession {
        id: Some(900),
        guide_id: 7,
        name: Some("Solo Talk".to_string()),
        description_html: None,
        start_time: 0,
        end_time: None,
        all_day: None,
        allow_rating: None,
        add_to_schedule: None,
        import_id: Some(key),
        locations: None,
        schedule_tracks: None,
        rank: None,
        registration_start_date: None,
        registration_end_date: None,
        require_login: None,
        waitlist: None,
        max_capacity: None,
    };
    created.rank = Some(1);
    let state = state
        .step(
            &config,
            StepEvent::SessionReconciliationExecuted { existing_sessions: vec![created] },
        )
        .unwrap();
    match &state {
        MasterState::ExecutedSessionReconciliation { intended_session_to_presenter_link_map } => {
            assert_eq!(intended_session_to_presenter_link_map, &vec![(900u32, vec![50u32])]);
        },
        _ => panic!("expected executed session reconciliation"),
    }

    // synchronize links
    let state = state.step(&config, StepEvent::LinksSynchronized).unwrap();
    assert!(state.completed());
}

#[test]
fn mismatched_event_is_rejected() {
    let config = pipeline_config();
    let r = MasterState::Start.step(&config, StepEvent::Proceed);
    assert_eq!(r.err(), Some(StepError::UnexpectedEvent));
}

#[test]
fn duplicate_import_keys_abort_the_run() {
    let config = pipeline_config();
    let dup = GuidebookSession {
        id: None,
        guide_id: 7,
        name: None,
        description_html: None,
        start_time: 0,
        end_time: None,
        all_day: None,
        allow_rating: None,
        add_to_schedule: None,
        import_id: Some("same".to_string()),
        locations: None,
        schedule_tracks: None,
        rank: None,
        registration_start_date: None,
        registration_end_date: None,
        require_login: None,
        waitlist: None,
        max_capacity: None,
    };
    let state = MasterState::FetchedGuidebookSessionState {
        intended_sessions: vec![dup.clone(), dup.clone()],
        existing_sessions: vec![],
        intended_session_import_id_to_presenter_link_map: vec![],
    };
    let r = state.step(&config, StepEvent::Proceed);
    assert_eq!(r.err(), Some(StepError::DuplicateImportKey));

    let mut remote = dup.clone();
    remote.id = Some(1);
    let mut ok_intended = dup.clone();
    ok_intended.import_id = Some("one".to_string());
    let state = MasterState::FetchedGuidebookSessionState {
        intended_sessions: vec![ok_intended],
        existing_sessions: vec![remote.clone(), remote],
        intended_session_import_id_to_presenter_link_map: vec![],
    };
    let r = state.step(&config, StepEvent::Proceed);
    assert_eq!(r.err(), Some(StepError::DuplicateRemoteKey));
}

#[test]
fn malformed_sheet_aborts_with_a_parse_error() {
    let config = pipeline_config();
    let state = MasterState::FetchedSheets {
        sessions_worksheet: vec![vec![cell("h"); 9], vec![cell("short")]],
        presenter_worksheet: pi_worksheet(),
        strands_worksheet: strands_worksheet(),
    };
    let r = state.step(&config, StepEvent::Proceed);
    assert_eq!(
        r.err(),
        Some(StepError::Parse(
            guidesync::parse_nasup::parse_model::ParseError::TooFewCells { row: 1, got: 1, want: 9 }
        ))
    );
}
