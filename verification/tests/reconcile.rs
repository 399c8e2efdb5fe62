//! The set reconcilers: the create/update/orphan partition, idempotence
//! after applying a result, and the create-only reconcilers.

use guidesync::guidebook::model::{
    GuidebookLocation, GuidebookPresenter, GuidebookScheduleTrack, GuidebookSession,
};
use guidesync::reconcile_guidebook::reconcile_intended_and_existing_guidebook_sessions;
use guidesync::reconcile_guidebook_locations::reconcile_intended_and_existing_guidebook_locations;
use guidesync::reconcile_guidebook_presenters::reconcile_intended_and_existing_guidebook_presenters;
use guidesync::reconcile_guidebook_strands::reconcile_intended_and_existing_guidebook_schedule_tracks;

fn session_with_key(import_id: Option<&str>, id: Option<u32>, rank: Option<u32>) -> GuidebookSession {
    GuidebookSession {
        id,
        guide_id: 7,
        name: None,
        description_html: None,
        start_time: 1_000,
        end_time: None,
        all_day: None,
        allow_rating: None,
        add_to_schedule: None,
        import_id: import_id.map(|s| s.to_string()),
        locations: None,
        schedule_tracks: None,
        rank,
        registration_start_date: None,
        registration_end_date: None,
        require_login: None,
        waitlist: None,
        max_capacity: None,
    }
}

#[test]
fn scenario_create_update_orphan() {
    // desired sessions {k1: create, k2: update(rank: 2)},
    // existing {k2: rank=1, k3: unmatched}
    let intended = vec![
        session_with_key(Some("k1"), None, None),
        session_with_key(Some("k2"), None, Some(2)),
    ];
    let existing = vec![
        session_with_key(Some("k2"), Some(22), Some(1)),
        session_with_key(Some("k3"), Some(33), None),
    ];
    let r = reconcile_intended_and_existing_guidebook_sessions(&intended, &existing);

    assert_eq!(r.sessions_to_create.len(), 1);
    assert_eq!(r.sessions_to_create[0].import_id, Some("k1".to_string()));

    assert_eq!(r.sessions_to_update.len(), 1);
    let patch = &r.sessions_to_update[0];
    assert_eq!(patch.id, Some(22));
    assert_eq!(patch.rank, Some(2));
    assert_eq!(patch.import_id, Some("k2".to_string()));
    assert_eq!(patch.name, None);

    assert_eq!(r.orphaned_existing_import_ids, vec!["k3".to_string()]);
}

#[test]
fn unkeyed_remote_sessions_are_left_out() {
    let intended = vec![session_with_key(Some("k1"), None, None)];
    let existing = vec![session_with_key(None, Some(9), None)];
    let r = reconcile_intended_and_existing_guidebook_sessions(&intended, &existing);
    // the keyless remote session is neither matched nor orphaned
    assert_eq!(r.sessions_to_create.len(), 1);
    assert_eq!(r.sessions_to_update.len(), 0);
    assert!(r.orphaned_existing_import_ids.is_empty());
}

#[test]
fn empty_patches_are_not_submitted() {
    let intended = vec![session_with_key(Some("k"), None, Some(3))];
    let existing = vec![session_with_key(Some("k"), Some(1), Some(3))];
    let r = reconcile_intended_and_existing_guidebook_sessions(&intended, &existing);
    assert!(r.sessions_to_create.is_empty());
    assert!(r.sessions_to_update.is_empty());
    assert!(r.orphaned_existing_import_ids.is_empty());
}

/// Applies a reconciliation result the way the remote platform would:
/// patches in place, creations appended with fresh IDs.
fn apply_session_result(
    r: &guidesync::reconcile_guidebook::SessionReconciliation,
    existing: &[GuidebookSession],
    mut next_id: u32,
) -> Vec<GuidebookSession> {
    let mut out: Vec<GuidebookSession> = Vec::new();
    for e in existing {
        let mut e2 = e.clone();
        for p in &r.sessions_to_update {
            if p.id == e.id {
                if let Some(v) = &p.name {
                    e2.name = Some(v.clone());
                }
                if let Some(v) = &p.description_html {
                    e2.description_html = Some(v.clone());
                }
                e2.start_time = p.start_time;
                if let Some(v) = p.end_time {
                    e2.end_time = Some(v);
                }
                if let Some(v) = p.all_day {
                    e2.all_day = Some(v);
                }
                if let Some(v) = p.allow_rating {
                    e2.allow_rating = Some(v);
                }
                if let Some(v) = p.add_to_schedule {
                    e2.add_to_schedule = Some(v);
                }
                if let Some(v) = &p.locations {
                    e2.locations = Some(v.clone());
                }
                if let Some(v) = &p.schedule_tracks {
                    e2.schedule_tracks = Some(v.clone());
                }
                if let Some(v) = p.rank {
                    e2.rank = Some(v);
                }
                if let Some(v) = p.registration_start_date {
                    e2.registration_start_date = Some(v);
                }
                if let Some(v) = p.registration_end_date {
                    e2.registration_end_date = Some(v);
                }
                if let Some(v) = p.require_login {
                    e2.require_login = Some(v);
                }
                if let Some(v) = p.waitlist {
                    e2.waitlist = Some(v);
                }
                if let Some(v) = p.max_capacity {
                    e2.max_capacity = Some(v);
                }
            }
        }
        out.push(e2);
    }
    for c in &r.sessions_to_create {
        let mut c2 = c.clone();
        c2.id = Some(next_id);
        next_id += 1;
        out.push(c2);
    }
    out
}

#[test]
fn reconcile_is_idempotent_after_apply() {
    let mut s1 = session_with_key(Some("k1"), None, Some(1));
    s1.name = Some("One".to_string());
    let mut s2 = session_with_key(Some("k2"), None, Some(2));
    s2.name = Some("Two".to_string());
    let intended = vec![s1, s2];
    let existing = vec![
        session_with_key(Some("k2"), Some(22), Some(9)),
        session_with_key(Some("k3"), Some(33), None),
    ];

    let first = reconcile_intended_and_existing_guidebook_sessions(&intended, &existing);
    assert_eq!(first.sessions_to_create.len(), 1);
    assert_eq!(first.sessions_to_update.len(), 1);

    let refetched = apply_session_result(&first, &existing, 100);
    let second = reconcile_intended_and_existing_guidebook_sessions(&intended, &refetched);
    assert!(second.sessions_to_create.is_empty());
    assert!(second.sessions_to_update.is_empty());
    // only the orphan remains
    assert_eq!(second.orphaned_existing_import_ids, vec!["k3".to_string()]);
}

fn presenter_named(name: &str, subtitle: &str, id: Option<u32>) -> GuidebookPresenter {
    GuidebookPresenter {
        id,
        guide_id: 7,
        name: Some(name.to_string()),
        description_html: Some(String::new()),
        subtitle: Some(subtitle.to_string()),
        allow_rating: None,
        import_id: None,
        locations: None,
        contact_email: None,
    }
}

#[test]
fn presenters_match_by_name_and_subtitle() {
    let intended = vec![
        presenter_named("Ada", "Uni A", None),
        presenter_named("Grace", "Navy", None),
    ];
    let existing = vec![presenter_named("Ada", "Uni A", Some(4))];
    let r = reconcile_intended_and_existing_guidebook_presenters(&intended, &existing);
    assert_eq!(r.presenters_to_create.len(), 1);
    assert_eq!(r.presenters_to_create[0].name, Some("Grace".to_string()));
    // Ada matches and nothing differs
    assert!(r.presenters_to_update.is_empty());
}

#[test]
fn empty_intended_subtitle_matches_any_existing() {
    let intended = vec![presenter_named("Ada", "", None)];
    let existing = vec![presenter_named("Ada", "Uni A", Some(4))];
    let r = reconcile_intended_and_existing_guidebook_presenters(&intended, &existing);
    assert!(r.presenters_to_create.is_empty());
    // the subtitle differs, so a patch is generated, carrying the remote ID
    assert_eq!(r.presenters_to_update.len(), 1);
    assert_eq!(r.presenters_to_update[0].id, Some(4));
    assert_eq!(r.presenters_to_update[0].subtitle, Some(String::new()));
}

fn track_named(name: &str) -> GuidebookScheduleTrack {
    GuidebookScheduleTrack {
        id: None,
        guide_id: 7,
        name: Some(name.to_string()),
        description_html: None,
        color: None,
        import_id: None,
    }
}

#[test]
fn strands_are_create_only_by_name() {
    let intended = vec![track_named("Literacy"), track_named("Leadership")];
    let existing = vec![track_named("Leadership")];
    let r = reconcile_intended_and_existing_guidebook_schedule_tracks(&intended, &existing);
    assert_eq!(r.strands_to_create.len(), 1);
    assert_eq!(r.strands_to_create[0].name, Some("Literacy".to_string()));
}

#[test]
fn locations_are_create_only_by_name() {
    let mk = |name: &str| GuidebookLocation {
        id: None,
        guide_id: 7,
        name: Some(name.to_string()),
        description_html: None,
        import_id: None,
    };
    let intended = vec![mk("Hall A"), mk("Hall B")];
    let existing = vec![mk("Hall B")];
    let r = reconcile_intended_and_existing_guidebook_locations(&intended, &existing);
    assert_eq!(r.locations_to_create.len(), 1);
    assert_eq!(r.locations_to_create[0].name, Some("Hall A".to_string()));
}
