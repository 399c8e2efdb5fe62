//! The patch-diff engine: minimality, emptiness, and the never-diffed
//! fields.

use guidesync::guidebook::model::{GuidebookPresenter, GuidebookSession};

fn base_session(import_id: Option<&str>) -> GuidebookSession {
    GuidebookSession {
        id: None,
        guide_id: 7,
        name: None,
        description_html: None,
        start_time: 1_000,
        end_time: None,
        all_day: None,
        allow_rating: None,
        add_to_schedule: None,
        import_id: import_id.map(|s| s.to_string()),
        locations: None,
        schedule_tracks: None,
        rank: None,
        registration_start_date: None,
        registration_end_date: None,
        require_login: None,
        waitlist: None,
        max_capacity: None,
    }
}

#[test]
fn patch_sets_changed_fields_only() {
    let mut intended = base_session(Some("k"));
    intended.name = Some("New name".to_string());
    intended.rank = Some(2);
    let mut existing = base_session(Some("k"));
    existing.id = Some(44);
    existing.guide_id = 9;
    existing.name = Some("Old name".to_string());
    existing.rank = Some(2);
    existing.waitlist = Some(true);

    let patch = GuidebookSession::generate_patch_diff(&intended, &existing);
    // changed: set to the intended value
    assert_eq!(patch.name, Some("New name".to_string()));
    // equal: omitted
    assert_eq!(patch.rank, None);
    // absent on the intended side: omitted, never cleared
    assert_eq!(patch.waitlist, None);
    // never diffed: remote-owned fields ride along
    assert_eq!(patch.id, None);
    assert_eq!(patch.guide_id, 9);
    assert_eq!(patch.import_id, Some("k".to_string()));
    assert!(!patch.is_empty_patch());
}

#[test]
fn patch_fills_missing_fields() {
    let mut intended = base_session(Some("k"));
    intended.max_capacity = Some(30);
    let existing = base_session(Some("k"));
    let patch = GuidebookSession::generate_patch_diff(&intended, &existing);
    assert_eq!(patch.max_capacity, Some(30));
    assert!(!patch.is_empty_patch());
}

#[test]
fn identical_sessions_give_empty_patch() {
    let mut intended = base_session(Some("k"));
    intended.name = Some("Same".to_string());
    intended.schedule_tracks = Some(vec![1, 2]);
    let mut existing = base_session(Some("k"));
    existing.name = Some("Same".to_string());
    existing.schedule_tracks = Some(vec![1, 2]);
    let patch = GuidebookSession::generate_patch_diff(&intended, &existing);
    assert!(patch.is_empty_patch());
}

#[test]
fn absent_description_is_preserved_not_cleared() {
    // a desired entity with no description patched against an existing
    // entity that has one: the patch omits the field entirely
    let intended = base_session(Some("k"));
    let mut existing = base_session(Some("k"));
    existing.description_html = Some("x".to_string());
    let patch = GuidebookSession::generate_patch_diff(&intended, &existing);
    assert_eq!(patch.description_html, None);
    assert!(patch.is_empty_patch());
}

#[test]
fn id_list_fields_diff_by_contents() {
    let mut intended = base_session(Some("k"));
    intended.locations = Some(vec![1, 2, 3]);
    let mut existing = base_session(Some("k"));
    existing.locations = Some(vec![1, 2]);
    let patch = GuidebookSession::generate_patch_diff(&intended, &existing);
    assert_eq!(patch.locations, Some(vec![1, 2, 3]));
}

fn base_presenter() -> GuidebookPresenter {
    GuidebookPresenter {
        id: None,
        guide_id: 7,
        name: None,
        description_html: None,
        subtitle: None,
        allow_rating: None,
        import_id: None,
        locations: None,
        contact_email: None,
    }
}

#[test]
fn presenter_patch_minimality() {
    let mut intended = base_presenter();
    intended.name = Some("Ada".to_string());
    intended.subtitle = Some("Somewhere".to_string());
    let mut existing = base_presenter();
    existing.id = Some(5);
    existing.name = Some("Ada".to_string());
    existing.subtitle = Some("Elsewhere".to_string());
    existing.contact_email = Some("a@b".to_string());

    let patch = GuidebookPresenter::generate_patch_diff(&intended, &existing);
    assert_eq!(patch.name, None);
    assert_eq!(patch.subtitle, Some("Somewhere".to_string()));
    assert_eq!(patch.contact_email, None);
    assert_eq!(patch.id, None);
    assert!(!patch.is_empty_patch());

    let same = GuidebookPresenter::generate_patch_diff(&existing, &existing);
    assert!(same.is_empty_patch());
}
