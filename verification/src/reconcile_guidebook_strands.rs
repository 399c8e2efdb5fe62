//! Set reconciliation for schedule tracks (strands and intended
//! audiences).
//!
//! Tracks are matched by name and are create-only: a track whose name is
//! not yet known remotely is created, everything else is left untouched.

use vstd::prelude::*;
use vstd::seq_lib::*;

use crate::guidebook::model::{GuidebookScheduleTrack, GuidebookScheduleTrackV};

verus! {

/// The outcome of reconciling desired schedule tracks against remote
/// ones.
pub struct StrandsReconciliation {
    pub strands_to_create: Vec<GuidebookScheduleTrack>,
}

/// True when some remote track carries the given name.
pub open spec fn spec_track_name_known(
    e: Seq<GuidebookScheduleTrackV>,
    name: Option<Seq<char>>,
) -> bool {
    exists|i: int| 0 <= i < e.len() && (#[trigger] e[i].name) == name
}

/// What reconciliation does with one desired track: kept whole exactly
/// when its name has no remote counterpart.
pub open spec fn spec_track_create_entry(
    e: Seq<GuidebookScheduleTrackV>,
    st: GuidebookScheduleTrackV,
) -> Option<GuidebookScheduleTrackV> {
    if spec_track_name_known(e, st.name) {
        None
    } else {
        Some(st)
    }
}

/// The schedule tracks to create, in desired order.
pub open spec fn spec_tracks_to_create(
    d: Seq<GuidebookScheduleTrackV>,
    e: Seq<GuidebookScheduleTrackV>,
) -> Seq<GuidebookScheduleTrackV> {
    d.filter_map(|st: GuidebookScheduleTrackV| spec_track_create_entry(e, st))
}

/// True when a track with the given name stands in the list.
fn track_name_known(list: &Vec<GuidebookScheduleTrack>, name: &Option<String>) -> (r: bool)
    ensures
        r == spec_track_name_known(list.deep_view(), name.deep_view()),
{
    let ghost e = list.deep_view();
    let mut i: usize = 0;
    while i < list.len()
        invariant
            0 <= i <= list.len(),
            e == list.deep_view(),
            e.len() == list.len(),
            forall|j: int| 0 <= j < i ==> (#[trigger] e[j].name) != name.deep_view(),
        decreases list.len() - i,
    {
        if crate::reconcile_guidebook_presenters::opt_text_eq(&list[i].name, name) {
            assert(e[i as int].name == name.deep_view());
            return true;
        }
        assert(e[i as int].name != name.deep_view());
        i += 1;
    }
    false
}

/// Keeps exactly the desired schedule tracks whose name is not yet known
/// remotely; tracks are never patched or deleted.
pub fn reconcile_intended_and_existing_guidebook_schedule_tracks(
    intended_schedule_tracks: &Vec<GuidebookScheduleTrack>,
    existing_schedule_tracks: &Vec<GuidebookScheduleTrack>,
) -> (r: StrandsReconciliation)
    ensures
        r.strands_to_create.deep_view() == spec_tracks_to_create(
            intended_schedule_tracks.deep_view(),
            existing_schedule_tracks.deep_view(),
        ),
{
    broadcast use vstd::seq_lib::group_seq_properties;

    let ghost d = intended_schedule_tracks.deep_view();
    let ghost e = existing_schedule_tracks.deep_view();

    let mut strands_to_create: Vec<GuidebookScheduleTrack> = Vec::new();
    let ghost f_create = |st: GuidebookScheduleTrackV| spec_track_create_entry(e, st);

    let mut i: usize = 0;
    while i < intended_schedule_tracks.len()
        invariant
            0 <= i <= intended_schedule_tracks.len(),
            d == intended_schedule_tracks.deep_view(),
            e == existing_schedule_tracks.deep_view(),
            d.len() == intended_schedule_tracks.len(),
            f_create == (|st: GuidebookScheduleTrackV| spec_track_create_entry(e, st)),
            strands_to_create.deep_view() == d.take(i as int).filter_map(f_create),
        decreases intended_schedule_tracks.len() - i,
    {
        let st = &intended_schedule_tracks[i];
        let ghost sv = d[i as int];
        assert(sv == st.deep_view());
        if !track_name_known(existing_schedule_tracks, &st.name) {
            strands_to_create.push(st.clone());
            proof {
                assert(f_create(sv) == Some(sv));
                d.lemma_filter_map_take_succ(f_create, i as int);
                assert(strands_to_create.deep_view() =~= d.take(i + 1).filter_map(f_create));
            }
        } else {
            proof {
                assert(f_create(sv) is None);
                d.lemma_filter_map_take_succ(f_create, i as int);
                assert(strands_to_create.deep_view() =~= d.take(i + 1).filter_map(f_create));
            }
        }
        i += 1;
    }
    proof {
        assert(d.take(d.len() as int) =~= d);
    }

    StrandsReconciliation { strands_to_create }
}

} // verus!
