//! Set reconciliation for locations.
//!
//! Locations are matched by name and are create-only, exactly like
//! schedule tracks.

use vstd::prelude::*;
use vstd::seq_lib::*;

use crate::guidebook::model::{GuidebookLocation, GuidebookLocationV};

verus! {

/// The outcome of reconciling desired locations against remote ones.
pub struct LocationsReconciliation {
    pub locations_to_create: Vec<GuidebookLocation>,
}

/// True when some remote location carries the given name.
pub open spec fn spec_location_name_known(
    e: Seq<GuidebookLocationV>,
    name: Option<Seq<char>>,
) -> bool {
    exists|i: int| 0 <= i < e.len() && (#[trigger] e[i].name) == name
}

/// What reconciliation does with one desired location: kept whole exactly
/// when its name has no remote counterpart.
pub open spec fn spec_location_create_entry(
    e: Seq<GuidebookLocationV>,
    l: GuidebookLocationV,
) -> Option<GuidebookLocationV> {
    if spec_location_name_known(e, l.name) {
        None
    } else {
        Some(l)
    }
}

/// The locations to create, in desired order.
pub open spec fn spec_locations_to_create(
    d: Seq<GuidebookLocationV>,
    e: Seq<GuidebookLocationV>,
) -> Seq<GuidebookLocationV> {
    d.filter_map(|l: GuidebookLocationV| spec_location_create_entry(e, l))
}

/// True when a location with the given name stands in the list.
fn location_name_known(list: &Vec<GuidebookLocation>, name: &Option<String>) -> (r: bool)
    ensures
        r == spec_location_name_known(list.deep_view(), name.deep_view()),
{
    let ghost e = list.deep_view();
    let mut i: usize = 0;
    while i < list.len()
        invariant
            0 <= i <= list.len(),
            e == list.deep_view(),
            e.len() == list.len(),
            forall|j: int| 0 <= j < i ==> (#[trigger] e[j].name) != name.deep_view(),
        decreases list.len() - i,
    {
        if crate::reconcile_guidebook_presenters::opt_text_eq(&list[i].name, name) {
            assert(e[i as int].name == name.deep_view());
            return true;
        }
        assert(e[i as int].name != name.deep_view());
        i += 1;
    }
    false
}

/// Keeps exactly the desired locations whose name is not yet known
/// remotely; locations are never patched or deleted.
pub fn reconcile_intended_and_existing_guidebook_locations(
    intended_locations: &Vec<GuidebookLocation>,
    existing_locations: &Vec<GuidebookLocation>,
) -> (r: LocationsReconciliation)
    ensures
        r.locations_to_create.deep_view() == spec_locations_to_create(
            intended_locations.deep_view(),
            existing_locations.deep_view(),
        ),
{
    broadcast use vstd::seq_lib::group_seq_properties;

    let ghost d = intended_locations.deep_view();
    let ghost e = existing_locations.deep_view();

    let mut locations_to_create: Vec<GuidebookLocation> = Vec::new();
    let ghost f_create = |l: GuidebookLocationV| spec_location_create_entry(e, l);

    let mut i: usize = 0;
    while i < intended_locations.len()
        invariant
            0 <= i <= intended_locations.len(),
            d == intended_locations.deep_view(),
            e == existing_locations.deep_view(),
            d.len() == intended_locations.len(),
            f_create == (|l: GuidebookLocationV| spec_location_create_entry(e, l)),
            locations_to_create.deep_view() == d.take(i as int).filter_map(f_create),
        decreases intended_locations.len() - i,
    {
        let l = &intended_locations[i];
        let ghost lv = d[i as int];
        assert(lv == l.deep_view());
        if !location_name_known(existing_locations, &l.name) {
            locations_to_create.push(l.clone());
            proof {
                assert(f_create(lv) == Some(lv));
                d.lemma_filter_map_take_succ(f_create, i as int);
                assert(locations_to_create.deep_view() =~= d.take(i + 1).filter_map(f_create));
            }
        } else {
            proof {
                assert(f_create(lv) is None);
                d.lemma_filter_map_take_succ(f_create, i as int);
                assert(locations_to_create.deep_view() =~= d.take(i + 1).filter_map(f_create));
            }
        }
        i += 1;
    }
    proof {
        assert(d.take(d.len() as int) =~= d);
    }

    LocationsReconciliation { locations_to_create }
}

} // verus!
