//! Set reconciliation for presenters.
//!
//! Presenters carry no correlation key on the remote side; they are
//! matched by name plus subtitle instead (an intended presenter whose
//! subtitle is the empty string also matches an existing presenter with
//! any subtitle, so that institution-less presenters are not duplicated).
//! Unmatched intended presenters are created; matched ones are patched
//! when the minimal patch is non-empty. There is no orphan reporting for
//! presenters.

use vstd::prelude::*;
use vstd::seq_lib::*;

use crate::guidebook::model::{
    GuidebookPresenter, GuidebookPresenterV, spec_presenter_patch, spec_presenter_patch_is_empty,
};

verus! {

/// The outcome of reconciling desired presenters against remote ones.
pub struct PresenterReconciliation {
    pub presenters_to_create: Vec<GuidebookPresenter>,
    pub presenters_to_update: Vec<GuidebookPresenter>,
}

/// How an intended presenter is matched against an existing one: equal
/// names, and either equal subtitles or an intended subtitle that is the
/// empty string.
pub open spec fn spec_presenter_matches(
    intended: GuidebookPresenterV,
    existing: GuidebookPresenterV,
) -> bool {
    &&& existing.name == intended.name
    &&& (existing.subtitle == intended.subtitle || intended.subtitle == Some(Seq::<char>::empty()))
}

/// `j` is the position of the first existing presenter that matches the
/// intended one.
pub open spec fn spec_first_match_at(
    e: Seq<GuidebookPresenterV>,
    intended: GuidebookPresenterV,
    j: int,
) -> bool {
    &&& 0 <= j < e.len()
    &&& spec_presenter_matches(intended, e[j])
    &&& forall|k: int| 0 <= k < j ==> !spec_presenter_matches(intended, #[trigger] e[k])
}

/// True when some existing presenter matches the intended one.
pub open spec fn spec_presenter_has_match(
    e: Seq<GuidebookPresenterV>,
    intended: GuidebookPresenterV,
) -> bool {
    exists|j: int| spec_first_match_at(e, intended, j)
}

/// What reconciliation does with one intended presenter on the create
/// side: kept whole exactly when no existing presenter matches it.
pub open spec fn spec_presenter_create_entry(
    e: Seq<GuidebookPresenterV>,
    intended: GuidebookPresenterV,
) -> Option<GuidebookPresenterV> {
    if spec_presenter_has_match(e, intended) {
        None
    } else {
        Some(intended)
    }
}

/// What reconciliation does with one intended presenter on the update
/// side: against the first matching existing presenter, the minimal patch
/// tagged with the remote ID, kept only if non-empty.
pub open spec fn spec_presenter_update_entry(
    e: Seq<GuidebookPresenterV>,
    intended: GuidebookPresenterV,
) -> Option<GuidebookPresenterV> {
    if spec_presenter_has_match(e, intended) {
        let j = choose|j: int| spec_first_match_at(e, intended, j);
        let ex = e[j];
        let p = GuidebookPresenterV { id: ex.id, ..spec_presenter_patch(intended, ex) };
        if spec_presenter_patch_is_empty(p) {
            None
        } else {
            Some(p)
        }
    } else {
        None
    }
}

/// The presenters to create, in intended order.
pub open spec fn spec_presenters_to_create(
    d: Seq<GuidebookPresenterV>,
    e: Seq<GuidebookPresenterV>,
) -> Seq<GuidebookPresenterV> {
    d.filter_map(|p: GuidebookPresenterV| spec_presenter_create_entry(e, p))
}

/// The presenter patches to apply, in intended order.
pub open spec fn spec_presenters_to_update(
    d: Seq<GuidebookPresenterV>,
    e: Seq<GuidebookPresenterV>,
) -> Seq<GuidebookPresenterV> {
    d.filter_map(|p: GuidebookPresenterV| spec_presenter_update_entry(e, p))
}

/// Compares two optional text fields by contents.
pub fn opt_text_eq(a: &Option<String>, b: &Option<String>) -> (r: bool)
    ensures
        r == (a.deep_view() == b.deep_view()),
{
    match (a, b) {
        (None, None) => true,
        (Some(x), Some(y)) => *x == *y,
        _ => false,
    }
}

/// Finds the first existing presenter matching the intended one.
pub(crate) fn find_matching_presenter(
    existing: &Vec<GuidebookPresenter>,
    intended: &GuidebookPresenter,
) -> (r: Option<usize>)
    ensures
        match r {
            Some(j) => spec_first_match_at(existing.deep_view(), intended.deep_view(), j as int),
            None => !spec_presenter_has_match(existing.deep_view(), intended.deep_view()),
        },
{
    let ghost e = existing.deep_view();
    let ghost ip = intended.deep_view();
    let subtitle_is_empty = match &intended.subtitle {
        Some(s) => s.as_str().is_empty(),
        None => false,
    };
    assert(subtitle_is_empty == (ip.subtitle == Some(Seq::<char>::empty()))) by {
        if ip.subtitle is Some && ip.subtitle->0.len() == 0 {
            assert(ip.subtitle->0 =~= Seq::<char>::empty());
        }
    }
    let mut j: usize = 0;
    while j < existing.len()
        invariant
            0 <= j <= existing.len(),
            e == existing.deep_view(),
            ip == intended.deep_view(),
            e.len() == existing.len(),
            subtitle_is_empty == (ip.subtitle == Some(Seq::<char>::empty())),
            forall|k: int| 0 <= k < j ==> !spec_presenter_matches(ip, #[trigger] e[k]),
        decreases existing.len() - j,
    {
        let ep = &existing[j];
        assert(ep.deep_view() == e[j as int]);
        if opt_text_eq(&ep.name, &intended.name) && (opt_text_eq(
            &ep.subtitle,
            &intended.subtitle,
        ) || subtitle_is_empty) {
            assert(spec_presenter_matches(ip, e[j as int]));
            return Some(j);
        }
        assert(!spec_presenter_matches(ip, e[j as int]));
        j += 1;
    }
    None
}

/// Partitions intended against existing presenters by the name-and-
/// subtitle match: unmatched intended presenters are created whole,
/// matched ones yield minimal patches (dropped when empty, tagged with
/// the remote ID of the first match).
#[verifier::rlimit(100)]
pub fn reconcile_intended_and_existing_guidebook_presenters(
    intended_presenters: &Vec<GuidebookPresenter>,
    existing_presenters: &Vec<GuidebookPresenter>,
) -> (r: PresenterReconciliation)
    ensures
        r.presenters_to_create.deep_view() == spec_presenters_to_create(
            intended_presenters.deep_view(),
            existing_presenters.deep_view(),
        ),
        r.presenters_to_update.deep_view() == spec_presenters_to_update(
            intended_presenters.deep_view(),
            existing_presenters.deep_view(),
        ),
{
    broadcast use vstd::seq_lib::group_seq_properties;

    let ghost d = intended_presenters.deep_view();
    let ghost e = existing_presenters.deep_view();

    let mut presenters_to_create: Vec<GuidebookPresenter> = Vec::new();
    let mut presenters_to_update: Vec<GuidebookPresenter> = Vec::new();

    let ghost f_create = |p: GuidebookPresenterV| spec_presenter_create_entry(e, p);
    let ghost f_update = |p: GuidebookPresenterV| spec_presenter_update_entry(e, p);

    let mut i: usize = 0;
    while i < intended_presenters.len()
        invariant
            0 <= i <= intended_presenters.len(),
            d == intended_presenters.deep_view(),
            e == existing_presenters.deep_view(),
            d.len() == intended_presenters.len(),
            f_create == (|p: GuidebookPresenterV| spec_presenter_create_entry(e, p)),
            f_update == (|p: GuidebookPresenterV| spec_presenter_update_entry(e, p)),
            presenters_to_create.deep_view() == d.take(i as int).filter_map(f_create),
            presenters_to_update.deep_view() == d.take(i as int).filter_map(f_update),
        decreases intended_presenters.len() - i,
    {
        let intended = &intended_presenters[i];
        let ghost ip = d[i as int];
        assert(ip == intended.deep_view());
        match find_matching_presenter(existing_presenters, intended) {
            None => {
                presenters_to_create.push(intended.clone());
                proof {
                    assert(f_create(ip) == Some(ip));
                    assert(f_update(ip) is None);
                    d.lemma_filter_map_take_succ(f_create, i as int);
                    d.lemma_filter_map_take_succ(f_update, i as int);
                    assert(presenters_to_create.deep_view() =~= d.take(i + 1).filter_map(f_create));
                    assert(presenters_to_update.deep_view() =~= d.take(i + 1).filter_map(f_update));
                }
            },
            Some(j) => {
                let existing = &existing_presenters[j];
                let ghost ex = e[j as int];
                proof {
                    // Two first-match positions agree, so the found one is
                    // the position the specification chooses.
                    assert(spec_presenter_has_match(e, ip));
                    let jj = choose|jj: int| spec_first_match_at(e, ip, jj);
                    if jj < j as int {
                        assert(!spec_presenter_matches(ip, e[jj]));
                        assert(false);
                    } else if jj > j as int {
                        assert(!spec_presenter_matches(ip, e[j as int]));
                        assert(false);
                    }
                }
                let mut patch = GuidebookPresenter::generate_patch_diff(intended, existing);
                patch.id = existing.id;
                proof {
                    assert(patch.deep_view() =~= (GuidebookPresenterV {
                        id: ex.id,
                        ..spec_presenter_patch(ip, ex)
                    }));
                }
                if !patch.is_empty_patch() {
                    presenters_to_update.push(patch);
                    proof {
                        assert(f_update(ip) == Some(
                            GuidebookPresenterV { id: ex.id, ..spec_presenter_patch(ip, ex) },
                        ));
                        d.lemma_filter_map_take_succ(f_update, i as int);
                        assert(presenters_to_update.deep_view() =~= d.take(i + 1).filter_map(
                            f_update,
                        ));
                    }
                } else {
                    proof {
                        assert(f_update(ip) is None);
                        d.lemma_filter_map_take_succ(f_update, i as int);
                        assert(presenters_to_update.deep_view() =~= d.take(i + 1).filter_map(
                            f_update,
                        ));
                    }
                }
                proof {
                    assert(f_create(ip) is None);
                    d.lemma_filter_map_take_succ(f_create, i as int);
                    assert(presenters_to_create.deep_view() =~= d.take(i + 1).filter_map(f_create));
                }
            },
        }
        i += 1;
    }
    proof {
        assert(d.take(d.len() as int) =~= d);
    }

    PresenterReconciliation { presenters_to_create, presenters_to_update }
}

} // verus!
