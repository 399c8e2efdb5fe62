//! Set reconciliation for sessions: partitions a desired and a remote
//! snapshot by correlation key into entities to create, patches to apply
//! and orphaned keys to report.
//!
//! Remote entities without a correlation key are never matched, created
//! or deleted; they are simply left out (the boundary reports them once).
//! Orphaned entities are reported, never deleted: deletion is a
//! deliberately unperformed, out-of-band operation.

use vstd::prelude::*;
use vstd::seq_lib::*;

use crate::guidebook::model::{
    GuidebookSession, GuidebookSessionV, spec_session_patch, spec_session_patch_is_empty,
};

verus! {

/// The outcome of reconciling desired sessions against remote sessions.
pub struct SessionReconciliation {
    /// Correlation keys present remotely but absent from the desired
    /// snapshot; reported, never auto-deleted.
    pub orphaned_existing_import_ids: Vec<String>,
    /// Desired sessions with no remote counterpart, to be created whole.
    pub sessions_to_create: Vec<GuidebookSession>,
    /// Non-empty patches, each carrying the remote ID of its target.
    pub sessions_to_update: Vec<GuidebookSession>,
}

/// Desired snapshot well-formedness: every entity carries a correlation
/// key and keys are unique. A collision is a caller error.
pub open spec fn spec_intended_sessions_wf(d: Seq<GuidebookSessionV>) -> bool {
    &&& forall|i: int| 0 <= i < d.len() ==> (#[trigger] d[i].import_id) is Some
    &&& forall|i: int, j: int|
        #![trigger d[i].import_id, d[j].import_id]
        0 <= i < j < d.len() ==> d[i].import_id != d[j].import_id
}

/// Remote snapshot well-formedness: among the entities that carry a
/// correlation key, keys are unique.
pub open spec fn spec_existing_sessions_wf(e: Seq<GuidebookSessionV>) -> bool {
    forall|i: int, j: int|
        #![trigger e[i].import_id, e[j].import_id]
        0 <= i < j < e.len() && e[i].import_id is Some && e[j].import_id is Some ==> e[
            i
        ].import_id != e[j].import_id
}

/// True when some remote session carries the correlation key `k`.
pub open spec fn spec_session_keyed(e: Seq<GuidebookSessionV>, k: Seq<char>) -> bool {
    exists|i: int| 0 <= i < e.len() && (#[trigger] e[i].import_id) == Some(k)
}

/// The index of the remote session carrying key `k` (unique when the
/// remote snapshot is well-formed).
pub open spec fn spec_session_key_index(e: Seq<GuidebookSessionV>, k: Seq<char>) -> int {
    choose|i: int| 0 <= i < e.len() && (#[trigger] e[i].import_id) == Some(k)
}

/// What reconciliation does with one desired session on the create side:
/// kept whole exactly when its key has no remote counterpart.
pub open spec fn spec_session_create_entry(
    e: Seq<GuidebookSessionV>,
    s: GuidebookSessionV,
) -> Option<GuidebookSessionV> {
    match s.import_id {
        Some(k) => if !spec_session_keyed(e, k) {
            Some(s)
        } else {
            None
        },
        None => None,
    }
}

/// What reconciliation does with one desired session on the update side:
/// when its key has a remote counterpart, the minimal patch tagged with
/// the remote ID, kept only if non-empty.
pub open spec fn spec_session_update_entry(
    e: Seq<GuidebookSessionV>,
    s: GuidebookSessionV,
) -> Option<GuidebookSessionV> {
    match s.import_id {
        Some(k) => if spec_session_keyed(e, k) {
            let ex = e[spec_session_key_index(e, k)];
            let p = GuidebookSessionV { id: ex.id, ..spec_session_patch(s, ex) };
            if spec_session_patch_is_empty(p) {
                None
            } else {
                Some(p)
            }
        } else {
            None
        },
        None => None,
    }
}

/// What reconciliation does with one remote session on the orphan side:
/// its key is reported exactly when it carries a key that the desired
/// snapshot no longer contains.
pub open spec fn spec_session_orphan_entry(
    d: Seq<GuidebookSessionV>,
    ex: GuidebookSessionV,
) -> Option<Seq<char>> {
    match ex.import_id {
        Some(k) => if !spec_session_keyed(d, k) {
            Some(k)
        } else {
            None
        },
        None => None,
    }
}

/// The sessions to create: desired minus remote, by key, in desired
/// order.
pub open spec fn spec_sessions_to_create(
    d: Seq<GuidebookSessionV>,
    e: Seq<GuidebookSessionV>,
) -> Seq<GuidebookSessionV> {
    d.filter_map(|s: GuidebookSessionV| spec_session_create_entry(e, s))
}

/// The patches to apply: desired intersected with remote, by key, minimal
/// patches only, empty ones dropped, in desired order.
pub open spec fn spec_sessions_to_update(
    d: Seq<GuidebookSessionV>,
    e: Seq<GuidebookSessionV>,
) -> Seq<GuidebookSessionV> {
    d.filter_map(|s: GuidebookSessionV| spec_session_update_entry(e, s))
}

/// The orphaned keys: remote minus desired, by key, in remote order.
pub open spec fn spec_session_orphans(
    d: Seq<GuidebookSessionV>,
    e: Seq<GuidebookSessionV>,
) -> Seq<Seq<char>> {
    e.filter_map(|ex: GuidebookSessionV| spec_session_orphan_entry(d, ex))
}

/// Finds the remote session carrying the given correlation key.
pub(crate) fn find_session_by_import_id(list: &Vec<GuidebookSession>, key: &String) -> (r: Option<usize>)
    ensures
        match r {
            Some(i) => 0 <= i < list.len() && list.deep_view()[i as int].import_id == Some(key@),
            None => !spec_session_keyed(list.deep_view(), key@),
        },
{
    let ghost e = list.deep_view();
    let mut i: usize = 0;
    while i < list.len()
        invariant
            0 <= i <= list.len(),
            e == list.deep_view(),
            e.len() == list.len(),
            forall|j: int| 0 <= j < i ==> (#[trigger] e[j].import_id) != Some(key@),
        decreases list.len() - i,
    {
        match &list[i].import_id {
            Some(s) => {
                if *s == *key {
                    assert(e[i as int].import_id == Some(key@));
                    return Some(i);
                }
            },
            None => {},
        }
        assert(e[i as int].import_id != Some(key@));
        i += 1;
    }
    None
}

/// Partitions desired against remote sessions by correlation key:
/// desired-only keys become creations, shared keys become minimal patches
/// (dropped when empty, tagged with the remote ID), remote-only keys are
/// reported as orphaned.
#[verifier::rlimit(100)]
pub fn reconcile_intended_and_existing_guidebook_sessions(
    intended_sessions: &Vec<GuidebookSession>,
    existing_sessions: &Vec<GuidebookSession>,
) -> (r: SessionReconciliation)
    requires
        spec_intended_sessions_wf(intended_sessions.deep_view()),
        spec_existing_sessions_wf(existing_sessions.deep_view()),
    ensures
        r.sessions_to_create.deep_view() == spec_sessions_to_create(
            intended_sessions.deep_view(),
            existing_sessions.deep_view(),
        ),
        r.sessions_to_update.deep_view() == spec_sessions_to_update(
            intended_sessions.deep_view(),
            existing_sessions.deep_view(),
        ),
        r.orphaned_existing_import_ids.deep_view() == spec_session_orphans(
            intended_sessions.deep_view(),
            existing_sessions.deep_view(),
        ),
{
    broadcast use vstd::seq_lib::group_seq_properties;

    let ghost d = intended_sessions.deep_view();
    let ghost e = existing_sessions.deep_view();

    let mut sessions_to_create: Vec<GuidebookSession> = Vec::new();
    let mut sessions_to_update: Vec<GuidebookSession> = Vec::new();
    let mut orphaned_existing_import_ids: Vec<String> = Vec::new();

    let ghost f_create = |s: GuidebookSessionV| spec_session_create_entry(e, s);
    let ghost f_update = |s: GuidebookSessionV| spec_session_update_entry(e, s);
    let ghost f_orphan = |ex: GuidebookSessionV| spec_session_orphan_entry(d, ex);

    let mut i: usize = 0;
    while i < intended_sessions.len()
        invariant
            0 <= i <= intended_sessions.len(),
            d == intended_sessions.deep_view(),
            e == existing_sessions.deep_view(),
            d.len() == intended_sessions.len(),
            spec_intended_sessions_wf(d),
            spec_existing_sessions_wf(e),
            f_create == (|s: GuidebookSessionV| spec_session_create_entry(e, s)),
            f_update == (|s: GuidebookSessionV| spec_session_update_entry(e, s)),
            sessions_to_create.deep_view() == d.take(i as int).filter_map(f_create),
            sessions_to_update.deep_view() == d.take(i as int).filter_map(f_update),
        decreases intended_sessions.len() - i,
    {
        let intended = &intended_sessions[i];
        let ghost s = d[i as int];
        assert(s == intended.deep_view());
        assert(s.import_id is Some);
        let key = match &intended.import_id {
            Some(k) => k,
            None => {
                proof {
                    assert(false);
                }
                unreached()
            },
        };
        match find_session_by_import_id(existing_sessions, key) {
            None => {
                sessions_to_create.push(intended.clone());
                proof {
                    assert(f_create(s) == Some(s));
                    d.lemma_filter_map_take_succ(f_create, i as int);
                    assert(f_update(s) is None);
                    d.lemma_filter_map_take_succ(f_update, i as int);
                    assert(sessions_to_create.deep_view() =~= d.take(i + 1).filter_map(f_create));
                    assert(sessions_to_update.deep_view() =~= d.take(i + 1).filter_map(f_update));
                }
            },
            Some(j) => {
                let existing = &existing_sessions[j];
                let ghost ex = e[j as int];
                proof {
                    // The found index is the one the specification names.
                    let jj = spec_session_key_index(e, key@);
                    assert(spec_session_keyed(e, key@));
                    assert(0 <= jj < e.len() && e[jj].import_id == Some(key@));
                    assert(jj == j as int);
                }
                let mut patch = GuidebookSession::generate_patch_diff(intended, existing);
                patch.id = existing.id;
                proof {
                    assert(patch.deep_view() =~= (GuidebookSessionV {
                        id: ex.id,
                        ..spec_session_patch(s, ex)
                    }));
                }
                if !patch.is_empty_patch() {
                    sessions_to_update.push(patch);
                    proof {
                        assert(f_update(s) == Some(
                            GuidebookSessionV { id: ex.id, ..spec_session_patch(s, ex) },
                        ));
                        d.lemma_filter_map_take_succ(f_update, i as int);
                        assert(sessions_to_update.deep_view() =~= d.take(i + 1).filter_map(
                            f_update,
                        ));
                    }
                } else {
                    proof {
                        assert(f_update(s) is None);
                        d.lemma_filter_map_take_succ(f_update, i as int);
                        assert(sessions_to_update.deep_view() =~= d.take(i + 1).filter_map(
                            f_update,
                        ));
                    }
                }
                proof {
                    assert(f_create(s) is None);
                    d.lemma_filter_map_take_succ(f_create, i as int);
                    assert(sessions_to_create.deep_view() =~= d.take(i + 1).filter_map(f_create));
                }
            },
        }
        i += 1;
    }
    proof {
        assert(d.take(d.len() as int) =~= d);
    }

    let mut i: usize = 0;
    while i < existing_sessions.len()
        invariant
            0 <= i <= existing_sessions.len(),
            d == intended_sessions.deep_view(),
            e == existing_sessions.deep_view(),
            e.len() == existing_sessions.len(),
            f_orphan == (|ex: GuidebookSessionV| spec_session_orphan_entry(d, ex)),
            orphaned_existing_import_ids.deep_view() == e.take(i as int).filter_map(f_orphan),
        decreases existing_sessions.len() - i,
    {
        let existing = &existing_sessions[i];
        let ghost ex = e[i as int];
        assert(ex == existing.deep_view());
        match &existing.import_id {
            Some(key) => {
                match find_session_by_import_id(intended_sessions, key) {
                    None => {
                        orphaned_existing_import_ids.push(key.clone());
                        proof {
                            assert(f_orphan(ex) == Some(key@));
                            e.lemma_filter_map_take_succ(f_orphan, i as int);
                            assert(orphaned_existing_import_ids.deep_view() =~= e.take(
                                i + 1,
                            ).filter_map(f_orphan));
                        }
                    },
                    Some(_) => {
                        proof {
                            assert(f_orphan(ex) is None);
                            e.lemma_filter_map_take_succ(f_orphan, i as int);
                            assert(orphaned_existing_import_ids.deep_view() =~= e.take(
                                i + 1,
                            ).filter_map(f_orphan));
                        }
                    },
                }
            },
            None => {
                proof {
                    assert(f_orphan(ex) is None);
                    e.lemma_filter_map_take_succ(f_orphan, i as int);
                    assert(orphaned_existing_import_ids.deep_view() =~= e.take(i + 1).filter_map(
                        f_orphan,
                    ));
                }
            },
        }
        i += 1;
    }
    proof {
        assert(e.take(e.len() as int) =~= e);
    }

    SessionReconciliation { orphaned_existing_import_ids, sessions_to_create, sessions_to_update }
}

/// A mapping that yields nothing on any element filters to the empty
/// sequence.
proof fn lemma_filter_map_all_none<A, B>(s: Seq<A>, f: spec_fn(A) -> Option<B>)
    requires
        forall|i: int| 0 <= i < s.len() ==> (#[trigger] f(s[i])) is None,
    ensures
        s.filter_map(f) == Seq::<B>::empty(),
    decreases s.len(),
{
    if s.len() == 0 {
        assert(s.filter_map(f) =~= Seq::<B>::empty());
    } else {
        assert(f(s.last()) is None);
        lemma_filter_map_all_none(s.drop_last(), f);
    }
}

/// An element that the mapping keeps appears in the filtered sequence.
proof fn lemma_filter_map_contains_fwd<A, B>(s: Seq<A>, f: spec_fn(A) -> Option<B>, i: int)
    requires
        0 <= i < s.len(),
        f(s[i]) is Some,
    ensures
        s.filter_map(f).contains(f(s[i])->0),
    decreases s.len(),
{
    if i == s.len() - 1 {
        assert(s.filter_map(f) == s.drop_last().filter_map(f) + seq![f(s.last())->0]);
        assert(s.filter_map(f).last() == f(s[i])->0);
    } else {
        lemma_filter_map_contains_fwd(s.drop_last(), f, i);
        assert(s.drop_last()[i] == s[i]);
        let elt = f(s[i])->0;
        let rest = s.drop_last().filter_map(f);
        let j = choose|j: int| 0 <= j < rest.len() && rest[j] == elt;
        match f(s.last()) {
            Some(b) => {
                assert(s.filter_map(f) == rest + seq![b]);
                assert(s.filter_map(f)[j] == elt);
            },
            None => {
                assert(s.filter_map(f) == rest);
            },
        }
    }
}

/// Orphan correctness: every remote key absent from the desired snapshot
/// is reported as orphaned, an orphaned key is exactly a remote key the
/// desired snapshot lacks, and no orphaned key also appears among the
/// creations or the updates.
pub proof fn lemma_session_orphan_correctness(d: Seq<GuidebookSessionV>, e: Seq<GuidebookSessionV>)
    requires
        spec_intended_sessions_wf(d),
        spec_existing_sessions_wf(e),
    ensures
        forall|i: int|
            0 <= i < e.len() && (#[trigger] e[i].import_id) is Some && !spec_session_keyed(
                d,
                e[i].import_id->0,
            ) ==> spec_session_orphans(d, e).contains(e[i].import_id->0),
        forall|k: Seq<char>| #[trigger]
            spec_session_orphans(d, e).contains(k) ==> spec_session_keyed(e, k)
                && !spec_session_keyed(d, k),
        forall|s: GuidebookSessionV| #[trigger]
            spec_sessions_to_create(d, e).contains(s) ==> s.import_id is Some
                && !spec_session_orphans(d, e).contains(s.import_id->0),
        forall|p: GuidebookSessionV| #[trigger]
            spec_sessions_to_update(d, e).contains(p) ==> p.import_id is Some
                && !spec_session_orphans(d, e).contains(p.import_id->0),
{
    let f_orphan = |ex: GuidebookSessionV| spec_session_orphan_entry(d, ex);
    let f_create = |s: GuidebookSessionV| spec_session_create_entry(e, s);
    let f_update = |s: GuidebookSessionV| spec_session_update_entry(e, s);
    let orphans = spec_session_orphans(d, e);

    assert forall|i: int|
        0 <= i < e.len() && (#[trigger] e[i].import_id) is Some && !spec_session_keyed(
            d,
            e[i].import_id->0,
        ) implies orphans.contains(e[i].import_id->0) by {
        assert(f_orphan(e[i]) == Some(e[i].import_id->0));
        lemma_filter_map_contains_fwd(e, f_orphan, i);
    }

    assert forall|k: Seq<char>| #[trigger]
        orphans.contains(k) implies spec_session_keyed(e, k) && !spec_session_keyed(d, k) by {
        e.lemma_filter_map_contains(f_orphan, k);
        let ex = choose|ex: GuidebookSessionV| #[trigger]
            e.contains(ex) && f_orphan(ex) == Some(k);
        let i = choose|i: int| 0 <= i < e.len() && e[i] == ex;
        assert(e[i].import_id == Some(k));
    }

    assert forall|s: GuidebookSessionV| #[trigger]
        spec_sessions_to_create(d, e).contains(s) implies s.import_id is Some && !orphans.contains(
        s.import_id->0,
    ) by {
        d.lemma_filter_map_contains(f_create, s);
        let t = choose|t: GuidebookSessionV| #[trigger] d.contains(t) && f_create(t) == Some(s);
        assert(t == s);
        let i = choose|i: int| 0 <= i < d.len() && d[i] == t;
        assert(spec_session_keyed(d, s.import_id->0));
    }

    assert forall|p: GuidebookSessionV| #[trigger]
        spec_sessions_to_update(d, e).contains(p) implies p.import_id is Some && !orphans.contains(
        p.import_id->0,
    ) by {
        d.lemma_filter_map_contains(f_update, p);
        let t = choose|t: GuidebookSessionV| #[trigger] d.contains(t) && f_update(t) == Some(p);
        let i = choose|i: int| 0 <= i < d.len() && d[i] == t;
        let k = t.import_id->0;
        let j = spec_session_key_index(e, k);
        assert(p.import_id == e[j].import_id);
        assert(p.import_id == Some(k));
        assert(spec_session_keyed(d, k));
    }
}

/// How the remote platform applies one submitted session patch: every
/// field the patch sets is overwritten, every omitted field keeps its
/// remote value; identity fields stay remote-owned and the start time
/// rides along in every patch.
pub open spec fn spec_apply_session_patch(
    ex: GuidebookSessionV,
    p: GuidebookSessionV,
) -> GuidebookSessionV {
    GuidebookSessionV {
        id: ex.id,
        guide_id: ex.guide_id,
        name: if p.name is Some {
            p.name
        } else {
            ex.name
        },
        description_html: if p.description_html is Some {
            p.description_html
        } else {
            ex.description_html
        },
        start_time: p.start_time,
        end_time: if p.end_time is Some {
            p.end_time
        } else {
            ex.end_time
        },
        all_day: if p.all_day is Some {
            p.all_day
        } else {
            ex.all_day
        },
        allow_rating: if p.allow_rating is Some {
            p.allow_rating
        } else {
            ex.allow_rating
        },
        add_to_schedule: if p.add_to_schedule is Some {
            p.add_to_schedule
        } else {
            ex.add_to_schedule
        },
        import_id: ex.import_id,
        locations: if p.locations is Some {
            p.locations
        } else {
            ex.locations
        },
        schedule_tracks: if p.schedule_tracks is Some {
            p.schedule_tracks
        } else {
            ex.schedule_tracks
        },
        rank: if p.rank is Some {
            p.rank
        } else {
            ex.rank
        },
        registration_start_date: if p.registration_start_date is Some {
            p.registration_start_date
        } else {
            ex.registration_start_date
        },
        registration_end_date: if p.registration_end_date is Some {
            p.registration_end_date
        } else {
            ex.registration_end_date
        },
        require_login: if p.require_login is Some {
            p.require_login
        } else {
            ex.require_login
        },
        waitlist: if p.waitlist is Some {
            p.waitlist
        } else {
            ex.waitlist
        },
        max_capacity: if p.max_capacity is Some {
            p.max_capacity
        } else {
            ex.max_capacity
        },
    }
}

/// The remote snapshot after executing a reconciliation result and
/// re-fetching: every matched entity has its non-empty patch applied in
/// place, and every created entity is appended carrying whatever ID the
/// platform assigned it.
pub open spec fn spec_sessions_after_apply(
    d: Seq<GuidebookSessionV>,
    e: Seq<GuidebookSessionV>,
    new_ids: Seq<Option<u32>>,
) -> Seq<GuidebookSessionV>
    recommends
        new_ids.len() == spec_sessions_to_create(d, e).len(),
{
    let updated = Seq::new(
        e.len(),
        |j: int|
            {
                let ex = e[j];
                match ex.import_id {
                    Some(k) => if spec_session_keyed(d, k) {
                        let s = d[spec_session_key_index(d, k)];
                        let p = GuidebookSessionV { id: ex.id, ..spec_session_patch(s, ex) };
                        if spec_session_patch_is_empty(p) {
                            ex
                        } else {
                            spec_apply_session_patch(ex, p)
                        }
                    } else {
                        ex
                    },
                    None => ex,
                }
            },
    );
    let created = spec_sessions_to_create(d, e);
    updated + Seq::new(created.len(), |j: int| GuidebookSessionV { id: new_ids[j], ..created[j] })
}

/// Mapping a concatenation filters each part.
proof fn lemma_filter_map_add<A, B>(a: Seq<A>, b: Seq<A>, f: spec_fn(A) -> Option<B>)
    ensures
        (a + b).filter_map(f) == a.filter_map(f) + b.filter_map(f),
    decreases b.len(),
{
    if b.len() == 0 {
        assert(a + b =~= a);
        assert(b.filter_map(f) =~= Seq::<B>::empty());
        assert(a.filter_map(f) + b.filter_map(f) =~= a.filter_map(f));
    } else {
        lemma_filter_map_add(a, b.drop_last(), f);
        assert((a + b).drop_last() =~= a + b.drop_last());
        assert((a + b).last() == b.last());
        match f(b.last()) {
            Some(x) => {
                assert((a + b).filter_map(f) == (a + b.drop_last()).filter_map(f) + seq![x]);
                assert(b.filter_map(f) == b.drop_last().filter_map(f) + seq![x]);
                assert(a.filter_map(f) + (b.drop_last().filter_map(f) + seq![x]) =~= (a.filter_map(
                    f,
                ) + b.drop_last().filter_map(f)) + seq![x]);
            },
            None => {
                assert((a + b).filter_map(f) == (a + b.drop_last()).filter_map(f));
                assert(b.filter_map(f) == b.drop_last().filter_map(f));
            },
        }
    }
}

/// Two sequences that the mapping cannot tell apart filter alike.
proof fn lemma_filter_map_congruent<A, B>(a: Seq<A>, b: Seq<A>, f: spec_fn(A) -> Option<B>)
    requires
        a.len() == b.len(),
        forall|i: int| 0 <= i < a.len() ==> f(a[i]) == f(b[i]),
    ensures
        a.filter_map(f) == b.filter_map(f),
    decreases a.len(),
{
    if a.len() > 0 {
        lemma_filter_map_congruent(a.drop_last(), b.drop_last(), f);
        assert(forall|i: int|
            0 <= i < a.drop_last().len() ==> f(a.drop_last()[i]) == f(b.drop_last()[i]));
        assert(f(a.last()) == f(b.last()));
    }
}

/// Idempotence: applying a reconciliation result to the remote snapshot
/// and reconciling again asks for no creation and no update; only orphans
/// can remain, and they are exactly the orphans of the first run.
pub proof fn lemma_reconcile_sessions_idempotent(
    d: Seq<GuidebookSessionV>,
    e: Seq<GuidebookSessionV>,
    new_ids: Seq<Option<u32>>,
)
    requires
        spec_intended_sessions_wf(d),
        spec_existing_sessions_wf(e),
        new_ids.len() == spec_sessions_to_create(d, e).len(),
    ensures
        spec_sessions_to_create(d, spec_sessions_after_apply(d, e, new_ids)) == Seq::<
            GuidebookSessionV,
        >::empty(),
        spec_sessions_to_update(d, spec_sessions_after_apply(d, e, new_ids)) == Seq::<
            GuidebookSessionV,
        >::empty(),
        spec_session_orphans(d, spec_sessions_after_apply(d, e, new_ids)) == spec_session_orphans(
            d,
            e,
        ),
{
    let e2 = spec_sessions_after_apply(d, e, new_ids);
    let created = spec_sessions_to_create(d, e);
    let f_create = |s: GuidebookSessionV| spec_session_create_entry(e, s);

    // Created entries are desired entries whose key the remote lacked.
    assert forall|cj: int| 0 <= cj < created.len() implies {
        &&& d.contains(created[cj])
        &&& created[cj].import_id is Some
        &&& !spec_session_keyed(e, created[cj].import_id->0)
    } by {
        d.lemma_filter_map_contains(f_create, created[cj]);
        let t = choose|t: GuidebookSessionV| #[trigger]
            d.contains(t) && f_create(t) == Some(created[cj]);
        assert(t == created[cj]);
    }

    // Keys survive application: the first block keeps every remote key in
    // place, the second appends exactly the created keys.
    assert forall|j: int| 0 <= j < e.len() implies (#[trigger] e2[j]).import_id
        == e[j].import_id by {}
    assert(e2.len() == e.len() + created.len());
    assert forall|cj: int| 0 <= cj < created.len() implies (#[trigger] e2[e.len() + cj]).import_id
        == created[cj].import_id by {}

    // Every desired key is present in the applied snapshot.
    assert forall|i: int| 0 <= i < d.len() implies spec_session_keyed(
        e2,
        (#[trigger] d[i]).import_id->0,
    ) by {
        let k = d[i].import_id->0;
        if spec_session_keyed(e, k) {
            let j = spec_session_key_index(e, k);
            assert(e2[j].import_id == Some(k));
        } else {
            assert(f_create(d[i]) == Some(d[i]));
            lemma_filter_map_contains_fwd(d, f_create, i);
            let cj = choose|cj: int| 0 <= cj < created.len() && created[cj] == d[i];
            assert(e2[e.len() + cj].import_id == Some(k));
        }
    }

    // Nothing is left to create.
    let f_create2 = |s: GuidebookSessionV| spec_session_create_entry(e2, s);
    assert forall|i: int| 0 <= i < d.len() implies (#[trigger] f_create2(d[i])) is None by {
        assert(spec_session_keyed(e2, d[i].import_id->0));
    }
    lemma_filter_map_all_none(d, f_create2);
    assert(spec_sessions_to_create(d, e2) =~= Seq::<GuidebookSessionV>::empty());

    // The applied snapshot is still well-formed: remote keys stay unique
    // and created keys are new.
    assert forall|i: int, j: int|
        #![trigger e2[i].import_id, e2[j].import_id]
        0 <= i < j < e2.len() && e2[i].import_id is Some && e2[j].import_id is Some implies e2[
        i
    ].import_id != e2[j].import_id by {
        if i < e.len() && j < e.len() {
            assert(e2[i].import_id == e[i].import_id && e2[j].import_id == e[j].import_id);
        } else if i < e.len() && j >= e.len() {
            let cj = j - e.len();
            assert(e2[j].import_id == created[cj].import_id);
            if e2[i].import_id == e2[j].import_id {
                assert(spec_session_keyed(e, created[cj].import_id->0));
                assert(false);
            }
        } else {
            let ci = i - e.len();
            let cj = j - e.len();
            if e2[i].import_id == e2[j].import_id {
                let ii = choose|ii: int| 0 <= ii < d.len() && d[ii] == created[ci];
                let jj = choose|jj: int| 0 <= jj < d.len() && d[jj] == created[cj];
                assert(d.contains(created[ci]) && d.contains(created[cj]));
                assert(d[ii].import_id == d[jj].import_id);
                assert(ii == jj);
                // Distinct creations never share an entity: their keys
                // were unique in the desired snapshot.
                assert(created[ci] == created[cj]);
                lemma_created_distinct(d, e, ci, cj);
                assert(false);
            }
        }
    }

    // Nothing is left to update: the matched entity already carries every
    // field the desired side specifies.
    let f_update2 = |s: GuidebookSessionV| spec_session_update_entry(e2, s);
    assert forall|i: int| 0 <= i < d.len() implies (#[trigger] f_update2(d[i])) is None by {
        let s = d[i];
        let k = s.import_id->0;
        assert(spec_session_keyed(e2, k));
        let j2 = spec_session_key_index(e2, k);
        assert(0 <= j2 < e2.len() && e2[j2].import_id == Some(k));
        let ex2 = e2[j2];
        if spec_session_keyed(e, k) {
            let j = spec_session_key_index(e, k);
            assert(e2[j].import_id == Some(k));
            assert(j2 == j);
            let jd = spec_session_key_index(d, k);
            assert(0 <= jd < d.len() && d[jd].import_id == Some(k));
            assert(jd == i);
            let ex = e[j];
            let p = GuidebookSessionV { id: ex.id, ..spec_session_patch(s, ex) };
            if spec_session_patch_is_empty(p) {
                assert(ex2 == ex);
            } else {
                assert(ex2 == spec_apply_session_patch(ex, p));
            }
            let p2 = GuidebookSessionV { id: ex2.id, ..spec_session_patch(s, ex2) };
            assert(spec_session_patch_is_empty(p2));
        } else {
            assert(j2 >= e.len());
            let cj = j2 - e.len();
            assert(ex2 == (GuidebookSessionV { id: new_ids[cj], ..created[cj] }));
            let jj = choose|jj: int| 0 <= jj < d.len() && d[jj] == created[cj];
            assert(d.contains(created[cj]));
            assert(d[jj].import_id == Some(k));
            let jd = spec_session_key_index(d, k);
            assert(d[jd] == s && jd == i);
            assert(jj == i);
            assert(created[cj] == s);
            let p2 = GuidebookSessionV { id: ex2.id, ..spec_session_patch(s, ex2) };
            assert(spec_session_patch_is_empty(p2));
        }
    }
    lemma_filter_map_all_none(d, f_update2);
    assert(spec_sessions_to_update(d, e2) =~= Seq::<GuidebookSessionV>::empty());

    // Orphans are preserved: the updated block keeps every key in place
    // and the created block holds only desired keys.
    let f_orphan = |ex: GuidebookSessionV| spec_session_orphan_entry(d, ex);
    let updated = e2.take(e.len() as int);
    let created_with_ids = e2.skip(e.len() as int);
    assert(e2 =~= updated + created_with_ids);
    lemma_filter_map_add(updated, created_with_ids, f_orphan);
    assert forall|j: int| 0 <= j < created_with_ids.len() implies (#[trigger] f_orphan(
        created_with_ids[j],
    )) is None by {
        assert(created_with_ids[j] == e2[e.len() + j]);
        assert(created_with_ids[j].import_id == created[j].import_id);
        assert(d.contains(created[j]));
        let i = choose|i: int| 0 <= i < d.len() && d[i] == created[j];
        assert(spec_session_keyed(d, created[j].import_id->0));
    }
    lemma_filter_map_all_none(created_with_ids, f_orphan);
    assert forall|j: int| 0 <= j < e.len() implies f_orphan(#[trigger] updated[j]) == f_orphan(
        e[j],
    ) by {
        assert(updated[j] == e2[j]);
        assert(e2[j].import_id == e[j].import_id);
    }
    lemma_filter_map_congruent(updated, e, f_orphan);
    assert(spec_session_orphans(d, e2) =~= spec_session_orphans(d, e));
}

/// Two distinct positions of the creation list hold distinct entities:
/// the creation list keeps the unique desired keys in order.
proof fn lemma_created_distinct(
    d: Seq<GuidebookSessionV>,
    e: Seq<GuidebookSessionV>,
    ci: int,
    cj: int,
)
    requires
        spec_intended_sessions_wf(d),
        0 <= ci < cj < spec_sessions_to_create(d, e).len(),
    ensures
        spec_sessions_to_create(d, e)[ci] != spec_sessions_to_create(d, e)[cj]
            || spec_sessions_to_create(d, e)[ci].import_id is None,
    decreases d.len(),
{
    let f_create = |s: GuidebookSessionV| spec_session_create_entry(e, s);
    let created = d.filter_map(f_create);
    if d.len() > 0 {
        let rest = d.drop_last();
        assert(spec_intended_sessions_wf(rest));
        match f_create(d.last()) {
            Some(b) => {
                assert(created == rest.filter_map(f_create) + seq![b]);
                if cj < created.len() - 1 {
                    lemma_created_distinct(rest, e, ci, cj);
                    assert(rest.filter_map(f_create)[ci] == created[ci]);
                    assert(rest.filter_map(f_create)[cj] == created[cj]);
                } else {
                    // The last creation is the last desired entity; the
                    // earlier creation comes from an earlier desired
                    // entity, whose key differs.
                    assert(created[cj] == b && b == d.last());
                    assert(rest.filter_map(f_create)[ci] == created[ci]);
                    assert(rest.filter_map(f_create).contains(created[ci]));
                    rest.lemma_filter_map_contains(f_create, created[ci]);
                    let t = choose|t: GuidebookSessionV| #[trigger]
                        rest.contains(t) && f_create(t) == Some(created[ci]);
                    assert(t == created[ci]);
                    let ti = choose|ti: int| 0 <= ti < rest.len() && rest[ti] == t;
                    assert(d[ti] == t && 0 <= ti < d.len() - 1);
                    assert(d[ti].import_id != d[d.len() - 1].import_id);
                    assert(created[ci].import_id != created[cj].import_id);
                }
            },
            None => {
                assert(created == rest.filter_map(f_create));
                lemma_created_distinct(rest, e, ci, cj);
            },
        }
    } else {
        assert(created =~= Seq::<GuidebookSessionV>::empty());
    }
}

} // verus!

