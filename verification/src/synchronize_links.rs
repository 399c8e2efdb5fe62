//! Link reconciliation: converges the session-to-presenter relation.
//!
//! The remote platform stores the relation as a flat set of directed
//! links; one logical association is a *pair* of links, one outbound
//! (session to presenter) and one inbound (presenter to session). Given
//! the desired adjacency (session remote-ID to the presenter remote-IDs
//! that must be linked) and the links on record, the reconciler computes
//! the link IDs to delete and the pairs to create, per direction.
//!
//! Only sessions present in the desired adjacency are touched: the
//! reconciler must not silently delete relationships of entities outside
//! the current synchronization scope.

use vstd::prelude::*;

verus! {

/// Which kind of entity a link endpoint names.
#[derive(Clone, Copy, Debug, PartialEq, Eq, Structural)]
pub enum LinkEndpointKind {
    /// A session of the schedule.
    Session,
    /// A presenter (an item of the presenter custom list).
    CustomListItem,
}

/// One directed link of the remote flat link store.
#[derive(Clone, Copy, Debug, PartialEq, Eq, Structural)]
pub struct Link {
    /// Remote-assigned ID of the link itself.
    pub id: u32,
    pub source_kind: LinkEndpointKind,
    pub source_id: u32,
    pub target_kind: LinkEndpointKind,
    pub target_id: u32,
}

/// The outcome of reconciling the desired adjacency against the links on
/// record.
pub struct LinkReconciliation {
    /// IDs of links to delete, each listed once.
    pub links_to_delete: Vec<u32>,
    /// Session-to-presenter pairs that need a new outbound link.
    pub outbound_links_to_create: Vec<(u32, u32)>,
    /// Presenter-to-session pairs that need a new inbound link.
    pub inbound_links_to_create: Vec<(u32, u32)>,
}

/// True when the link runs out of the given session.
pub open spec fn spec_outbound(l: Link, session_id: u32) -> bool {
    l.source_kind == LinkEndpointKind::Session && l.source_id == session_id
}

/// True when the link runs into the given session.
pub open spec fn spec_inbound(l: Link, session_id: u32) -> bool {
    l.target_kind == LinkEndpointKind::Session && l.target_id == session_id
}

/// Adjacency well-formedness: session IDs are unique and each presenter
/// list holds no duplicates.
pub open spec fn spec_adjacency_wf(adj: Seq<(u32, Seq<u32>)>) -> bool {
    &&& forall|i: int, j: int|
        #![trigger adj[i].0, adj[j].0]
        0 <= i < j < adj.len() ==> adj[i].0 != adj[j].0
    &&& forall|i: int| 0 <= i < adj.len() ==> (#[trigger] adj[i].1).no_duplicates()
}

/// Link store well-formedness: link IDs are unique, and every link is
/// typed one of the two symmetric ways (session to presenter, or
/// presenter to session).
pub open spec fn spec_links_wf(links: Seq<Link>) -> bool {
    &&& forall|i: int, j: int|
        #![trigger links[i].id, links[j].id]
        0 <= i < j < links.len() ==> links[i].id != links[j].id
    &&& forall|i: int|
        0 <= i < links.len() ==> ((#[trigger] links[i]).source_kind == LinkEndpointKind::Session
            && links[i].target_kind == LinkEndpointKind::CustomListItem) || (
        links[i].source_kind == LinkEndpointKind::CustomListItem && links[i].target_kind
            == LinkEndpointKind::Session)
}

/// True when one desired adjacency entry dooms the link: the link touches
/// that session but its far end is not among the desired presenters.
pub open spec fn spec_link_doomed_by(entry: (u32, Seq<u32>), l: Link) -> bool {
    ||| (spec_outbound(l, entry.0) && !entry.1.contains(l.target_id))
    ||| (spec_inbound(l, entry.0) && !entry.1.contains(l.source_id))
}

/// True when some desired adjacency entry dooms the link.
pub open spec fn spec_link_doomed(adj: Seq<(u32, Seq<u32>)>, l: Link) -> bool {
    exists|i: int| 0 <= i < adj.len() && spec_link_doomed_by(#[trigger] adj[i], l)
}

/// True when an outbound link from `session_id` to `presenter_id` is on
/// record.
pub open spec fn spec_has_outbound(links: Seq<Link>, session_id: u32, presenter_id: u32) -> bool {
    exists|li: int|
        0 <= li < links.len() && spec_outbound(#[trigger] links[li], session_id) && links[
            li
        ].target_id == presenter_id
}

/// True when an inbound link from `presenter_id` to `session_id` is on
/// record.
pub open spec fn spec_has_inbound(links: Seq<Link>, session_id: u32, presenter_id: u32) -> bool {
    exists|li: int|
        0 <= li < links.len() && spec_inbound(#[trigger] links[li], session_id) && links[
            li
        ].source_id == presenter_id
}

/// True when the desired adjacency links `presenter_id` to `session_id`.
pub open spec fn spec_adjacent(adj: Seq<(u32, Seq<u32>)>, session_id: u32, presenter_id: u32) -> bool {
    exists|i: int|
        0 <= i < adj.len() && (#[trigger] adj[i]).0 == session_id && adj[i].1.contains(
            presenter_id,
        )
}

/// True when a new outbound link from `session_id` to `presenter_id` must
/// be created: the pair is desired and no outbound link is on record.
pub open spec fn spec_out_needed(
    adj: Seq<(u32, Seq<u32>)>,
    links: Seq<Link>,
    session_id: u32,
    presenter_id: u32,
) -> bool {
    spec_adjacent(adj, session_id, presenter_id) && !spec_has_outbound(
        links,
        session_id,
        presenter_id,
    )
}

/// True when a new inbound link from `presenter_id` to `session_id` must
/// be created.
pub open spec fn spec_in_needed(
    adj: Seq<(u32, Seq<u32>)>,
    links: Seq<Link>,
    session_id: u32,
    presenter_id: u32,
) -> bool {
    spec_adjacent(adj, session_id, presenter_id) && !spec_has_inbound(
        links,
        session_id,
        presenter_id,
    )
}

/// Membership in a sequence extended by one element.
proof fn lemma_push_contains<A>(s: Seq<A>, x: A)
    ensures
        forall|y: A| #[trigger] s.push(x).contains(y) <==> (s.contains(y) || y == x),
{
    assert forall|y: A| #[trigger] s.push(x).contains(y) implies (s.contains(y) || y == x) by {
        let j = choose|j: int| 0 <= j < s.push(x).len() && s.push(x)[j] == y;
        if j < s.len() {
            assert(s[j] == y);
        }
    }
    assert forall|y: A| (s.contains(y) || y == x) implies s.push(x).contains(y) by {
        if s.contains(y) {
            let j = choose|j: int| 0 <= j < s.len() && s[j] == y;
            assert(s.push(x)[j] == y);
        } else {
            assert(s.push(x)[s.len() as int] == x);
        }
    }
}

/// True when the list holds the value.
pub(crate) fn ids_contain(v: &Vec<u32>, x: u32) -> (r: bool)
    ensures
        r == v@.contains(x),
{
    let mut i: usize = 0;
    while i < v.len()
        invariant
            0 <= i <= v.len(),
            forall|j: int| 0 <= j < i ==> v@[j] != x,
        decreases v.len() - i,
    {
        if v[i] == x {
            return true;
        }
        i += 1;
    }
    false
}

/// Appends the ID unless it is already listed.
fn push_unique_id(v: &mut Vec<u32>, x: u32)
    ensures
        final(v)@ == if old(v)@.contains(x) {
            old(v)@
        } else {
            old(v)@.push(x)
        },
        forall|y: u32| final(v)@.contains(y) <==> (old(v)@.contains(y) || y == x),
        old(v)@.no_duplicates() ==> final(v)@.no_duplicates(),
{
    if !ids_contain(v, x) {
        v.push(x);
        assert(v@.drop_last() == old(v)@);
        assert forall|y: u32| v@.contains(y) implies (old(v)@.contains(y) || y == x) by {
            let j = choose|j: int| 0 <= j < v@.len() && v@[j] == y;
            if j < v@.len() - 1 {
                assert(old(v)@[j] == y);
            }
        }
        assert forall|y: u32| (old(v)@.contains(y) || y == x) implies v@.contains(y) by {
            if old(v)@.contains(y) {
                let j = choose|j: int| 0 <= j < old(v)@.len() && old(v)@[j] == y;
                assert(v@[j] == y);
            } else {
                assert(v@[v@.len() - 1] == x);
            }
        }
    } else {
        assert forall|y: u32| v@.contains(y) <==> (old(v)@.contains(y) || y == x) by {}
    }
}

/// True when an outbound link from the session to the presenter is on
/// record.
fn has_outbound_link(links: &Vec<Link>, session_id: u32, presenter_id: u32) -> (r: bool)
    ensures
        r == spec_has_outbound(links@, session_id, presenter_id),
{
    let mut i: usize = 0;
    while i < links.len()
        invariant
            0 <= i <= links.len(),
            forall|j: int|
                0 <= j < i ==> !(spec_outbound(#[trigger] links@[j], session_id) && links@[j].target_id
                    == presenter_id),
        decreases links.len() - i,
    {
        let l = &links[i];
        if matches!(l.source_kind, LinkEndpointKind::Session) && l.source_id == session_id
            && l.target_id == presenter_id {
            return true;
        }
        i += 1;
    }
    false
}

/// True when an inbound link from the presenter to the session is on
/// record.
fn has_inbound_link(links: &Vec<Link>, session_id: u32, presenter_id: u32) -> (r: bool)
    ensures
        r == spec_has_inbound(links@, session_id, presenter_id),
{
    let mut i: usize = 0;
    while i < links.len()
        invariant
            0 <= i <= links.len(),
            forall|j: int|
                0 <= j < i ==> !(spec_inbound(#[trigger] links@[j], session_id) && links@[j].source_id
                    == presenter_id),
        decreases links.len() - i,
    {
        let l = &links[i];
        if matches!(l.target_kind, LinkEndpointKind::Session) && l.target_id == session_id
            && l.source_id == presenter_id {
            return true;
        }
        i += 1;
    }
    false
}

/// Computes, for every session of the desired adjacency, which of its
/// links must go (their far end is no longer desired) and which pairs
/// still need links, in each direction. Links of sessions outside the
/// adjacency are never touched.
#[verifier::rlimit(100)]
pub fn reconcile_session_links(
    intended_session_to_presenter_links: &Vec<(u32, Vec<u32>)>,
    existing_links: &Vec<Link>,
) -> (r: LinkReconciliation)
    requires
        spec_adjacency_wf(intended_session_to_presenter_links.deep_view()),
    ensures
        forall|id: u32|
            r.links_to_delete@.contains(id) <==> exists|li: int|
                0 <= li < existing_links@.len() && (#[trigger] existing_links@[li]).id == id
                    && spec_link_doomed(
                    intended_session_to_presenter_links.deep_view(),
                    existing_links@[li],
                ),
        r.links_to_delete@.no_duplicates(),
        forall|pr: (u32, u32)|
            r.outbound_links_to_create@.contains(pr) <==> spec_out_needed(
                intended_session_to_presenter_links.deep_view(),
                existing_links@,
                pr.0,
                pr.1,
            ),
        r.outbound_links_to_create@.no_duplicates(),
        forall|pr: (u32, u32)|
            r.inbound_links_to_create@.contains(pr) <==> spec_in_needed(
                intended_session_to_presenter_links.deep_view(),
                existing_links@,
                pr.1,
                pr.0,
            ),
        r.inbound_links_to_create@.no_duplicates(),
{
    let ghost adj = intended_session_to_presenter_links.deep_view();
    let ghost lv = existing_links@;

    let mut links_to_delete: Vec<u32> = Vec::new();
    let mut outbound_links_to_create: Vec<(u32, u32)> = Vec::new();
    let mut inbound_links_to_create: Vec<(u32, u32)> = Vec::new();

    let mut i: usize = 0;
    while i < intended_session_to_presenter_links.len()
        invariant
            0 <= i <= intended_session_to_presenter_links.len(),
            adj == intended_session_to_presenter_links.deep_view(),
            lv == existing_links@,
            adj.len() == intended_session_to_presenter_links.len(),
            spec_adjacency_wf(adj),
            forall|id: u32|
                links_to_delete@.contains(id) <==> exists|li: int|
                    0 <= li < lv.len() && (#[trigger] lv[li]).id == id && spec_link_doomed(
                        adj.take(i as int),
                        lv[li],
                    ),
            links_to_delete@.no_duplicates(),
            forall|pr: (u32, u32)|
                outbound_links_to_create@.contains(pr) <==> spec_out_needed(
                    adj.take(i as int),
                    lv,
                    pr.0,
                    pr.1,
                ),
            outbound_links_to_create@.no_duplicates(),
            forall|pr: (u32, u32)|
                inbound_links_to_create@.contains(pr) <==> spec_in_needed(
                    adj.take(i as int),
                    lv,
                    pr.1,
                    pr.0,
                ),
            inbound_links_to_create@.no_duplicates(),
        decreases intended_session_to_presenter_links.len() - i,
    {
        let session_id = intended_session_to_presenter_links[i].0;
        let presenter_ids = &intended_session_to_presenter_links[i].1;
        let ghost entry = adj[i as int];
        proof {
            assert(entry.0 == session_id);
            assert(entry.1 =~= presenter_ids@);
        }

        // Mark every link of this session whose far end is no longer
        // desired.
        let mut li: usize = 0;
        while li < existing_links.len()
            invariant
                0 <= li <= existing_links.len(),
                lv == existing_links@,
                entry.0 == session_id,
                entry.1 == presenter_ids@,
                forall|id: u32|
                    links_to_delete@.contains(id) <==> exists|lj: int|
                        0 <= lj < lv.len() && (#[trigger] lv[lj]).id == id && (spec_link_doomed(
                            adj.take(i as int),
                            lv[lj],
                        ) || (lj < li && spec_link_doomed_by(entry, lv[lj]))),
                links_to_delete@.no_duplicates(),
            decreases existing_links.len() - li,
        {
            let l = &existing_links[li];
            let doomed_here = if matches!(l.source_kind, LinkEndpointKind::Session)
                && l.source_id == session_id {
                !ids_contain(presenter_ids, l.target_id)
            } else if matches!(l.target_kind, LinkEndpointKind::Session) && l.target_id
                == session_id {
                !ids_contain(presenter_ids, l.source_id)
            } else {
                false
            };
            assert(doomed_here == spec_link_doomed_by(entry, lv[li as int]));
            if doomed_here {
                push_unique_id(&mut links_to_delete, l.id);
            }
            li += 1;
        }

        // Create the links still missing, in each direction.
        let mut pi: usize = 0;
        while pi < presenter_ids.len()
            invariant
                0 <= pi <= presenter_ids.len(),
                adj == intended_session_to_presenter_links.deep_view(),
                lv == existing_links@,
                adj.len() == intended_session_to_presenter_links.len(),
                spec_adjacency_wf(adj),
                0 <= i < adj.len(),
                entry == adj[i as int],
                entry.0 == session_id,
                entry.1 == presenter_ids@,
                forall|pr: (u32, u32)|
                    outbound_links_to_create@.contains(pr) <==> (spec_out_needed(
                        adj.take(i as int),
                        lv,
                        pr.0,
                        pr.1,
                    ) || (pr.0 == session_id && (exists|pj: int|
                        0 <= pj < pi && entry.1[pj] == pr.1) && !spec_has_outbound(
                        lv,
                        session_id,
                        pr.1,
                    ))),
                outbound_links_to_create@.no_duplicates(),
                forall|pr: (u32, u32)|
                    inbound_links_to_create@.contains(pr) <==> (spec_in_needed(
                        adj.take(i as int),
                        lv,
                        pr.1,
                        pr.0,
                    ) || (pr.1 == session_id && (exists|pj: int|
                        0 <= pj < pi && entry.1[pj] == pr.0) && !spec_has_inbound(
                        lv,
                        session_id,
                        pr.0,
                    ))),
                inbound_links_to_create@.no_duplicates(),
            decreases presenter_ids.len() - pi,
        {
            let p = presenter_ids[pi];
            assert(entry.1[pi as int] == p);
            if !has_outbound_link(existing_links, session_id, p) {
                proof {
                    // The pair is new: earlier entries name other
                    // sessions and earlier positions name other
                    // presenters.
                    if outbound_links_to_create@.contains((session_id, p)) {
                        if spec_out_needed(adj.take(i as int), lv, session_id, p) {
                            let k = choose|k: int|
                                0 <= k < adj.take(i as int).len() && (#[trigger] adj.take(
                                    i as int,
                                )[k]).0 == session_id && adj.take(i as int)[k].1.contains(p);
                            assert(adj[k].0 == adj[i as int].0);
                            assert(false);
                        } else {
                            let pj = choose|pj: int| 0 <= pj < pi && entry.1[pj] == p;
                            assert(entry.1[pj] == entry.1[pi as int]);
                            assert(false);
                        }
                    }
                }
                let ghost pre_out = outbound_links_to_create@;
                outbound_links_to_create.push((session_id, p));
                proof {
                    lemma_push_contains(pre_out, (session_id, p));
                    assert(outbound_links_to_create@.drop_last() =~= pre_out);
                    assert(outbound_links_to_create@.no_duplicates());
                }
            }
            if !has_inbound_link(existing_links, session_id, p) {
                proof {
                    if inbound_links_to_create@.contains((p, session_id)) {
                        if spec_in_needed(adj.take(i as int), lv, session_id, p) {
                            let k = choose|k: int|
                                0 <= k < adj.take(i as int).len() && (#[trigger] adj.take(
                                    i as int,
                                )[k]).0 == session_id && adj.take(i as int)[k].1.contains(p);
                            assert(adj[k].0 == adj[i as int].0);
                            assert(false);
                        } else {
                            let pj = choose|pj: int| 0 <= pj < pi && entry.1[pj] == p;
                            assert(entry.1[pj] == entry.1[pi as int]);
                            assert(false);
                        }
                    }
                }
                let ghost pre_in = inbound_links_to_create@;
                inbound_links_to_create.push((p, session_id));
                proof {
                    lemma_push_contains(pre_in, (p, session_id));
                    assert(inbound_links_to_create@.drop_last() =~= pre_in);
                    assert(inbound_links_to_create@.no_duplicates());
                }
            }
            pi += 1;
        }

        proof {
            // Folding this entry into the processed prefix.
            let pre = adj.take(i as int);
            let post = adj.take(i + 1);
            assert(post.drop_last() =~= pre && post.last() == entry);
            assert forall|l: Link| spec_link_doomed(post, l) <==> (spec_link_doomed(pre, l)
                || spec_link_doomed_by(entry, l)) by {
                if spec_link_doomed(pre, l) {
                    let k = choose|k: int| 0 <= k < pre.len() && spec_link_doomed_by(pre[k], l);
                    assert(spec_link_doomed_by(post[k], l));
                }
                if spec_link_doomed_by(entry, l) {
                    assert(spec_link_doomed_by(post[post.len() - 1], l));
                }
                if spec_link_doomed(post, l) {
                    let k = choose|k: int| 0 <= k < post.len() && spec_link_doomed_by(post[k], l);
                    if k < pre.len() {
                        assert(spec_link_doomed_by(pre[k], l));
                    }
                }
            }
            assert forall|s: u32, p: u32| spec_adjacent(post, s, p) <==> (spec_adjacent(pre, s, p)
                || (s == session_id && entry.1.contains(p))) by {
                if spec_adjacent(pre, s, p) {
                    let k = choose|k: int|
                        0 <= k < pre.len() && (#[trigger] pre[k]).0 == s && pre[k].1.contains(p);
                    assert(post[k].0 == s && post[k].1.contains(p));
                }
                if s == session_id && entry.1.contains(p) {
                    assert(post[post.len() - 1].0 == s && post[post.len() - 1].1.contains(p));
                }
                if spec_adjacent(post, s, p) {
                    let k = choose|k: int|
                        0 <= k < post.len() && (#[trigger] post[k]).0 == s && post[k].1.contains(p);
                    if k < pre.len() {
                        assert(pre[k].0 == s && pre[k].1.contains(p));
                    }
                }
            }
            assert forall|pr: (u32, u32)|
                outbound_links_to_create@.contains(pr) <==> spec_out_needed(
                    post,
                    lv,
                    pr.0,
                    pr.1,
                ) by {
                if entry.1.contains(pr.1) && pr.0 == session_id {
                    let pj = choose|pj: int| 0 <= pj < entry.1.len() && entry.1[pj] == pr.1;
                    assert((exists|pj2: int|
                        0 <= pj2 < presenter_ids@.len() && entry.1[pj2] == pr.1));
                }
            }
            assert forall|pr: (u32, u32)|
                inbound_links_to_create@.contains(pr) <==> spec_in_needed(
                    post,
                    lv,
                    pr.1,
                    pr.0,
                ) by {
                if entry.1.contains(pr.0) && pr.1 == session_id {
                    let pj = choose|pj: int| 0 <= pj < entry.1.len() && entry.1[pj] == pr.0;
                    assert((exists|pj2: int|
                        0 <= pj2 < presenter_ids@.len() && entry.1[pj2] == pr.0));
                }
            }
        }
        i += 1;
    }
    proof {
        assert(adj.take(adj.len() as int) =~= adj);
    }

    LinkReconciliation { links_to_delete, outbound_links_to_create, inbound_links_to_create }
}

/// True when the adjacency is well-formed, so that it can be reconciled:
/// session IDs unique, presenter lists free of duplicates.
#[verifier::loop_isolation(false)]
pub fn check_adjacency_wf(adj: &Vec<(u32, Vec<u32>)>) -> (r: bool)
    ensures
        r == spec_adjacency_wf(adj.deep_view()),
{
    let ghost av = adj.deep_view();
    let mut i: usize = 0;
    while i < adj.len()
        invariant
            0 <= i <= adj.len(),
            av == adj.deep_view(),
            av.len() == adj.len(),
            forall|a: int, b: int|
                #![trigger av[a].0, av[b].0]
                0 <= a < b < i ==> av[a].0 != av[b].0,
            forall|a: int| 0 <= a < i ==> (#[trigger] av[a].1).no_duplicates(),
        decreases adj.len() - i,
    {
        let ids = &adj[i].1;
        proof {
            assert(av[i as int].1 =~= ids@);
        }
        let mut j: usize = 0;
        while j < ids.len()
            invariant
                0 <= j <= ids.len(),
                ids@.take(j as int).no_duplicates(),
            decreases ids.len() - j,
        {
            let mut k: usize = 0;
            while k < j
                invariant
                    0 <= k <= j <= ids.len(),
                    forall|a: int| 0 <= a < k ==> ids@[a] != ids@[j as int],
                decreases j - k,
            {
                if ids[k] == ids[j] {
                    assert(!av[i as int].1.no_duplicates());
                    return false;
                }
                k += 1;
            }
            proof {
                assert(ids@.take(j + 1).no_duplicates());
            }
            j += 1;
        }
        proof {
            assert(ids@.take(ids@.len() as int) =~= ids@);
        }
        let mut k: usize = 0;
        while k < i
            invariant
                0 <= k <= i <= adj.len(),
                av == adj.deep_view(),
                av.len() == adj.len(),
                forall|a: int| 0 <= a < k ==> av[a].0 != av[i as int].0,
            decreases i - k,
        {
            if adj[k].0 == adj[i].0 {
                assert(av[k as int].0 == av[i as int].0);
                return false;
            }
            assert(av[k as int].0 != av[i as int].0);
            k += 1;
        }
        i += 1;
    }
    true
}

/// The link store after executing a reconciliation result: doomed links
/// gone, created links appended.
pub open spec fn spec_links_after_apply(
    links: Seq<Link>,
    to_delete: Seq<u32>,
    new_out: Seq<Link>,
    new_in: Seq<Link>,
) -> Seq<Link> {
    links.filter(|l: Link| !to_delete.contains(l.id)) + new_out + new_in
}

/// The links created from the outbound pairs carry exactly those pairs,
/// typed session-to-presenter.
pub open spec fn spec_created_outbound(out_creates: Seq<(u32, u32)>, new_out: Seq<Link>) -> bool {
    &&& new_out.len() == out_creates.len()
    &&& forall|j: int|
        0 <= j < new_out.len() ==> (#[trigger] new_out[j]).source_kind == LinkEndpointKind::Session
            && new_out[j].source_id == out_creates[j].0 && new_out[j].target_kind
            == LinkEndpointKind::CustomListItem && new_out[j].target_id == out_creates[j].1
}

/// The links created from the inbound pairs carry exactly those pairs,
/// typed presenter-to-session.
pub open spec fn spec_created_inbound(in_creates: Seq<(u32, u32)>, new_in: Seq<Link>) -> bool {
    &&& new_in.len() == in_creates.len()
    &&& forall|j: int|
        0 <= j < new_in.len() ==> (#[trigger] new_in[j]).source_kind
            == LinkEndpointKind::CustomListItem && new_in[j].source_id == in_creates[j].0 && new_in[
            j
        ].target_kind == LinkEndpointKind::Session && new_in[j].target_id == in_creates[j].1
}

/// A reconciliation of an adjacency against a store where no link is
/// doomed and no pair lacks its links asks for nothing: its three lists
/// are empty.
pub proof fn lemma_link_rerun_empty(
    adj: Seq<(u32, Seq<u32>)>,
    links: Seq<Link>,
    to_delete: Seq<u32>,
    out_creates: Seq<(u32, u32)>,
    in_creates: Seq<(u32, u32)>,
)
    requires
        forall|id: u32|
            to_delete.contains(id) <==> exists|li: int|
                0 <= li < links.len() && (#[trigger] links[li]).id == id && spec_link_doomed(
                    adj,
                    links[li],
                ),
        forall|pr: (u32, u32)| #[trigger]
            out_creates.contains(pr) <==> spec_out_needed(adj, links, pr.0, pr.1),
        forall|pr: (u32, u32)| #[trigger]
            in_creates.contains(pr) <==> spec_in_needed(adj, links, pr.1, pr.0),
        forall|li: int| 0 <= li < links.len() ==> !spec_link_doomed(adj, #[trigger] links[li]),
        forall|s: u32, p: u32| !spec_out_needed(adj, links, s, p),
        forall|s: u32, p: u32| !spec_in_needed(adj, links, s, p),
    ensures
        to_delete == Seq::<u32>::empty(),
        out_creates == Seq::<(u32, u32)>::empty(),
        in_creates == Seq::<(u32, u32)>::empty(),
{
    if to_delete.len() > 0 {
        assert(to_delete.contains(to_delete[0]));
        assert(false);
    }
    if out_creates.len() > 0 {
        assert(out_creates.contains(out_creates[0]));
        assert(false);
    }
    if in_creates.len() > 0 {
        assert(in_creates.contains(in_creates[0]));
        assert(false);
    }
    assert(to_delete =~= Seq::<u32>::empty());
    assert(out_creates =~= Seq::<(u32, u32)>::empty());
    assert(in_creates =~= Seq::<(u32, u32)>::empty());
}

/// Link convergence: after executing the reconciler's output, every
/// session of the desired adjacency has outbound links to exactly its
/// desired presenters and inbound links from exactly them; and running
/// the reconciler again on the new store asks for no deletion and no
/// creation.
pub proof fn lemma_link_convergence(
    adj: Seq<(u32, Seq<u32>)>,
    links: Seq<Link>,
    to_delete: Seq<u32>,
    out_creates: Seq<(u32, u32)>,
    in_creates: Seq<(u32, u32)>,
    new_out: Seq<Link>,
    new_in: Seq<Link>,
)
    requires
        spec_adjacency_wf(adj),
        spec_links_wf(links),
        // the three lists are a reconciliation of `adj` against `links`
        forall|id: u32|
            to_delete.contains(id) <==> exists|li: int|
                0 <= li < links.len() && (#[trigger] links[li]).id == id && spec_link_doomed(
                    adj,
                    links[li],
                ),
        forall|pr: (u32, u32)| #[trigger]
            out_creates.contains(pr) <==> spec_out_needed(adj, links, pr.0, pr.1),
        forall|pr: (u32, u32)| #[trigger]
            in_creates.contains(pr) <==> spec_in_needed(adj, links, pr.1, pr.0),
        // executing the creations made one well-typed link per pair
        spec_created_outbound(out_creates, new_out),
        spec_created_inbound(in_creates, new_in),
    ensures
        ({
            let applied = spec_links_after_apply(links, to_delete, new_out, new_in);
            &&& forall|i: int, p: u32|
                0 <= i < adj.len() ==> ((#[trigger] adj[i].1.contains(p)) <==> exists|li: int|
                    0 <= li < applied.len() && spec_outbound(#[trigger] applied[li], adj[i].0)
                        && applied[li].target_id == p)
            &&& forall|i: int, p: u32|
                0 <= i < adj.len() ==> ((#[trigger] adj[i].1.contains(p)) <==> exists|li: int|
                    0 <= li < applied.len() && spec_inbound(#[trigger] applied[li], adj[i].0)
                        && applied[li].source_id == p)
            &&& forall|li: int|
                0 <= li < applied.len() ==> !spec_link_doomed(adj, #[trigger] applied[li])
            &&& forall|s: u32, p: u32| !spec_out_needed(adj, applied, s, p)
            &&& forall|s: u32, p: u32| !spec_in_needed(adj, applied, s, p)
        }),
{
    broadcast use vstd::seq_lib::group_seq_properties;

    let kept = links.filter(|l: Link| !to_delete.contains(l.id));
    let applied = spec_links_after_apply(links, to_delete, new_out, new_in);
    let pred = |l: Link| !to_delete.contains(l.id);

    // A link on record is kept exactly when no adjacency entry dooms it.
    assert forall|li: int| 0 <= li < links.len() implies (kept.contains(#[trigger] links[li])
        <==> !spec_link_doomed(adj, links[li])) by {
        if !spec_link_doomed(adj, links[li]) {
            if to_delete.contains(links[li].id) {
                let lj = choose|lj: int|
                    0 <= lj < links.len() && (#[trigger] links[lj]).id == links[li].id
                        && spec_link_doomed(adj, links[lj]);
                assert(lj == li);
            }
            links.lemma_filter_contains(pred, li);
        }
        if kept.contains(links[li]) {
            assert(pred(links[li]));
            assert(!to_delete.contains(links[li].id));
        }
    }

    // Kept links come from the record.
    assert forall|l: Link| #[trigger] kept.contains(l) implies links.contains(l) && !to_delete.contains(
        l.id,
    ) && !spec_link_doomed(adj, l) by {
        links.lemma_filter_contains_rev(pred, l);
        let li = choose|li: int| 0 <= li < links.len() && links[li] == l;
        assert(kept.contains(links[li]));
    }

    // Membership in the applied store, by block.
    assert forall|l: Link| #[trigger] applied.contains(l) implies (kept.contains(l)
        || new_out.contains(l) || new_in.contains(l)) by {
        let li = choose|li: int| 0 <= li < applied.len() && applied[li] == l;
        if li < kept.len() {
            assert(kept[li] == l);
        } else if li < kept.len() + new_out.len() {
            assert(new_out[li - kept.len()] == l);
        } else {
            assert(new_in[li - kept.len() - new_out.len()] == l);
        }
    }
    assert forall|l: Link| (kept.contains(l) || new_out.contains(l) || new_in.contains(
        l,
    )) implies #[trigger] applied.contains(l) by {
        if kept.contains(l) {
            let li = choose|li: int| 0 <= li < kept.len() && kept[li] == l;
            assert(applied[li] == l);
        } else if new_out.contains(l) {
            let li = choose|li: int| 0 <= li < new_out.len() && new_out[li] == l;
            assert(applied[kept.len() + li] == l);
        } else {
            let li = choose|li: int| 0 <= li < new_in.len() && new_in[li] == l;
            assert(applied[kept.len() + new_out.len() + li] == l);
        }
    }

    // No applied link is doomed, in each block.
    assert forall|li: int| 0 <= li < applied.len() implies !spec_link_doomed(
        adj,
        #[trigger] applied[li],
    ) by {
        let l = applied[li];
        assert(applied.contains(l));
        if kept.contains(l) {
        } else if new_out.contains(l) {
            let j = choose|j: int| 0 <= j < new_out.len() && new_out[j] == l;
            let pr = out_creates[j];
            assert(out_creates.contains(pr));
            assert(spec_out_needed(adj, links, pr.0, pr.1));
            let i = choose|i: int|
                0 <= i < adj.len() && (#[trigger] adj[i]).0 == pr.0 && adj[i].1.contains(pr.1);
            if spec_link_doomed(adj, l) {
                let k = choose|k: int| 0 <= k < adj.len() && spec_link_doomed_by(#[trigger] adj[k], l);
                if spec_outbound(l, adj[k].0) {
                    assert(adj[k].0 == adj[i].0);
                    assert(k == i);
                    assert(false);
                } else {
                    assert(spec_inbound(l, adj[k].0));
                    assert(l.target_kind == LinkEndpointKind::CustomListItem);
                    assert(false);
                }
            }
        } else {
            let j = choose|j: int| 0 <= j < new_in.len() && new_in[j] == l;
            let pr = in_creates[j];
            assert(in_creates.contains(pr));
            assert(spec_in_needed(adj, links, pr.1, pr.0));
            let i = choose|i: int|
                0 <= i < adj.len() && (#[trigger] adj[i]).0 == pr.1 && adj[i].1.contains(pr.0);
            if spec_link_doomed(adj, l) {
                let k = choose|k: int| 0 <= k < adj.len() && spec_link_doomed_by(#[trigger] adj[k], l);
                if spec_inbound(l, adj[k].0) {
                    assert(adj[k].0 == adj[i].0);
                    assert(k == i);
                    assert(false);
                } else {
                    assert(spec_outbound(l, adj[k].0));
                    assert(l.source_kind == LinkEndpointKind::CustomListItem);
                    assert(false);
                }
            }
        }
    }

    // Outbound convergence: desired presenters and outbound targets
    // coincide for every session of the adjacency.
    assert forall|i: int, p: u32| 0 <= i < adj.len() implies ((#[trigger] adj[i].1.contains(p))
        <==> exists|li: int|
        0 <= li < applied.len() && spec_outbound(#[trigger] applied[li], adj[i].0) && applied[
        li
    ].target_id == p) by {
        let s = adj[i].0;
        if adj[i].1.contains(p) {
            if spec_has_outbound(links, s, p) {
                let lj = choose|lj: int|
                    0 <= lj < links.len() && spec_outbound(#[trigger] links[lj], s) && links[
                        lj
                    ].target_id == p;
                let l = links[lj];
                // That link is kept: only entry `i` can doom it, and `p`
                // is desired there.
                if spec_link_doomed(adj, l) {
                    let k = choose|k: int|
                        0 <= k < adj.len() && spec_link_doomed_by(#[trigger] adj[k], l);
                    if spec_outbound(l, adj[k].0) {
                        assert(adj[k].0 == s && adj[i].0 == s);
                        assert(k == i);
                        assert(false);
                    } else {
                        assert(links.contains(l));
                        let lli = choose|lli: int| 0 <= lli < links.len() && links[lli] == l;
                        assert(l.target_kind == LinkEndpointKind::CustomListItem);
                        assert(false);
                    }
                }
                assert(kept.contains(l));
                assert(applied.contains(l));
                let li = choose|li: int| 0 <= li < applied.len() && applied[li] == l;
            } else {
                assert(spec_out_needed(adj, links, s, p));
                assert(out_creates.contains((s, p)));
                let j = choose|j: int| 0 <= j < out_creates.len() && out_creates[j] == (s, p);
                let l = new_out[j];
                assert(spec_outbound(l, s) && l.target_id == p);
                assert(new_out.contains(l));
                assert(applied.contains(l));
                let li = choose|li: int| 0 <= li < applied.len() && applied[li] == l;
            }
        }
        if exists|li: int|
            0 <= li < applied.len() && spec_outbound(#[trigger] applied[li], s) && applied[
                li
            ].target_id == p {
            let li = choose|li: int|
                0 <= li < applied.len() && spec_outbound(#[trigger] applied[li], s) && applied[
                    li
                ].target_id == p;
            let l = applied[li];
            assert(applied.contains(l));
            if kept.contains(l) {
                // Not doomed, so entry `i` did not doom it: `p` is
                // desired.
                assert(!spec_link_doomed(adj, l));
                assert(!spec_link_doomed_by(adj[i], l));
                assert(adj[i].1.contains(p));
            } else if new_out.contains(l) {
                let j = choose|j: int| 0 <= j < new_out.len() && new_out[j] == l;
                let pr = out_creates[j];
                assert(out_creates.contains(pr));
                assert(pr.0 == s && pr.1 == p);
                assert(spec_adjacent(adj, s, p));
                let k = choose|k: int|
                    0 <= k < adj.len() && (#[trigger] adj[k]).0 == s && adj[k].1.contains(p);
                assert(k == i);
            } else {
                let j = choose|j: int| 0 <= j < new_in.len() && new_in[j] == l;
                assert(l.source_kind == LinkEndpointKind::CustomListItem);
                assert(false);
            }
        }
    }

    // Inbound convergence, symmetrically.
    assert forall|i: int, p: u32| 0 <= i < adj.len() implies ((#[trigger] adj[i].1.contains(p))
        <==> exists|li: int|
        0 <= li < applied.len() && spec_inbound(#[trigger] applied[li], adj[i].0) && applied[
        li
    ].source_id == p) by {
        let s = adj[i].0;
        if adj[i].1.contains(p) {
            if spec_has_inbound(links, s, p) {
                let lj = choose|lj: int|
                    0 <= lj < links.len() && spec_inbound(#[trigger] links[lj], s) && links[
                        lj
                    ].source_id == p;
                let l = links[lj];
                if spec_link_doomed(adj, l) {
                    let k = choose|k: int|
                        0 <= k < adj.len() && spec_link_doomed_by(#[trigger] adj[k], l);
                    if spec_inbound(l, adj[k].0) {
                        assert(adj[k].0 == s && adj[i].0 == s);
                        assert(k == i);
                        assert(false);
                    } else {
                        assert(links.contains(l));
                        let lli = choose|lli: int| 0 <= lli < links.len() && links[lli] == l;
                        assert(l.source_kind == LinkEndpointKind::CustomListItem);
                        assert(false);
                    }
                }
                assert(kept.contains(l));
                assert(applied.contains(l));
                let li = choose|li: int| 0 <= li < applied.len() && applied[li] == l;
            } else {
                assert(spec_in_needed(adj, links, s, p));
                assert(in_creates.contains((p, s)));
                let j = choose|j: int| 0 <= j < in_creates.len() && in_creates[j] == (p, s);
                let l = new_in[j];
                assert(spec_inbound(l, s) && l.source_id == p);
                assert(new_in.contains(l));
                assert(applied.contains(l));
                let li = choose|li: int| 0 <= li < applied.len() && applied[li] == l;
            }
        }
        if exists|li: int|
            0 <= li < applied.len() && spec_inbound(#[trigger] applied[li], s) && applied[
                li
            ].source_id == p {
            let li = choose|li: int|
                0 <= li < applied.len() && spec_inbound(#[trigger] applied[li], s) && applied[
                    li
                ].source_id == p;
            let l = applied[li];
            assert(applied.contains(l));
            if kept.contains(l) {
                assert(!spec_link_doomed(adj, l));
                assert(!spec_link_doomed_by(adj[i], l));
                assert(adj[i].1.contains(p));
            } else if new_in.contains(l) {
                let j = choose|j: int| 0 <= j < new_in.len() && new_in[j] == l;
                let pr = in_creates[j];
                assert(in_creates.contains(pr));
                assert(pr.1 == s && pr.0 == p);
                assert(spec_adjacent(adj, s, p));
                let k = choose|k: int|
                    0 <= k < adj.len() && (#[trigger] adj[k]).0 == s && adj[k].1.contains(p);
                assert(k == i);
            } else {
                let j = choose|j: int| 0 <= j < new_out.len() && new_out[j] == l;
                assert(l.target_kind == LinkEndpointKind::CustomListItem);
                assert(false);
            }
        }
    }

    // Re-running asks for no creation: every desired pair now has its
    // links.
    assert forall|s: u32, p: u32| !spec_out_needed(adj, applied, s, p) by {
        if spec_adjacent(adj, s, p) {
            let i = choose|i: int|
                0 <= i < adj.len() && (#[trigger] adj[i]).0 == s && adj[i].1.contains(p);
            assert(exists|li: int|
                0 <= li < applied.len() && spec_outbound(#[trigger] applied[li], s) && applied[
                    li
                ].target_id == p);
        }
    }
    assert forall|s: u32, p: u32| !spec_in_needed(adj, applied, s, p) by {
        if spec_adjacent(adj, s, p) {
            let i = choose|i: int|
                0 <= i < adj.len() && (#[trigger] adj[i]).0 == s && adj[i].1.contains(p);
            assert(exists|li: int|
                0 <= li < applied.len() && spec_inbound(#[trigger] applied[li], s) && applied[
                    li
                ].source_id == p);
        }
    }
}

} // verus!

