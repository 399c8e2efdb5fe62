//! The link reconciler: the delete/create partition per direction, the
//! untouched out-of-scope sessions, and convergence after applying a
//! result.

use guidesync::synchronize_links::{
    check_adjacency_wf, reconcile_session_links, Link, LinkEndpointKind,
};

fn outbound(id: u32, session: u32, presenter: u32) -> Link {
    Link {
        id,
        source_kind: LinkEndpointKind::Session,
        source_id: session,
        target_kind: LinkEndpointKind::CustomListItem,
        target_id: presenter,
    }
}

fn inbound(id: u32, presenter: u32, session: u32) -> Link {
    Link {
        id,
        source_kind: LinkEndpointKind::CustomListItem,
        source_id: presenter,
        target_kind: LinkEndpointKind::Session,
        target_id: session,
    }
}

#[test]
fn scenario_link_partition() {
    // desired adjacency {session 10: {presenter 5, 6}},
    // existing edges {10->5 outbound, 5->10 inbound, 10->7 outbound}
    let adjacency = vec![(10u32, vec![5u32, 6u32])];
    let links = vec![outbound(1, 10, 5), inbound(2, 5, 10), outbound(3, 10, 7)];
    let r = reconcile_session_links(&adjacency, &links);
    assert_eq!(r.links_to_delete, vec![3]);
    assert_eq!(r.outbound_links_to_create, vec![(10, 6)]);
    assert_eq!(r.inbound_links_to_create, vec![(6, 10)]);
}

#[test]
fn out_of_scope_sessions_are_untouched() {
    // session 99 is not in the adjacency: its links are not examined
    let adjacency = vec![(10u32, vec![5u32])];
    let links = vec![
        outbound(1, 10, 5),
        inbound(2, 5, 10),
        outbound(7, 99, 123),
        inbound(8, 123, 99),
    ];
    let r = reconcile_session_links(&adjacency, &links);
    assert!(r.links_to_delete.is_empty());
    assert!(r.outbound_links_to_create.is_empty());
    assert!(r.inbound_links_to_create.is_empty());
}

#[test]
fn missing_directions_are_created_independently() {
    // the outbound half exists, the inbound half is missing
    let adjacency = vec![(10u32, vec![5u32])];
    let links = vec![outbound(1, 10, 5)];
    let r = reconcile_session_links(&adjacency, &links);
    assert!(r.links_to_delete.is_empty());
    assert!(r.outbound_links_to_create.is_empty());
    assert_eq!(r.inbound_links_to_create, vec![(5, 10)]);
}

#[test]
fn empty_desired_list_deletes_all_session_links() {
    let adjacency = vec![(10u32, vec![])];
    let links = vec![outbound(1, 10, 5), inbound(2, 5, 10)];
    let r = reconcile_session_links(&adjacency, &links);
    let mut deleted = r.links_to_delete.clone();
    deleted.sort();
    assert_eq!(deleted, vec![1, 2]);
    assert!(r.outbound_links_to_create.is_empty());
    assert!(r.inbound_links_to_create.is_empty());
}

#[test]
fn link_reconciliation_converges() {
    let adjacency = vec![(10u32, vec![5u32, 6u32]), (11u32, vec![5u32])];
    let links = vec![
        outbound(1, 10, 5),
        inbound(2, 5, 10),
        outbound(3, 10, 7),
        inbound(4, 7, 10),
    ];
    assert!(check_adjacency_wf(&adjacency));
    let r = reconcile_session_links(&adjacency, &links);

    // apply: drop deleted links, append created ones with fresh IDs
    let mut applied: Vec<Link> = links
        .iter()
        .filter(|l| !r.links_to_delete.contains(&l.id))
        .cloned()
        .collect();
    let mut next_id = 100;
    for (s, p) in &r.outbound_links_to_create {
        applied.push(outbound(next_id, *s, *p));
        next_id += 1;
    }
    for (p, s) in &r.inbound_links_to_create {
        applied.push(inbound(next_id, *p, *s));
        next_id += 1;
    }

    // the outbound targets of each desired session now equal its list
    for (s, ps) in &adjacency {
        let mut targets: Vec<u32> = applied
            .iter()
            .filter(|l| l.source_kind == LinkEndpointKind::Session && l.source_id == *s)
            .map(|l| l.target_id)
            .collect();
        targets.sort();
        let mut want = ps.clone();
        want.sort();
        assert_eq!(targets, want);
    }

    // re-running asks for nothing
    let again = reconcile_session_links(&adjacency, &applied);
    assert!(again.links_to_delete.is_empty());
    assert!(again.outbound_links_to_create.is_empty());
    assert!(again.inbound_links_to_create.is_empty());
}

#[test]
fn adjacency_wf_rejects_duplicates() {
    assert!(!check_adjacency_wf(&vec![(10u32, vec![5u32]), (10u32, vec![6u32])]));
    assert!(!check_adjacency_wf(&vec![(10u32, vec![5u32, 5u32])]));
    assert!(check_adjacency_wf(&vec![(10u32, vec![5u32, 6u32]), (11u32, vec![5u32])]));
}
