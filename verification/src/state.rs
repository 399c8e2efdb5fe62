//! The synchronization driver: a strict linear pipeline of named stages.
//!
//! Each stage carries forward only the data later stages need. A step
//! either folds in the outcome of exactly one external effect (a fetch,
//! or a batch of writes followed by a re-fetch, delivered as a
//! [`StepEvent`]) or performs exactly one pure computation (parse,
//! synthesize, reconcile), never both. The ordering is load-bearing:
//! schedule tracks and presenters are reconciled and re-fetched before
//! session payloads referencing their remote IDs are built, and sessions
//! are reconciled and re-fetched before the session-to-presenter links
//! are converged.

use vstd::prelude::*;
use vstd::seq_lib::*;

use crate::config::Config;
use crate::guidebook::model::{
    GuidebookPresenter, GuidebookScheduleTrack, GuidebookSession, GuidebookSessionV,
};
use crate::nasup_to_guidebook::{
    spec_distinct_presenters_upto, spec_presenter_link_ids, spec_presenter_to_guidebook,
    spec_session_to_guidebook, spec_strand_names_upto, spec_audience_names_upto, spec_track_for,
    WithLinks,
};
use crate::parse_nasup::parse_model::{
    ParseError, ParsedNasupPresenterWithInstitutionBySession, ParsedNasupSession,
    ParsedNasupStrandAndIntendedAudience,
};
use crate::parse_nasup::parse_presenter_institutions::{
    parse_nasup_presenter_institutions_from_worksheet, spec_parse_pi_upto,
};
use crate::parse_nasup::parse_sessions::{
    parse_nasup_sessions_from_worksheet, spec_parse_sessions_upto,
};
use crate::parse_nasup::parse_strands::{parse_nasup_strands_from_worksheet, spec_parse_strands_upto};
use crate::reconcile_guidebook::{
    reconcile_intended_and_existing_guidebook_sessions, spec_existing_sessions_wf,
    spec_intended_sessions_wf, spec_session_key_index, spec_session_keyed, spec_session_orphans,
    spec_sessions_to_create, spec_sessions_to_update, SessionReconciliation,
};
use crate::reconcile_guidebook_presenters::{
    reconcile_intended_and_existing_guidebook_presenters, spec_presenters_to_create,
    spec_presenters_to_update, PresenterReconciliation,
};
use crate::reconcile_guidebook_strands::{
    reconcile_intended_and_existing_guidebook_schedule_tracks, spec_tracks_to_create,
    StrandsReconciliation,
};
use crate::sheet::SheetCell;
use crate::synth_nasup::{
    spec_primary_key, spec_synthesize_upto, synthesize_parsed_nasup_data, NasupSession,
    SynthError,
};

verus! {

/// The pipeline stages, each carrying exactly the data later stages need.
pub enum MasterState {
    Start,
    FetchedSheets {
        sessions_worksheet: Vec<Vec<SheetCell>>,
        presenter_worksheet: Vec<Vec<SheetCell>>,
        strands_worksheet: Vec<Vec<SheetCell>>,
    },
    ParsedInputs {
        sessions: Vec<ParsedNasupSession>,
        presenters: Vec<ParsedNasupPresenterWithInstitutionBySession>,
        strands: Vec<ParsedNasupStrandAndIntendedAudience>,
    },
    SynthesizedInputs { sessions: Vec<NasupSession> },
    FetchedStrandsState {
        sessions: Vec<NasupSession>,
        intended_strands: Vec<GuidebookScheduleTrack>,
        existing_strands: Vec<GuidebookScheduleTrack>,
    },
    CalculatedStrandsReconciliation {
        sessions: Vec<NasupSession>,
        strands_reconciliation: StrandsReconciliation,
    },
    ExecutedStrandsReconciliation {
        sessions: Vec<NasupSession>,
        existing_strands: Vec<GuidebookScheduleTrack>,
    },
    FetchedGuidebookPresenterState {
        sessions: Vec<NasupSession>,
        existing_strands: Vec<GuidebookScheduleTrack>,
        intended_presenters: Vec<GuidebookPresenter>,
        existing_presenters: Vec<GuidebookPresenter>,
    },
    CalculatedPresenterReconciliation {
        sessions: Vec<NasupSession>,
        existing_strands: Vec<GuidebookScheduleTrack>,
        presenter_reconciliation: PresenterReconciliation,
    },
    ExecutedPresenterReconciliation {
        sessions: Vec<NasupSession>,
        existing_strands: Vec<GuidebookScheduleTrack>,
        existing_presenters: Vec<GuidebookPresenter>,
    },
    FetchedGuidebookSessionState {
        intended_sessions: Vec<GuidebookSession>,
        existing_sessions: Vec<GuidebookSession>,
        intended_session_import_id_to_presenter_link_map: Vec<(String, Vec<u32>)>,
    },
    CalculatedSessionReconciliation {
        session_reconciliation: SessionReconciliation,
        intended_session_import_id_to_presenter_link_map: Vec<(String, Vec<u32>)>,
    },
    ExecutedSessionReconciliation { intended_session_to_presenter_link_map: Vec<(u32, Vec<u32>)> },
    SynchronizedLinks,
}

/// The outcome of the single external effect a stage asked for, handed
/// back by the caller; `Proceed` drives the purely computational stages.
pub enum StepEvent {
    SheetsFetched {
        sessions_worksheet: Vec<Vec<SheetCell>>,
        presenter_worksheet: Vec<Vec<SheetCell>>,
        strands_worksheet: Vec<Vec<SheetCell>>,
    },
    Proceed,
    StrandsFetched { existing_strands: Vec<GuidebookScheduleTrack> },
    StrandsReconciliationExecuted { existing_strands: Vec<GuidebookScheduleTrack> },
    PresentersFetched { existing_presenters: Vec<GuidebookPresenter> },
    PresenterReconciliationExecuted { existing_presenters: Vec<GuidebookPresenter> },
    SessionsFetched { existing_sessions: Vec<GuidebookSession> },
    SessionReconciliationExecuted { existing_sessions: Vec<GuidebookSession> },
    LinksSynchronized,
}

/// Why a step failed. Every failure aborts the run; entities already
/// written earlier in the same run remain remote.
#[derive(Clone, Copy, Debug, PartialEq, Eq, Structural)]
pub enum StepError {
    /// The event is not the one the current stage needs.
    UnexpectedEvent,
    Parse(ParseError),
    Synth(SynthError),
    /// Two desired sessions carry the same correlation key; a collision
    /// is a caller error.
    DuplicateImportKey,
    /// Two remote sessions carry the same correlation key.
    DuplicateRemoteKey,
}

/// The intended schedule tracks of the desired sessions: one per distinct
/// strand, then one per distinct intended audience.
pub open spec fn spec_intended_tracks(
    guide_id: u32,
    ss: Seq<crate::synth_nasup::NasupSessionV>,
) -> Seq<crate::guidebook::model::GuidebookScheduleTrackV> {
    (spec_strand_names_upto(ss, ss.len() as int) + spec_audience_names_upto(
        ss,
        ss.len() as int,
    )).map_values(|n: Seq<char>| spec_track_for(guide_id, n))
}

/// The intended presenters of the desired sessions.
pub open spec fn spec_intended_presenters(
    guide_id: u32,
    ss: Seq<crate::synth_nasup::NasupSessionV>,
) -> Seq<crate::guidebook::model::GuidebookPresenterV> {
    spec_distinct_presenters_upto(ss, ss.len() as int).map_values(
        |p: crate::synth_nasup::NasupPresenterV| spec_presenter_to_guidebook(guide_id, p),
    )
}

/// The link-map entry of one desired session: its correlation key, and
/// the presenter remote-IDs it must be linked to.
pub open spec fn spec_link_map_entry(
    guide_id: u32,
    existing_presenters: Seq<crate::guidebook::model::GuidebookPresenterV>,
    ns: crate::synth_nasup::NasupSessionV,
) -> (Seq<char>, Seq<u32>) {
    (
        spec_primary_key(ns.title, ns.room, ns.start_datetime, ns.end_datetime),
        spec_presenter_link_ids(existing_presenters, guide_id, ns.approved_presenters),
    )
}

/// The IDs with later duplicates removed, keeping first appearances.
pub open spec fn spec_dedup_ids_upto(ids: Seq<u32>, n: int) -> Seq<u32>
    decreases n,
{
    if n <= 0 {
        Seq::empty()
    } else {
        let acc = spec_dedup_ids_upto(ids, n - 1);
        if acc.contains(ids[n - 1]) {
            acc
        } else {
            acc.push(ids[n - 1])
        }
    }
}

/// True when the adjacency already names the session.
pub open spec fn spec_adj_has(adj: Seq<(u32, Seq<u32>)>, id: u32) -> bool {
    exists|i: int| 0 <= i < adj.len() && (#[trigger] adj[i]).0 == id
}

/// How one link-map entry resolves against the re-fetched sessions: the
/// remote ID of the session carrying the key, with the presenter list
/// deduplicated; entries whose key or ID cannot be resolved are dropped.
pub open spec fn spec_resolve_link_entry(
    e: Seq<GuidebookSessionV>,
    entry: (Seq<char>, Seq<u32>),
) -> Option<(u32, Seq<u32>)> {
    if spec_session_keyed(e, entry.0) {
        match e[spec_session_key_index(e, entry.0)].id {
            Some(id) => Some((id, spec_dedup_ids_upto(entry.1, entry.1.len() as int))),
            None => None,
        }
    } else {
        None
    }
}

/// The desired adjacency resolved from the first `n` link-map entries;
/// an entry whose session is already listed is dropped, so the adjacency
/// stays well-formed.
pub open spec fn spec_adjacency_upto(
    e: Seq<GuidebookSessionV>,
    lm: Seq<(Seq<char>, Seq<u32>)>,
    n: int,
) -> Seq<(u32, Seq<u32>)>
    decreases n,
{
    if n <= 0 {
        Seq::empty()
    } else {
        let acc = spec_adjacency_upto(e, lm, n - 1);
        match spec_resolve_link_entry(e, lm[n - 1]) {
            Some(entry) => if spec_adj_has(acc, entry.0) {
                acc
            } else {
                acc.push(entry)
            },
            None => acc,
        }
    }
}

/// Which events fit which stages.
pub open spec fn spec_event_fits(pre: MasterState, ev: StepEvent) -> bool {
    match (pre, ev) {
        (MasterState::Start, StepEvent::SheetsFetched { .. }) => true,
        (MasterState::FetchedSheets { .. }, StepEvent::Proceed) => true,
        (MasterState::ParsedInputs { .. }, StepEvent::Proceed) => true,
        (MasterState::SynthesizedInputs { .. }, StepEvent::StrandsFetched { .. }) => true,
        (MasterState::FetchedStrandsState { .. }, StepEvent::Proceed) => true,
        (
            MasterState::CalculatedStrandsReconciliation { .. },
            StepEvent::StrandsReconciliationExecuted { .. },
        ) => true,
        (
            MasterState::ExecutedStrandsReconciliation { .. },
            StepEvent::PresentersFetched { .. },
        ) => true,
        (MasterState::FetchedGuidebookPresenterState { .. }, StepEvent::Proceed) => true,
        (
            MasterState::CalculatedPresenterReconciliation { .. },
            StepEvent::PresenterReconciliationExecuted { .. },
        ) => true,
        (
            MasterState::ExecutedPresenterReconciliation { .. },
            StepEvent::SessionsFetched { .. },
        ) => true,
        (MasterState::FetchedGuidebookSessionState { .. }, StepEvent::Proceed) => true,
        (
            MasterState::CalculatedSessionReconciliation { .. },
            StepEvent::SessionReconciliationExecuted { .. },
        ) => true,
        (MasterState::ExecutedSessionReconciliation { .. }, StepEvent::LinksSynchronized) => true,
        _ => false,
    }
}

/// What a successful step yields: the defined successor stage, with every
/// carried field unchanged and every computed field pinned by the
/// corresponding component specification.
pub open spec fn spec_step_ok(
    pre: MasterState,
    config: Config,
    ev: StepEvent,
    post: MasterState,
) -> bool {
    match (pre, ev) {
        (
            MasterState::Start,
            StepEvent::SheetsFetched { sessions_worksheet, presenter_worksheet, strands_worksheet },
        ) => post == (MasterState::FetchedSheets {
            sessions_worksheet,
            presenter_worksheet,
            strands_worksheet,
        }),
        (
            MasterState::FetchedSheets { sessions_worksheet, presenter_worksheet, strands_worksheet },
            StepEvent::Proceed,
        ) => {
            &&& post matches MasterState::ParsedInputs { sessions, presenters, strands }
            &&& spec_parse_sessions_upto(
                sessions_worksheet.deep_view(),
                sessions_worksheet.deep_view().len() as int,
            ) == Ok::<_, ParseError>(sessions.deep_view())
            &&& spec_parse_pi_upto(
                presenter_worksheet.deep_view(),
                presenter_worksheet.deep_view().len() as int,
            ) == Ok::<_, ParseError>(presenters.deep_view())
            &&& spec_parse_strands_upto(
                strands_worksheet.deep_view(),
                strands_worksheet.deep_view().len() as int,
            ) == Ok::<_, ParseError>(strands.deep_view())
        },
        (MasterState::ParsedInputs { sessions, presenters, strands }, StepEvent::Proceed) => {
            &&& post matches MasterState::SynthesizedInputs { sessions: out }
            &&& spec_synthesize_upto(
                sessions.deep_view(),
                presenters.deep_view(),
                strands.deep_view(),
                sessions.deep_view().len() as int,
            ) == Ok::<_, SynthError>(out.deep_view())
        },
        (
            MasterState::SynthesizedInputs { sessions },
            StepEvent::StrandsFetched { existing_strands },
        ) => {
            &&& post matches MasterState::FetchedStrandsState {
                sessions: s2,
                intended_strands,
                existing_strands: e2,
            }
            &&& s2.deep_view() == sessions.deep_view()
            &&& intended_strands.deep_view() == spec_intended_tracks(
                config.guide_id,
                sessions.deep_view(),
            )
            &&& e2 == existing_strands
        },
        (
            MasterState::FetchedStrandsState { sessions, intended_strands, existing_strands },
            StepEvent::Proceed,
        ) => {
            &&& post matches MasterState::CalculatedStrandsReconciliation {
                sessions: s2,
                strands_reconciliation,
            }
            &&& s2 == sessions
            &&& strands_reconciliation.strands_to_create.deep_view() == spec_tracks_to_create(
                intended_strands.deep_view(),
                existing_strands.deep_view(),
            )
        },
        (
            MasterState::CalculatedStrandsReconciliation { sessions, .. },
            StepEvent::StrandsReconciliationExecuted { existing_strands },
        ) => post == (MasterState::ExecutedStrandsReconciliation { sessions, existing_strands }),
        (
            MasterState::ExecutedStrandsReconciliation { sessions, existing_strands },
            StepEvent::PresentersFetched { existing_presenters },
        ) => {
            &&& post matches MasterState::FetchedGuidebookPresenterState {
                sessions: s2,
                existing_strands: st2,
                intended_presenters,
                existing_presenters: ep2,
            }
            &&& s2 == sessions
            &&& st2 == existing_strands
            &&& ep2 == existing_presenters
            &&& intended_presenters.deep_view() == spec_intended_presenters(
                config.guide_id,
                sessions.deep_view(),
            )
        },
        (
            MasterState::FetchedGuidebookPresenterState {
                sessions,
                existing_strands,
                intended_presenters,
                existing_presenters,
            },
            StepEvent::Proceed,
        ) => {
            &&& post matches MasterState::CalculatedPresenterReconciliation {
                sessions: s2,
                existing_strands: st2,
                presenter_reconciliation,
            }
            &&& s2 == sessions
            &&& st2 == existing_strands
            &&& presenter_reconciliation.presenters_to_create.deep_view()
                == spec_presenters_to_create(
                intended_presenters.deep_view(),
                existing_presenters.deep_view(),
            )
            &&& presenter_reconciliation.presenters_to_update.deep_view()
                == spec_presenters_to_update(
                intended_presenters.deep_view(),
                existing_presenters.deep_view(),
            )
        },
        (
            MasterState::CalculatedPresenterReconciliation { sessions, existing_strands, .. },
            StepEvent::PresenterReconciliationExecuted { existing_presenters },
        ) => post == (MasterState::ExecutedPresenterReconciliation {
            sessions,
            existing_strands,
            existing_presenters,
        }),
        (
            MasterState::ExecutedPresenterReconciliation {
                sessions,
                existing_strands,
                existing_presenters,
            },
            StepEvent::SessionsFetched { existing_sessions },
        ) => {
            &&& post matches MasterState::FetchedGuidebookSessionState {
                intended_sessions,
                existing_sessions: es2,
                intended_session_import_id_to_presenter_link_map: lm,
            }
            &&& es2 == existing_sessions
            &&& intended_sessions.deep_view() == sessions.deep_view().map_values(
                |ns: crate::synth_nasup::NasupSessionV|
                    spec_session_to_guidebook(config.guide_id, ns, existing_strands.deep_view()),
            )
            &&& lm.deep_view() == sessions.deep_view().map_values(
                |ns: crate::synth_nasup::NasupSessionV|
                    spec_link_map_entry(config.guide_id, existing_presenters.deep_view(), ns),
            )
        },
        (
            MasterState::FetchedGuidebookSessionState {
                intended_sessions,
                existing_sessions,
                intended_session_import_id_to_presenter_link_map,
            },
            StepEvent::Proceed,
        ) => {
            &&& spec_intended_sessions_wf(intended_sessions.deep_view())
            &&& spec_existing_sessions_wf(existing_sessions.deep_view())
            &&& post matches MasterState::CalculatedSessionReconciliation {
                session_reconciliation,
                intended_session_import_id_to_presenter_link_map: lm2,
            }
            &&& lm2 == intended_session_import_id_to_presenter_link_map
            &&& session_reconciliation.sessions_to_create.deep_view() == spec_sessions_to_create(
                intended_sessions.deep_view(),
                existing_sessions.deep_view(),
            )
            &&& session_reconciliation.sessions_to_update.deep_view() == spec_sessions_to_update(
                intended_sessions.deep_view(),
                existing_sessions.deep_view(),
            )
            &&& session_reconciliation.orphaned_existing_import_ids.deep_view()
                == spec_session_orphans(
                intended_sessions.deep_view(),
                existing_sessions.deep_view(),
            )
        },
        (
            MasterState::CalculatedSessionReconciliation {
                intended_session_import_id_to_presenter_link_map,
                ..
            },
            StepEvent::SessionReconciliationExecuted { existing_sessions },
        ) => {
            &&& spec_existing_sessions_wf(existing_sessions.deep_view())
            &&& post matches MasterState::ExecutedSessionReconciliation {
                intended_session_to_presenter_link_map: adj,
            }
            &&& adj.deep_view() == spec_adjacency_upto(
                existing_sessions.deep_view(),
                intended_session_import_id_to_presenter_link_map.deep_view(),
                intended_session_import_id_to_presenter_link_map.deep_view().len() as int,
            )
        },
        (
            MasterState::ExecutedSessionReconciliation { .. },
            StepEvent::LinksSynchronized,
        ) => post == (MasterState::SynchronizedLinks),
        _ => false,
    }
}

/// Which error a failing step reports, and exactly when: a mismatched
/// event, a parse error of the first malformed row, a synthesis error of
/// the first unconvertible session, or a correlation-key collision.
pub open spec fn spec_step_err(
    pre: MasterState,
    config: Config,
    ev: StepEvent,
    err: StepError,
) -> bool {
    if !spec_event_fits(pre, ev) {
        err == StepError::UnexpectedEvent
    } else {
        match (pre, ev) {
            (
                MasterState::FetchedSheets {
                    sessions_worksheet,
                    presenter_worksheet,
                    strands_worksheet,
                },
                StepEvent::Proceed,
            ) => {
                let rs = spec_parse_sessions_upto(
                    sessions_worksheet.deep_view(),
                    sessions_worksheet.deep_view().len() as int,
                );
                let rp = spec_parse_pi_upto(
                    presenter_worksheet.deep_view(),
                    presenter_worksheet.deep_view().len() as int,
                );
                let rt = spec_parse_strands_upto(
                    strands_worksheet.deep_view(),
                    strands_worksheet.deep_view().len() as int,
                );
                ||| (rs matches Err(e) && err == StepError::Parse(e))
                ||| (rs is Ok && (rp matches Err(e) && err == StepError::Parse(e)))
                ||| (rs is Ok && rp is Ok && (rt matches Err(e) && err == StepError::Parse(e)))
            },
            (MasterState::ParsedInputs { sessions, presenters, strands }, StepEvent::Proceed) => {
                spec_synthesize_upto(
                    sessions.deep_view(),
                    presenters.deep_view(),
                    strands.deep_view(),
                    sessions.deep_view().len() as int,
                ) matches Err(e) && err == StepError::Synth(e)
            },
            (
                MasterState::FetchedGuidebookSessionState { intended_sessions, existing_sessions, .. },
                StepEvent::Proceed,
            ) => {
                ||| (!spec_intended_sessions_wf(intended_sessions.deep_view()) && err
                    == StepError::DuplicateImportKey)
                ||| (spec_intended_sessions_wf(intended_sessions.deep_view())
                    && !spec_existing_sessions_wf(existing_sessions.deep_view()) && err
                    == StepError::DuplicateRemoteKey)
            },
            (
                MasterState::CalculatedSessionReconciliation { .. },
                StepEvent::SessionReconciliationExecuted { existing_sessions },
            ) => {
                !spec_existing_sessions_wf(existing_sessions.deep_view()) && err
                    == StepError::DuplicateRemoteKey
            },
            _ => false,
        }
    }
}

/// True when every desired session carries a correlation key and no two
/// share one.
fn check_intended_sessions_wf(v: &Vec<GuidebookSession>) -> (r: bool)
    ensures
        r == spec_intended_sessions_wf(v.deep_view()),
{
    let ghost dv = v.deep_view();
    let mut i: usize = 0;
    while i < v.len()
        invariant
            0 <= i <= v.len(),
            dv == v.deep_view(),
            dv.len() == v.len(),
            forall|a: int| 0 <= a < i ==> (#[trigger] dv[a].import_id) is Some,
            forall|a: int, b: int|
                #![trigger dv[a].import_id, dv[b].import_id]
                0 <= a < b < i ==> dv[a].import_id != dv[b].import_id,
        decreases v.len() - i,
    {
        let key = match &v[i].import_id {
            Some(k) => k,
            None => {
                assert(!(dv[i as int].import_id is Some));
                return false;
            },
        };
        assert(dv[i as int].import_id == Some(key@));
        let mut j: usize = 0;
        while j < i
            invariant
                0 <= j <= i < v.len(),
                dv == v.deep_view(),
                dv.len() == v.len(),
                dv[i as int].import_id == Some(key@),
                forall|a: int| 0 <= a < j ==> (#[trigger] dv[a].import_id) != dv[i as int].import_id,
            decreases i - j,
        {
            match &v[j].import_id {
                Some(k2) => {
                    if *k2 == *key {
                        assert(dv[j as int].import_id == dv[i as int].import_id);
                        return false;
                    }
                },
                None => {},
            }
            assert(dv[j as int].import_id != dv[i as int].import_id);
            j += 1;
        }
        i += 1;
    }
    true
}

/// True when no two remote sessions share a correlation key (keyless
/// remote sessions are fine).
fn check_existing_sessions_wf(v: &Vec<GuidebookSession>) -> (r: bool)
    ensures
        r == spec_existing_sessions_wf(v.deep_view()),
{
    let ghost dv = v.deep_view();
    let mut i: usize = 0;
    while i < v.len()
        invariant
            0 <= i <= v.len(),
            dv == v.deep_view(),
            dv.len() == v.len(),
            forall|a: int, b: int|
                #![trigger dv[a].import_id, dv[b].import_id]
                0 <= a < b < i && dv[a].import_id is Some && dv[b].import_id is Some ==> dv[
                    a
                ].import_id != dv[b].import_id,
        decreases v.len() - i,
    {
        match &v[i].import_id {
            Some(key) => {
                assert(dv[i as int].import_id == Some(key@));
                let mut j: usize = 0;
                while j < i
                    invariant
                        0 <= j <= i < v.len(),
                        dv == v.deep_view(),
                        dv.len() == v.len(),
                        dv[i as int].import_id == Some(key@),
                        forall|a: int|
                            0 <= a < j ==> (#[trigger] dv[a].import_id) != dv[i as int].import_id,
                    decreases i - j,
                {
                    match &v[j].import_id {
                        Some(k2) => {
                            if *k2 == *key {
                                assert(dv[j as int].import_id == dv[i as int].import_id);
                                assert(!spec_existing_sessions_wf(dv));
                                return false;
                            }
                        },
                        None => {},
                    }
                    assert(dv[j as int].import_id != dv[i as int].import_id);
                    j += 1;
                }
            },
            None => {
                assert(!(dv[i as int].import_id is Some));
            },
        }
        i += 1;
    }
    true
}

/// The IDs with duplicates dropped, keeping first appearances.
fn dedup_ids(ids: &Vec<u32>) -> (r: Vec<u32>)
    ensures
        r@ == spec_dedup_ids_upto(ids@, ids@.len() as int),
{
    let mut out: Vec<u32> = Vec::new();
    let mut i: usize = 0;
    while i < ids.len()
        invariant
            0 <= i <= ids.len(),
            out@ == spec_dedup_ids_upto(ids@, i as int),
        decreases ids.len() - i,
    {
        if !crate::synchronize_links::ids_contain(&out, ids[i]) {
            out.push(ids[i]);
        }
        i += 1;
    }
    out
}

/// True when the adjacency already names the session.
fn adjacency_has_session(adj: &Vec<(u32, Vec<u32>)>, id: u32) -> (r: bool)
    ensures
        r == spec_adj_has(adj.deep_view(), id),
{
    let ghost av = adj.deep_view();
    let mut i: usize = 0;
    while i < adj.len()
        invariant
            0 <= i <= adj.len(),
            av == adj.deep_view(),
            av.len() == adj.len(),
            forall|j: int| 0 <= j < i ==> (#[trigger] av[j]).0 != id,
        decreases adj.len() - i,
    {
        if adj[i].0 == id {
            assert(av[i as int].0 == id);
            return true;
        }
        assert(av[i as int].0 != id);
        i += 1;
    }
    false
}

impl MasterState {
    /// True when the pipeline has run to completion.
    pub fn completed(&self) -> (r: bool)
        ensures
            r == (self is SynchronizedLinks),
    {
        matches!(self, MasterState::SynchronizedLinks)
    }

    /// Advances the pipeline by one stage: folds in the outcome of the
    /// one external effect the stage asked for, or performs the stage's
    /// one pure computation. The terminal stage takes no further step.
    #[verifier::rlimit(100)]
    pub fn step(self, config: &Config, event: StepEvent) -> (r: Result<MasterState, StepError>)
        requires
            !(self is SynchronizedLinks),
        ensures
            match r {
                Ok(post) => spec_step_ok(self, *config, event, post),
                Err(e) => spec_step_err(self, *config, event, e),
            },
    {
        broadcast use vstd::seq_lib::group_seq_properties;

        match (self, event) {
            (
                MasterState::Start,
                StepEvent::SheetsFetched {
                    sessions_worksheet,
                    presenter_worksheet,
                    strands_worksheet,
                },
            ) => Ok(
                MasterState::FetchedSheets {
                    sessions_worksheet,
                    presenter_worksheet,
                    strands_worksheet,
                },
            ),
            (
                MasterState::FetchedSheets {
                    sessions_worksheet,
                    presenter_worksheet,
                    strands_worksheet,
                },
                StepEvent::Proceed,
            ) => {
                let sessions = match parse_nasup_sessions_from_worksheet(&sessions_worksheet) {
                    Ok(s) => s,
                    Err(e) => {
                        return Err(StepError::Parse(e));
                    },
                };
                let presenters = match parse_nasup_presenter_institutions_from_worksheet(
                    &presenter_worksheet,
                ) {
                    Ok(p) => p,
                    Err(e) => {
                        return Err(StepError::Parse(e));
                    },
                };
                let strands = match parse_nasup_strands_from_worksheet(&strands_worksheet) {
                    Ok(st) => st,
                    Err(e) => {
                        return Err(StepError::Parse(e));
                    },
                };
                Ok(MasterState::ParsedInputs { sessions, presenters, strands })
            },
            (MasterState::ParsedInputs { sessions, presenters, strands }, StepEvent::Proceed) => {
                match synthesize_parsed_nasup_data(&sessions, &presenters, &strands) {
                    Ok(out) => Ok(MasterState::SynthesizedInputs { sessions: out }),
                    Err(e) => Err(StepError::Synth(e)),
                }
            },
            (
                MasterState::SynthesizedInputs { sessions },
                StepEvent::StrandsFetched { existing_strands },
            ) => {
                let intended_strands =
                    crate::nasup_to_guidebook::nasup_sessions_to_guidebook_schedule_tracks(
                    config,
                    &sessions,
                );
                Ok(MasterState::FetchedStrandsState { sessions, intended_strands, existing_strands })
            },
            (
                MasterState::FetchedStrandsState { sessions, intended_strands, existing_strands },
                StepEvent::Proceed,
            ) => {
                let strands_reconciliation =
                    reconcile_intended_and_existing_guidebook_schedule_tracks(
                    &intended_strands,
                    &existing_strands,
                );
                Ok(MasterState::CalculatedStrandsReconciliation { sessions, strands_reconciliation })
            },
            (
                MasterState::CalculatedStrandsReconciliation { sessions, .. },
                StepEvent::StrandsReconciliationExecuted { existing_strands },
            ) => Ok(MasterState::ExecutedStrandsReconciliation { sessions, existing_strands }),
            (
                MasterState::ExecutedStrandsReconciliation { sessions, existing_strands },
                StepEvent::PresentersFetched { existing_presenters },
            ) => {
                let intended_presenters =
                    crate::nasup_to_guidebook::nasup_sessions_to_guidebook_presenters(
                    config,
                    &sessions,
                );
                Ok(
                    MasterState::FetchedGuidebookPresenterState {
                        sessions,
                        existing_strands,
                        intended_presenters,
                        existing_presenters,
                    },
                )
            },
            (
                MasterState::FetchedGuidebookPresenterState {
                    sessions,
                    existing_strands,
                    intended_presenters,
                    existing_presenters,
                },
                StepEvent::Proceed,
            ) => {
                let presenter_reconciliation =
                    reconcile_intended_and_existing_guidebook_presenters(
                    &intended_presenters,
                    &existing_presenters,
                );
                Ok(
                    MasterState::CalculatedPresenterReconciliation {
                        sessions,
                        existing_strands,
                        presenter_reconciliation,
                    },
                )
            },
            (
                MasterState::CalculatedPresenterReconciliation { sessions, existing_strands, .. },
                StepEvent::PresenterReconciliationExecuted { existing_presenters },
            ) => Ok(
                MasterState::ExecutedPresenterReconciliation {
                    sessions,
                    existing_strands,
                    existing_presenters,
                },
            ),
            (
                MasterState::ExecutedPresenterReconciliation {
                    sessions,
                    existing_strands,
                    existing_presenters,
                },
                StepEvent::SessionsFetched { existing_sessions },
            ) => {
                let ghost ssv = sessions.deep_view();
                let ghost f_sess = |ns: crate::synth_nasup::NasupSessionV|
                    spec_session_to_guidebook(config.guide_id, ns, existing_strands.deep_view());
                let ghost f_lm = |ns: crate::synth_nasup::NasupSessionV|
                    spec_link_map_entry(config.guide_id, existing_presenters.deep_view(), ns);

                let mut intended_sessions: Vec<GuidebookSession> = Vec::new();
                let mut link_map: Vec<(String, Vec<u32>)> = Vec::new();
                proof {
                    assert(intended_sessions.deep_view() =~= ssv.take(0).map_values(f_sess));
                    assert(link_map.deep_view() =~= ssv.take(0).map_values(f_lm));
                }
                let mut i: usize = 0;
                while i < sessions.len()
                    invariant
                        0 <= i <= sessions.len(),
                        ssv == sessions.deep_view(),
                        ssv.len() == sessions.len(),
                        f_sess == (|ns: crate::synth_nasup::NasupSessionV|
                            spec_session_to_guidebook(
                                config.guide_id,
                                ns,
                                existing_strands.deep_view(),
                            )),
                        f_lm == (|ns: crate::synth_nasup::NasupSessionV|
                            spec_link_map_entry(
                                config.guide_id,
                                existing_presenters.deep_view(),
                                ns,
                            )),
                        intended_sessions.deep_view() == ssv.take(i as int).map_values(f_sess),
                        link_map.deep_view() == ssv.take(i as int).map_values(f_lm),
                    decreases sessions.len() - i,
                {
                    let ghost nsv = ssv[i as int];
                    proof {
                        assert(nsv == sessions@[i as int].deep_view());
                    }
                    let WithLinks(gs, links) =
                        crate::nasup_to_guidebook::nasup_session_to_guidebook_session(
                        config,
                        &sessions[i],
                        &existing_strands,
                        &existing_presenters,
                    );
                    let key: String = match &gs.import_id {
                        Some(k) => k.clone(),
                        None => {
                            proof {
                                assert(false);
                            }
                            unreached()
                        },
                    };
                    let ghost gv = gs.deep_view();
                    let ghost pre_s = intended_sessions.deep_view();
                    let ghost pre_lm = link_map.deep_view();
                    let ghost lv = links@;
                    proof {
                        assert(links.deep_view() =~= lv);
                        assert(gv == f_sess(nsv));
                        assert(gv.import_id == Some(
                            spec_primary_key(nsv.title, nsv.room, nsv.start_datetime, nsv.end_datetime),
                        ));
                        assert(key@ == spec_primary_key(
                            nsv.title,
                            nsv.room,
                            nsv.start_datetime,
                            nsv.end_datetime,
                        ));
                    }
                    let ghost entry_v = (key@, links.deep_view());
                    intended_sessions.push(gs);
                    link_map.push((key, links));
                    proof {
                        assert(entry_v == f_lm(nsv));
                        assert(intended_sessions.deep_view() =~= pre_s.push(gv));
                        assert(link_map.deep_view() =~= pre_lm.push(entry_v));
                        assert(intended_sessions.deep_view() =~= ssv.take(i + 1).map_values(
                            f_sess,
                        ));
                        assert(link_map.deep_view() =~= ssv.take(i + 1).map_values(f_lm));
                    }
                    i += 1;
                }
                proof {
                    assert(ssv.take(ssv.len() as int) =~= ssv);
                }
                Ok(
                    MasterState::FetchedGuidebookSessionState {
                        intended_sessions,
                        existing_sessions,
                        intended_session_import_id_to_presenter_link_map: link_map,
                    },
                )
            },
            (
                MasterState::FetchedGuidebookSessionState {
                    intended_sessions,
                    existing_sessions,
                    intended_session_import_id_to_presenter_link_map,
                },
                StepEvent::Proceed,
            ) => {
                if !check_intended_sessions_wf(&intended_sessions) {
                    return Err(StepError::DuplicateImportKey);
                }
                if !check_existing_sessions_wf(&existing_sessions) {
                    return Err(StepError::DuplicateRemoteKey);
                }
                let session_reconciliation = reconcile_intended_and_existing_guidebook_sessions(
                    &intended_sessions,
                    &existing_sessions,
                );
                Ok(
                    MasterState::CalculatedSessionReconciliation {
                        session_reconciliation,
                        intended_session_import_id_to_presenter_link_map,
                    },
                )
            },
            (
                MasterState::CalculatedSessionReconciliation {
                    intended_session_import_id_to_presenter_link_map,
                    ..
                },
                StepEvent::SessionReconciliationExecuted { existing_sessions },
            ) => {
                if !check_existing_sessions_wf(&existing_sessions) {
                    return Err(StepError::DuplicateRemoteKey);
                }
                let ghost ev = existing_sessions.deep_view();
                let ghost lmv = intended_session_import_id_to_presenter_link_map.deep_view();
                let mut adjacency: Vec<(u32, Vec<u32>)> = Vec::new();
                proof {
                    assert(adjacency.deep_view() =~= spec_adjacency_upto(ev, lmv, 0));
                }
                let mut n: usize = 0;
                while n < intended_session_import_id_to_presenter_link_map.len()
                    invariant
                        0 <= n <= intended_session_import_id_to_presenter_link_map.len(),
                        ev == existing_sessions.deep_view(),
                        lmv == intended_session_import_id_to_presenter_link_map.deep_view(),
                        lmv.len() == intended_session_import_id_to_presenter_link_map.len(),
                        spec_existing_sessions_wf(ev),
                        adjacency.deep_view() == spec_adjacency_upto(ev, lmv, n as int),
                    decreases intended_session_import_id_to_presenter_link_map.len() - n,
                {
                    let entry = &intended_session_import_id_to_presenter_link_map[n];
                    let ghost entry_v = lmv[n as int];
                    proof {
                        assert(entry_v == (entry.0@, entry.1.deep_view()));
                    }
                    match crate::reconcile_guidebook::find_session_by_import_id(
                        &existing_sessions,
                        &entry.0,
                    ) {
                        Some(j) => {
                            proof {
                                let jj = spec_session_key_index(ev, entry_v.0);
                                assert(spec_session_keyed(ev, entry_v.0));
                                assert(0 <= jj < ev.len() && ev[jj].import_id == Some(entry_v.0));
                                assert(jj == j as int);
                            }
                            match &existing_sessions[j].id {
                                Some(id) => {
                                    if !adjacency_has_session(&adjacency, *id) {
                                        let ghost pre = adjacency.deep_view();
                                        let links = dedup_ids(&entry.1);
                                        proof {
                                            assert(entry.1@ =~= entry.1.deep_view());
                                            assert(links@ == spec_dedup_ids_upto(
                                                entry_v.1,
                                                entry_v.1.len() as int,
                                            ));
                                            assert(links.deep_view() =~= links@);
                                        }
                                        adjacency.push((*id, links));
                                        proof {
                                            assert(adjacency.deep_view() =~= pre.push(
                                                (*id, spec_dedup_ids_upto(
                                                    entry_v.1,
                                                    entry_v.1.len() as int,
                                                )),
                                            ));
                                            assert(adjacency.deep_view() =~= spec_adjacency_upto(
                                                ev,
                                                lmv,
                                                n + 1,
                                            ));
                                        }
                                    } else {
                                        proof {
                                            assert(adjacency.deep_view() =~= spec_adjacency_upto(
                                                ev,
                                                lmv,
                                                n + 1,
                                            ));
                                        }
                                    }
                                },
                                None => {
                                    proof {
                                        assert(spec_resolve_link_entry(ev, entry_v) is None);
                                        assert(adjacency.deep_view() =~= spec_adjacency_upto(
                                            ev,
                                            lmv,
                                            n + 1,
                                        ));
                                    }
                                },
                            }
                        },
                        None => {
                            proof {
                                assert(spec_resolve_link_entry(ev, entry_v) is None);
                                assert(adjacency.deep_view() =~= spec_adjacency_upto(
                                    ev,
                                    lmv,
                                    n + 1,
                                ));
                            }
                        },
                    }
                    n += 1;
                }
                Ok(
                    MasterState::ExecutedSessionReconciliation {
                        intended_session_to_presenter_link_map: adjacency,
                    },
                )
            },
            (
                MasterState::ExecutedSessionReconciliation { .. },
                StepEvent::LinksSynchronized,
            ) => Ok(MasterState::SynchronizedLinks),
            (pre, ev) => {
                proof {
                    assert(!spec_event_fits(pre, ev));
                }
                Err(StepError::UnexpectedEvent)
            },
        }
    }
}

} // verus!
