//! Turning desired sessions into the remote platform's entity shapes:
//! schedule tracks from the distinct strands and audiences, presenters
//! from the distinct approved presenters, and sessions with the remote
//! IDs of their tracks and presenters resolved by reference.

use vstd::prelude::*;
use vstd::seq_lib::*;

use crate::config::Config;
use crate::guidebook::model::{
    GuidebookPresenter, GuidebookPresenterV, GuidebookScheduleTrack, GuidebookScheduleTrackV,
    GuidebookSession, GuidebookSessionV,
};
use crate::reconcile_guidebook_presenters::{
    opt_text_eq, spec_first_match_at, spec_presenter_has_match,
};
use crate::synth_nasup::{
    spec_primary_key, spec_strip_discriminators, NasupPresenter, NasupPresenterV, NasupSession,
    NasupSessionV,
};
verus! {

/// How one character is written as regular HTML text.
pub open spec fn spec_html_escape_char(c: char) -> Seq<char> {
    if c == '&' {
        "&amp;"@
    } else if c == '<' {
        "&lt;"@
    } else if c == '>' {
        "&gt;"@
    } else {
        seq![c]
    }
}

/// The text written as regular HTML text: ampersands and angle brackets
/// escaped, everything else as it stands.
pub open spec fn spec_html_escaped(s: Seq<char>) -> Seq<char>
    decreases s.len(),
{
    if s.len() == 0 {
        Seq::empty()
    } else {
        spec_html_escaped(s.drop_last()) + spec_html_escape_char(s.last())
    }
}

/// Relies on `html_escape::encode_text`: it escapes exactly `&` to
/// `&amp;`, `<` to `&lt;` and `>` to `&gt;`.
#[verifier::external_body]
fn html_escape_text(s: &str) -> (r: String)
    ensures
        r@ == spec_html_escaped(s@),
{
    html_escape::encode_text(s).into_owned()
}

/// A value paired with the presenter remote-IDs it must be linked to.
pub struct WithLinks<T>(pub T, pub Vec<u32>);

/// Appends a name to the list unless it is already there.
pub open spec fn spec_push_name(names: Seq<Seq<char>>, n: Option<Seq<char>>) -> Seq<Seq<char>> {
    match n {
        Some(x) => if names.contains(x) {
            names
        } else {
            names.push(x)
        },
        None => names,
    }
}

/// The distinct strand names of the first `i` sessions, in order of first
/// appearance.
pub open spec fn spec_strand_names_upto(ss: Seq<NasupSessionV>, i: int) -> Seq<Seq<char>>
    decreases i,
{
    if i <= 0 {
        Seq::empty()
    } else {
        spec_push_name(spec_strand_names_upto(ss, i - 1), ss[i - 1].strand)
    }
}

/// The distinct intended-audience names of the first `i` sessions, in
/// order of first appearance.
pub open spec fn spec_audience_names_upto(ss: Seq<NasupSessionV>, i: int) -> Seq<Seq<char>>
    decreases i,
{
    if i <= 0 {
        Seq::empty()
    } else {
        spec_push_name(spec_audience_names_upto(ss, i - 1), ss[i - 1].intended_audience)
    }
}

/// The schedule track built for one name. The display colour is not part
/// of the core model; the boundary fills it in before creation.
pub open spec fn spec_track_for(guide_id: u32, name: Seq<char>) -> GuidebookScheduleTrackV {
    GuidebookScheduleTrackV {
        id: None,
        guide_id,
        name: Some(name),
        description_html: None,
        color: None,
        import_id: None,
    }
}

/// True when the list holds the text.
fn texts_contain(v: &Vec<String>, x: &String) -> (r: bool)
    ensures
        r == v.deep_view().contains(x@),
{
    let ghost vv = v.deep_view();
    let mut i: usize = 0;
    while i < v.len()
        invariant
            0 <= i <= v.len(),
            vv == v.deep_view(),
            vv.len() == v.len(),
            forall|j: int| 0 <= j < i ==> vv[j] != x@,
        decreases v.len() - i,
    {
        if crate::text::str_eq(v[i].as_str(), x.as_str()) {
            assert(vv[i as int] == x@);
            return true;
        }
        assert(vv[i as int] != x@);
        i += 1;
    }
    proof {
        if vv.contains(x@) {
            let j = choose|j: int| 0 <= j < vv.len() && vv[j] == x@;
            assert(false);
        }
    }
    false
}

/// One schedule track per distinct strand and per distinct intended
/// audience of the desired sessions, strands first, each in order of
/// first appearance.
#[verifier::rlimit(100)]
pub fn nasup_sessions_to_guidebook_schedule_tracks(
    config: &Config,
    nasup_sessions: &Vec<NasupSession>,
) -> (r: Vec<GuidebookScheduleTrack>)
    ensures
        r.deep_view() == (spec_strand_names_upto(
            nasup_sessions.deep_view(),
            nasup_sessions.deep_view().len() as int,
        ) + spec_audience_names_upto(
            nasup_sessions.deep_view(),
            nasup_sessions.deep_view().len() as int,
        )).map_values(|n: Seq<char>| spec_track_for(config.guide_id, n)),
{
    let ghost ss = nasup_sessions.deep_view();

    let mut strand_names: Vec<String> = Vec::new();
    proof {
        assert(strand_names.deep_view() =~= Seq::<Seq<char>>::empty());
    }
    let mut i: usize = 0;
    while i < nasup_sessions.len()
        invariant
            0 <= i <= nasup_sessions.len(),
            ss == nasup_sessions.deep_view(),
            ss.len() == nasup_sessions.len(),
            strand_names.deep_view() == spec_strand_names_upto(ss, i as int),
        decreases nasup_sessions.len() - i,
    {
        match &nasup_sessions[i].strand {
            Some(n) => {
                if !texts_contain(&strand_names, n) {
                    let ghost pre = strand_names.deep_view();
                    strand_names.push(n.clone());
                    proof {
                        assert(strand_names.deep_view() =~= pre.push(n@));
                    }
                }
            },
            None => {},
        }
        proof {
            assert(ss[i as int].strand == nasup_sessions@[i as int].deep_view().strand);
        }
        i += 1;
    }

    let mut audience_names: Vec<String> = Vec::new();
    proof {
        assert(audience_names.deep_view() =~= Seq::<Seq<char>>::empty());
    }
    let mut i: usize = 0;
    while i < nasup_sessions.len()
        invariant
            0 <= i <= nasup_sessions.len(),
            ss == nasup_sessions.deep_view(),
            ss.len() == nasup_sessions.len(),
            audience_names.deep_view() == spec_audience_names_upto(ss, i as int),
        decreases nasup_sessions.len() - i,
    {
        match &nasup_sessions[i].intended_audience {
            Some(n) => {
                if !texts_contain(&audience_names, n) {
                    let ghost pre = audience_names.deep_view();
                    audience_names.push(n.clone());
                    proof {
                        assert(audience_names.deep_view() =~= pre.push(n@));
                    }
                }
            },
            None => {},
        }
        proof {
            assert(ss[i as int].intended_audience == nasup_sessions@[i as int].deep_view()
                .intended_audience);
        }
        i += 1;
    }

    let mut names: Vec<String> = strand_names;
    let ghost strands_v = names.deep_view();
    let mut audience_names = audience_names;
    let ghost audiences_v = audience_names.deep_view();
    names.append(&mut audience_names);
    proof {
        assert(names.deep_view() =~= strands_v + audiences_v);
    }
    let ghost names_v = names.deep_view();

    let mut tracks: Vec<GuidebookScheduleTrack> = Vec::new();
    let ghost f_track = |n: Seq<char>| spec_track_for(config.guide_id, n);
    proof {
        assert(tracks.deep_view() =~= names_v.take(0).map_values(f_track));
    }
    let mut k: usize = 0;
    while k < names.len()
        invariant
            0 <= k <= names.len(),
            names_v == names.deep_view(),
            names_v.len() == names.len(),
            f_track == (|n: Seq<char>| spec_track_for(config.guide_id, n)),
            tracks.deep_view() == names_v.take(k as int).map_values(f_track),
        decreases names.len() - k,
    {
        let t = GuidebookScheduleTrack {
            id: None,
            guide_id: config.guide_id,
            name: Some(names[k].clone()),
            description_html: None,
            color: None,
            import_id: None,
        };
        let ghost tv = t.deep_view();
        let ghost pre = tracks.deep_view();
        tracks.push(t);
        proof {
            assert(tv =~= f_track(names_v[k as int]));
            assert(tracks.deep_view() =~= pre.push(tv));
            assert(tracks.deep_view() =~= names_v.take(k + 1).map_values(f_track));
        }
        k += 1;
    }
    proof {
        assert(names_v.take(names_v.len() as int) =~= names_v);
    }
    tracks
}

/// The subtitle of a presenter: the institutions, separated by a comma
/// and a space.
pub open spec fn spec_subtitle_of(p: NasupPresenterV) -> Seq<char> {
    match p.first_institution {
        Some(a) => match p.second_institution {
            Some(b) => a + ", "@ + b,
            None => a,
        },
        None => match p.second_institution {
            Some(b) => b,
            None => Seq::empty(),
        },
    }
}

/// The remote presenter shape of one desired presenter.
pub open spec fn spec_presenter_to_guidebook(
    guide_id: u32,
    p: NasupPresenterV,
) -> GuidebookPresenterV {
    GuidebookPresenterV {
        id: None,
        guide_id,
        name: Some(p.name),
        description_html: Some(Seq::empty()),
        subtitle: Some(spec_subtitle_of(p)),
        allow_rating: None,
        import_id: None,
        locations: None,
        contact_email: None,
    }
}

/// Converts one desired presenter to the remote presenter shape, with the
/// institutions joined into the subtitle.
pub fn nasup_presenter_to_guidebook_presenter(
    config: &Config,
    nasup_presenter: &NasupPresenter,
) -> (r: GuidebookPresenter)
    ensures
        r.deep_view() == spec_presenter_to_guidebook(config.guide_id, nasup_presenter.deep_view()),
{
    let subtitle: String = match (&nasup_presenter.first_institution, &nasup_presenter
        .second_institution) {
        (Some(a), Some(b)) => {
            let mut s = a.clone();
            s.append(", ");
            s.append(b.as_str());
            s
        },
        (Some(a), None) => a.clone(),
        (None, Some(b)) => b.clone(),
        (None, None) => String::new(),
    };
    let r = GuidebookPresenter {
        id: None,
        guide_id: config.guide_id,
        name: Some(nasup_presenter.name.clone()),
        description_html: Some(String::new()),
        subtitle: Some(subtitle),
        allow_rating: None,
        import_id: None,
        locations: None,
        contact_email: None,
    };
    proof {
        assert(r.deep_view() =~= spec_presenter_to_guidebook(
            config.guide_id,
            nasup_presenter.deep_view(),
        ));
    }
    r
}

/// Appends a presenter to the list unless it is already there.
pub open spec fn spec_push_presenter(
    acc: Seq<NasupPresenterV>,
    p: NasupPresenterV,
) -> Seq<NasupPresenterV> {
    if acc.contains(p) {
        acc
    } else {
        acc.push(p)
    }
}

/// Folds the first `j` presenters of one session into the distinct list.
pub open spec fn spec_push_presenters(
    acc: Seq<NasupPresenterV>,
    ps: Seq<NasupPresenterV>,
    j: int,
) -> Seq<NasupPresenterV>
    decreases j,
{
    if j <= 0 {
        acc
    } else {
        spec_push_presenter(spec_push_presenters(acc, ps, j - 1), ps[j - 1])
    }
}

/// The distinct approved presenters of the first `i` sessions, in order
/// of first appearance.
pub open spec fn spec_distinct_presenters_upto(
    ss: Seq<NasupSessionV>,
    i: int,
) -> Seq<NasupPresenterV>
    decreases i,
{
    if i <= 0 {
        Seq::empty()
    } else {
        spec_push_presenters(
            spec_distinct_presenters_upto(ss, i - 1),
            ss[i - 1].approved_presenters,
            ss[i - 1].approved_presenters.len() as int,
        )
    }
}

/// True when the two desired presenters hold the same name and
/// institutions.
fn nasup_presenter_eq(a: &NasupPresenter, b: &NasupPresenter) -> (r: bool)
    ensures
        r == (a.deep_view() == b.deep_view()),
{
    let r = crate::text::str_eq(a.name.as_str(), b.name.as_str()) && opt_text_eq(
        &a.first_institution,
        &b.first_institution,
    ) && opt_text_eq(&a.second_institution, &b.second_institution);
    proof {
        if a.deep_view() == b.deep_view() {
            assert(a.name@ == b.name@);
        }
        if r {
            assert(a.deep_view() =~= b.deep_view());
        }
    }
    r
}

/// True when the list holds the desired presenter.
fn presenters_contain(v: &Vec<NasupPresenter>, x: &NasupPresenter) -> (r: bool)
    ensures
        r == v.deep_view().contains(x.deep_view()),
{
    let ghost vv = v.deep_view();
    let mut i: usize = 0;
    while i < v.len()
        invariant
            0 <= i <= v.len(),
            vv == v.deep_view(),
            vv.len() == v.len(),
            forall|j: int| 0 <= j < i ==> vv[j] != x.deep_view(),
        decreases v.len() - i,
    {
        if nasup_presenter_eq(&v[i], x) {
            assert(vv[i as int] == x.deep_view());
            return true;
        }
        assert(vv[i as int] != x.deep_view());
        i += 1;
    }
    proof {
        if vv.contains(x.deep_view()) {
            let j = choose|j: int| 0 <= j < vv.len() && vv[j] == x.deep_view();
            assert(false);
        }
    }
    false
}

/// One remote presenter per distinct approved presenter of the desired
/// sessions, in order of first appearance.
#[verifier::rlimit(100)]
pub fn nasup_sessions_to_guidebook_presenters(
    config: &Config,
    nasup_sessions: &Vec<NasupSession>,
) -> (r: Vec<GuidebookPresenter>)
    ensures
        r.deep_view() == spec_distinct_presenters_upto(
            nasup_sessions.deep_view(),
            nasup_sessions.deep_view().len() as int,
        ).map_values(|p: NasupPresenterV| spec_presenter_to_guidebook(config.guide_id, p)),
{
    let ghost ss = nasup_sessions.deep_view();

    let mut distinct: Vec<NasupPresenter> = Vec::new();
    proof {
        assert(distinct.deep_view() =~= Seq::<NasupPresenterV>::empty());
    }
    let mut i: usize = 0;
    while i < nasup_sessions.len()
        invariant
            0 <= i <= nasup_sessions.len(),
            ss == nasup_sessions.deep_view(),
            ss.len() == nasup_sessions.len(),
            distinct.deep_view() == spec_distinct_presenters_upto(ss, i as int),
        decreases nasup_sessions.len() - i,
    {
        let session = &nasup_sessions[i];
        let ghost ps = ss[i as int].approved_presenters;
        proof {
            assert(ps == session.deep_view().approved_presenters);
        }
        let mut j: usize = 0;
        while j < session.approved_presenters.len()
            invariant
                0 <= j <= session.approved_presenters.len(),
                ps == session.deep_view().approved_presenters,
                ps.len() == session.approved_presenters.len(),
                distinct.deep_view() == spec_push_presenters(
                    spec_distinct_presenters_upto(ss, i as int),
                    ps,
                    j as int,
                ),
                spec_distinct_presenters_upto(ss, i as int) == spec_distinct_presenters_upto(
                    nasup_sessions.deep_view(),
                    i as int,
                ),
            decreases session.approved_presenters.len() - j,
        {
            let p = &session.approved_presenters[j];
            proof {
                assert(p.deep_view() == ps[j as int]);
            }
            if !presenters_contain(&distinct, p) {
                let ghost pre = distinct.deep_view();
                distinct.push(p.clone());
                proof {
                    assert(distinct.deep_view() =~= pre.push(ps[j as int]));
                }
            }
            j += 1;
        }
        i += 1;
    }

    let ghost distinct_v = distinct.deep_view();
    let ghost f_pres = |p: NasupPresenterV| spec_presenter_to_guidebook(config.guide_id, p);
    let mut presenters: Vec<GuidebookPresenter> = Vec::new();
    proof {
        assert(presenters.deep_view() =~= distinct_v.take(0).map_values(f_pres));
    }
    let mut k: usize = 0;
    while k < distinct.len()
        invariant
            0 <= k <= distinct.len(),
            distinct_v == distinct.deep_view(),
            distinct_v.len() == distinct.len(),
            f_pres == (|p: NasupPresenterV| spec_presenter_to_guidebook(config.guide_id, p)),
            presenters.deep_view() == distinct_v.take(k as int).map_values(f_pres),
        decreases distinct.len() - k,
    {
        let gp = nasup_presenter_to_guidebook_presenter(config, &distinct[k]);
        let ghost gv = gp.deep_view();
        let ghost pre = presenters.deep_view();
        presenters.push(gp);
        proof {
            assert(gv == f_pres(distinct_v[k as int]));
            assert(presenters.deep_view() =~= pre.push(gv));
            assert(presenters.deep_view() =~= distinct_v.take(k + 1).map_values(f_pres));
        }
        k += 1;
    }
    proof {
        assert(distinct_v.take(distinct_v.len() as int) =~= distinct_v);
    }
    presenters
}

/// `j` is the position of the first schedule track carrying the name.
pub open spec fn spec_first_track_at(
    tracks: Seq<GuidebookScheduleTrackV>,
    n: Seq<char>,
    j: int,
) -> bool {
    &&& 0 <= j < tracks.len()
    &&& tracks[j].name == Some(n)
    &&& forall|k: int| 0 <= k < j ==> (#[trigger] tracks[k]).name != Some(n)
}

/// True when some schedule track carries the name.
pub open spec fn spec_has_track(tracks: Seq<GuidebookScheduleTrackV>, n: Seq<char>) -> bool {
    exists|j: int| spec_first_track_at(tracks, n, j)
}

/// The remote-ID contribution of one optional track name: the ID of the
/// first track with that name, or nothing when the name is absent or no
/// track carries it.
pub open spec fn spec_track_entry(
    tracks: Seq<GuidebookScheduleTrackV>,
    n: Option<Seq<char>>,
) -> Seq<u32> {
    match n {
        Some(name) => if spec_has_track(tracks, name) {
            let j = choose|j: int| spec_first_track_at(tracks, name, j);
            match tracks[j].id {
                Some(id) => seq![id],
                None => Seq::empty(),
            }
        } else {
            Seq::empty()
        },
        None => Seq::empty(),
    }
}

/// The presenter remote-IDs a session must be linked to: for each
/// approved presenter, the ID of the first existing presenter matching
/// its remote shape; presenters with no match are skipped.
pub open spec fn spec_presenter_link_ids(
    existing: Seq<GuidebookPresenterV>,
    guide_id: u32,
    approved: Seq<NasupPresenterV>,
) -> Seq<u32> {
    approved.filter_map(
        |ap: NasupPresenterV|
            {
                let ip = spec_presenter_to_guidebook(guide_id, ap);
                if spec_presenter_has_match(existing, ip) {
                    let j = choose|j: int| spec_first_match_at(existing, ip, j);
                    match existing[j].id {
                        Some(id) => Some(id),
                        None => None,
                    }
                } else {
                    None
                }
            },
    )
}

/// The remote session shape of one desired session: title stripped of
/// slot discriminators, description wrapped in HTML with the stripped
/// title as heading, the correlation key as import ID, and the resolved
/// schedule-track IDs.
pub open spec fn spec_session_to_guidebook(
    guide_id: u32,
    ns: NasupSessionV,
    tracks: Seq<GuidebookScheduleTrackV>,
) -> GuidebookSessionV {
    let stripped = spec_strip_discriminators(ns.title);
    GuidebookSessionV {
        id: None,
        guide_id,
        name: Some(stripped),
        description_html: Some(
            "<h1>"@ + spec_html_escaped(stripped) + "</h1>"@ + spec_html_escaped(ns.description),
        ),
        start_time: ns.start_datetime,
        end_time: Some(ns.end_datetime),
        all_day: Some(false),
        allow_rating: Some(false),
        add_to_schedule: Some(true),
        import_id: Some(spec_primary_key(ns.title, ns.room, ns.start_datetime, ns.end_datetime)),
        locations: None,
        schedule_tracks: Some(
            spec_track_entry(tracks, ns.strand) + spec_track_entry(tracks, ns.intended_audience),
        ),
        rank: Some(1),
        registration_start_date: None,
        registration_end_date: None,
        require_login: Some(true),
        waitlist: Some(false),
        max_capacity: None,
    }
}

/// Finds the first schedule track carrying the name.
fn find_track(tracks: &Vec<GuidebookScheduleTrack>, n: &String) -> (r: Option<usize>)
    ensures
        match r {
            Some(j) => spec_first_track_at(tracks.deep_view(), n@, j as int),
            None => !spec_has_track(tracks.deep_view(), n@),
        },
{
    let ghost tv = tracks.deep_view();
    let mut j: usize = 0;
    while j < tracks.len()
        invariant
            0 <= j <= tracks.len(),
            tv == tracks.deep_view(),
            tv.len() == tracks.len(),
            forall|k: int| 0 <= k < j ==> (#[trigger] tv[k]).name != Some(n@),
        decreases tracks.len() - j,
    {
        let t = &tracks[j];
        assert(t.deep_view() == tv[j as int]);
        match &t.name {
            Some(tn) => {
                if crate::text::str_eq(tn.as_str(), n.as_str()) {
                    assert(tv[j as int].name == Some(n@));
                    return Some(j);
                }
            },
            None => {},
        }
        assert(tv[j as int].name != Some(n@));
        j += 1;
    }
    None
}

/// The track-ID contribution of one optional track name.
fn track_entry_ids(tracks: &Vec<GuidebookScheduleTrack>, n: &Option<String>) -> (r: Vec<u32>)
    ensures
        r@ == spec_track_entry(tracks.deep_view(), n.deep_view()),
{
    let mut ids: Vec<u32> = Vec::new();
    match n {
        Some(name) => {
            match find_track(tracks, name) {
                Some(j) => {
                    proof {
                        let jj = choose|jj: int| spec_first_track_at(tracks.deep_view(), name@, jj);
                        if jj < j as int {
                            assert(tracks.deep_view()[jj].name != Some(name@));
                            assert(false);
                        } else if jj > j as int {
                            assert(tracks.deep_view()[j as int].name != Some(name@));
                            assert(false);
                        }
                    }
                    match &tracks[j].id {
                        Some(id) => {
                            ids.push(*id);
                            proof {
                                assert(ids@ =~= spec_track_entry(tracks.deep_view(), n.deep_view()));
                            }
                        },
                        None => {
                            proof {
                                assert(ids@ =~= spec_track_entry(tracks.deep_view(), n.deep_view()));
                            }
                        },
                    }
                },
                None => {
                    proof {
                        assert(ids@ =~= spec_track_entry(tracks.deep_view(), n.deep_view()));
                    }
                },
            }
        },
        None => {
            proof {
                assert(ids@ =~= spec_track_entry(tracks.deep_view(), n.deep_view()));
            }
        },
    }
    ids
}

/// Builds the remote session shape of one desired session, together with
/// the presenter remote-IDs it must be linked to. Track and presenter
/// references are resolved against the given remote snapshots; sessions
/// referencing unknown tracks or presenters simply omit them.
#[verifier::rlimit(100)]
pub fn nasup_session_to_guidebook_session(
    config: &Config,
    nasup_session: &NasupSession,
    schedule_tracks: &Vec<GuidebookScheduleTrack>,
    existing_presenters: &Vec<GuidebookPresenter>,
) -> (r: WithLinks<GuidebookSession>)
    ensures
        r.0.deep_view() == spec_session_to_guidebook(
            config.guide_id,
            nasup_session.deep_view(),
            schedule_tracks.deep_view(),
        ),
        r.1@ == spec_presenter_link_ids(
            existing_presenters.deep_view(),
            config.guide_id,
            nasup_session.deep_view().approved_presenters,
        ),
{
    broadcast use vstd::seq_lib::group_seq_properties;

    let ghost nsv = nasup_session.deep_view();
    let ghost ev = existing_presenters.deep_view();

    let stripped = crate::synth_nasup::strip_session_discriminators_from_name(
        nasup_session.title.as_str(),
    );

    let mut description_html = String::new();
    description_html.append("<h1>");
    let esc_name = html_escape_text(stripped.as_str());
    description_html.append(esc_name.as_str());
    description_html.append("</h1>");
    let esc_desc = html_escape_text(nasup_session.description.as_str());
    description_html.append(esc_desc.as_str());
    proof {
        assert(description_html@ =~= "<h1>"@ + spec_html_escaped(
            spec_strip_discriminators(nsv.title),
        ) + "</h1>"@ + spec_html_escaped(nsv.description));
    }

    let session_primary_key = nasup_session.primary_key();

    let mut schedule_track_ids = track_entry_ids(schedule_tracks, &nasup_session.strand);
    let mut audience_ids = track_entry_ids(schedule_tracks, &nasup_session.intended_audience);
    let ghost strand_ids_v = schedule_track_ids@;
    let ghost audience_ids_v = audience_ids@;
    schedule_track_ids.append(&mut audience_ids);
    proof {
        assert(schedule_track_ids@ =~= strand_ids_v + audience_ids_v);
        assert(nsv.strand == nasup_session.strand.deep_view());
        assert(nsv.intended_audience == nasup_session.intended_audience.deep_view());
    }

    let ghost f_link = |ap: NasupPresenterV|
        {
            let ip = spec_presenter_to_guidebook(config.guide_id, ap);
            if spec_presenter_has_match(ev, ip) {
                let j = choose|j: int| spec_first_match_at(ev, ip, j);
                match ev[j].id {
                    Some(id) => Some(id),
                    None => None,
                }
            } else {
                None
            }
        };
    let mut presenters_to_link_to: Vec<u32> = Vec::new();
    proof {
        assert(presenters_to_link_to@ =~= nsv.approved_presenters.take(0).filter_map(f_link));
    }
    let mut i: usize = 0;
    while i < nasup_session.approved_presenters.len()
        invariant
            0 <= i <= nasup_session.approved_presenters.len(),
            nsv == nasup_session.deep_view(),
            ev == existing_presenters.deep_view(),
            nsv.approved_presenters.len() == nasup_session.approved_presenters.len(),
            f_link == (|ap: NasupPresenterV|
                {
                    let ip = spec_presenter_to_guidebook(config.guide_id, ap);
                    if spec_presenter_has_match(ev, ip) {
                        let j = choose|j: int| spec_first_match_at(ev, ip, j);
                        match ev[j].id {
                            Some(id) => Some(id),
                            None => None,
                        }
                    } else {
                        None
                    }
                }),
            presenters_to_link_to@ == nsv.approved_presenters.take(i as int).filter_map(f_link),
        decreases nasup_session.approved_presenters.len() - i,
    {
        let ap = &nasup_session.approved_presenters[i];
        let ghost apv = nsv.approved_presenters[i as int];
        proof {
            assert(apv == ap.deep_view());
        }
        let intended = nasup_presenter_to_guidebook_presenter(config, ap);
        match crate::reconcile_guidebook_presenters::find_matching_presenter(
            existing_presenters,
            &intended,
        ) {
            Some(j) => {
                proof {
                    let jj = choose|jj: int|
                        spec_first_match_at(ev, spec_presenter_to_guidebook(config.guide_id, apv), jj);
                    if jj < j as int {
                        assert(!crate::reconcile_guidebook_presenters::spec_presenter_matches(
                            spec_presenter_to_guidebook(config.guide_id, apv),
                            ev[jj],
                        ));
                        assert(false);
                    } else if jj > j as int {
                        assert(!crate::reconcile_guidebook_presenters::spec_presenter_matches(
                            spec_presenter_to_guidebook(config.guide_id, apv),
                            ev[j as int],
                        ));
                        assert(false);
                    }
                }
                match &existing_presenters[j].id {
                    Some(id) => {
                        presenters_to_link_to.push(*id);
                        proof {
                            assert(f_link(apv) == Some(*id));
                            nsv.approved_presenters.lemma_filter_map_take_succ(f_link, i as int);
                            assert(presenters_to_link_to@ =~= nsv.approved_presenters.take(
                                i + 1,
                            ).filter_map(f_link));
                        }
                    },
                    None => {
                        proof {
                            assert(f_link(apv) is None);
                            nsv.approved_presenters.lemma_filter_map_take_succ(f_link, i as int);
                            assert(presenters_to_link_to@ =~= nsv.approved_presenters.take(
                                i + 1,
                            ).filter_map(f_link));
                        }
                    },
                }
            },
            None => {
                proof {
                    assert(f_link(apv) is None);
                    nsv.approved_presenters.lemma_filter_map_take_succ(f_link, i as int);
                    assert(presenters_to_link_to@ =~= nsv.approved_presenters.take(
                        i + 1,
                    ).filter_map(f_link));
                }
            },
        }
        i += 1;
    }
    proof {
        assert(nsv.approved_presenters.take(nsv.approved_presenters.len() as int)
            =~= nsv.approved_presenters);
    }

    let session = GuidebookSession {
        id: None,
        guide_id: config.guide_id,
        name: Some(stripped),
        description_html: Some(description_html),
        start_time: nasup_session.start_datetime,
        end_time: Some(nasup_session.end_datetime),
        all_day: Some(false),
        allow_rating: Some(false),
        add_to_schedule: Some(true),
        import_id: Some(session_primary_key),
        locations: None,
        schedule_tracks: Some(schedule_track_ids),
        rank: Some(1),
        registration_start_date: None,
        registration_end_date: None,
        require_login: Some(true),
        waitlist: Some(false),
        max_capacity: None,
    };
    proof {
        assert(session.deep_view() =~= spec_session_to_guidebook(
            config.guide_id,
            nsv,
            schedule_tracks.deep_view(),
        ));
    }
    WithLinks(session, presenters_to_link_to)
}

} // verus!
