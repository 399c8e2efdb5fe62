//! Synthesizing the parsed worksheets into one desired-session record per
//! session: civil times become UTC timestamps, paid presenters are joined
//! with their institutions by session and name, and each session is
//! joined with its strand and intended audience by title. Also derives
//! the correlation key of a session.

use vstd::prelude::*;
use vstd::seq_lib::*;

use crate::calendar::eastern_utc_of;
use crate::parse_nasup::parse_model::{
    ParsedNasupPresenterWithInstitutionBySession, ParsedNasupPresenterWithInstitutionBySessionV,
    ParsedNasupPresenterWithPaymentStatusV, ParsedNasupSession, ParsedNasupSessionType,
    ParsedNasupSessionV, ParsedNasupStrandAndIntendedAudience,
    ParsedNasupStrandAndIntendedAudienceV,
};
use crate::text::{
    spec_dec_of_int, spec_escaped, spec_is_ws, spec_trim_start, escape_text, has_prefix,
    i64_to_dec, trim_start_text,
};

verus! {

/// A presenter of a desired session, with the institutions that make up
/// the presenter's subtitle. Only paid presenters are kept.
pub struct NasupPresenter {
    pub name: String,
    pub first_institution: Option<String>,
    pub second_institution: Option<String>,
}

/// Mathematical image of a [`NasupPresenter`].
#[verifier::ext_equal]
pub struct NasupPresenterV {
    pub name: Seq<char>,
    pub first_institution: Option<Seq<char>>,
    pub second_institution: Option<Seq<char>>,
}

impl DeepView for NasupPresenter {
    type V = NasupPresenterV;

    open spec fn deep_view(&self) -> NasupPresenterV {
        NasupPresenterV {
            name: self.name@,
            first_institution: self.first_institution.deep_view(),
            second_institution: self.second_institution.deep_view(),
        }
    }
}

impl Clone for NasupPresenter {
    fn clone(&self) -> (r: Self)
        ensures
            r.deep_view() == self.deep_view(),
    {
        let r = NasupPresenter {
            name: self.name.clone(),
            first_institution: crate::guidebook::model::clone_opt_text(&self.first_institution),
            second_institution: crate::guidebook::model::clone_opt_text(&self.second_institution),
        };
        assert(r.deep_view() =~= self.deep_view());
        r
    }
}

/// A desired session, fully synthesized from the three worksheets.
pub struct NasupSession {
    /// Start of the session, UTC seconds.
    pub start_datetime: i64,
    /// End of the session, UTC seconds.
    pub end_datetime: i64,
    pub room: String,
    pub session_type: ParsedNasupSessionType,
    pub title: String,
    pub description: String,
    /// Only presenters that have paid are included here.
    pub approved_presenters: Vec<NasupPresenter>,
    pub strand: Option<String>,
    pub intended_audience: Option<String>,
    /// Display order, taken from the worksheet row.
    pub rank: u32,
}

/// Mathematical image of a [`NasupSession`].
#[verifier::ext_equal]
pub struct NasupSessionV {
    pub start_datetime: i64,
    pub end_datetime: i64,
    pub room: Seq<char>,
    pub session_type: ParsedNasupSessionType,
    pub title: Seq<char>,
    pub description: Seq<char>,
    pub approved_presenters: Seq<NasupPresenterV>,
    pub strand: Option<Seq<char>>,
    pub intended_audience: Option<Seq<char>>,
    pub rank: u32,
}

impl DeepView for NasupSession {
    type V = NasupSessionV;

    open spec fn deep_view(&self) -> NasupSessionV {
        NasupSessionV {
            start_datetime: self.start_datetime,
            end_datetime: self.end_datetime,
            room: self.room@,
            session_type: self.session_type,
            title: self.title@,
            description: self.description@,
            approved_presenters: self.approved_presenters.deep_view(),
            strand: self.strand.deep_view(),
            intended_audience: self.intended_audience.deep_view(),
            rank: self.rank,
        }
    }
}

impl Clone for NasupSession {
    fn clone(&self) -> (r: Self)
        ensures
            r.deep_view() == self.deep_view(),
    {
        let mut approved_presenters: Vec<NasupPresenter> = Vec::new();
        let mut i: usize = 0;
        while i < self.approved_presenters.len()
            invariant
                0 <= i <= self.approved_presenters.len(),
                approved_presenters.deep_view() =~= self.approved_presenters.deep_view().take(
                    i as int,
                ),
            decreases self.approved_presenters.len() - i,
        {
            let ghost pre = approved_presenters.deep_view();
            let c = self.approved_presenters[i].clone();
            let ghost cv = c.deep_view();
            approved_presenters.push(c);
            proof {
                assert(cv == self.approved_presenters.deep_view()[i as int]);
                assert(approved_presenters.deep_view() =~= pre.push(cv));
                assert(approved_presenters.deep_view() =~= self.approved_presenters.deep_view()
                    .take(i + 1));
            }
            i += 1;
        }
        let r = NasupSession {
            start_datetime: self.start_datetime,
            end_datetime: self.end_datetime,
            room: self.room.clone(),
            session_type: self.session_type,
            title: self.title.clone(),
            description: self.description.clone(),
            approved_presenters,
            strand: crate::guidebook::model::clone_opt_text(&self.strand),
            intended_audience: crate::guidebook::model::clone_opt_text(&self.intended_audience),
            rank: self.rank,
        };
        proof {
            assert(self.approved_presenters.deep_view().take(
                self.approved_presenters.deep_view().len() as int,
            ) =~= self.approved_presenters.deep_view());
            assert(r.deep_view() =~= self.deep_view());
        }
        r
    }
}

/// Why synthesis failed.
#[derive(Clone, Copy, Debug, PartialEq, Eq, Structural)]
pub enum SynthError {
    /// The civil time of the row does not name exactly one UTC instant.
    TimeConversion { row: usize },
}

/// Trimming the start never lengthens a text.
proof fn lemma_trim_start_len(s: Seq<char>)
    ensures
        spec_trim_start(s).len() <= s.len(),
    decreases s.len(),
{
    if s.len() > 0 && spec_is_ws(s[0]) {
        lemma_trim_start_len(s.drop_first());
    }
}

/// The length of the session-discriminator prefix of the text: the paired
/// concurrent markers or the round-table markers, or zero.
pub open spec fn spec_discriminator_len(t: Seq<char>) -> int {
    if t.len() >= 3 && (t.subrange(0, 3) == "A: "@ || t.subrange(0, 3) == "B: "@) {
        3
    } else if t.len() >= 6 && (t.subrange(0, 6) == "RT 1: "@ || t.subrange(0, 6) == "RT 2: "@
        || t.subrange(0, 6) == "RT 3: "@ || t.subrange(0, 6) == "RT 4: "@ || t.subrange(0, 6)
        == "RT 5: "@ || t.subrange(0, 6) == "RT 6: "@) {
        6
    } else {
        0
    }
}

/// The session name with every leading discriminator (and the whitespace
/// before it) stripped; a name with no discriminator is returned as it
/// stands, untrimmed.
pub open spec fn spec_strip_discriminators(s: Seq<char>) -> Seq<char>
    decreases s.len(),
    via spec_strip_discriminators_decreases
{
    let t = spec_trim_start(s);
    let k = spec_discriminator_len(t);
    if k > 0 {
        spec_strip_discriminators(t.skip(k))
    } else {
        s
    }
}

#[via_fn]
proof fn spec_strip_discriminators_decreases(s: Seq<char>) {
    lemma_trim_start_len(s);
}

/// Strips the session-slot discriminators (paired concurrent and round
/// table markers) off the front of a session name, repeatedly, so that
/// the remaining name can be matched across worksheets.
pub fn strip_session_discriminators_from_name(input: &str) -> (r: String)
    ensures
        r@ == spec_strip_discriminators(input@),
{
    let mut cur: String = input.to_owned();
    loop
        invariant
            spec_strip_discriminators(cur@) == spec_strip_discriminators(input@),
        decreases cur@.len(),
    {
        proof {
            reveal_strlit("A: ");
            reveal_strlit("B: ");
            reveal_strlit("RT 1: ");
            reveal_strlit("RT 2: ");
            reveal_strlit("RT 3: ");
            reveal_strlit("RT 4: ");
            reveal_strlit("RT 5: ");
            reveal_strlit("RT 6: ");
        }
        let t = trim_start_text(cur.as_str());
        let k: usize = if has_prefix(t.as_str(), "A: ") || has_prefix(t.as_str(), "B: ") {
            3
        } else if has_prefix(t.as_str(), "RT 1: ") || has_prefix(t.as_str(), "RT 2: ")
            || has_prefix(t.as_str(), "RT 3: ") || has_prefix(t.as_str(), "RT 4: ") || has_prefix(
            t.as_str(),
            "RT 5: ",
        ) || has_prefix(t.as_str(), "RT 6: ") {
            6
        } else {
            0
        };
        assert(k as int == spec_discriminator_len(t@));
        if k == 0 {
            return cur;
        }
        proof {
            lemma_trim_start_len(cur@);
        }
        let n = t.as_str().unicode_len();
        let next = t.as_str().substring_char(k, n).to_owned();
        proof {
            assert(next@ =~= t@.skip(k as int));
        }
        cur = next;
    }
}

/// The correlation key of a session: a small key document over the first
/// thirty characters of the title, the room, and the start and end
/// timestamps — intrinsic source fields only, so that the key is stable
/// across runs and independent of remote-assigned IDs.
pub open spec fn spec_primary_key(title: Seq<char>, room: Seq<char>, start: i64, end: i64) -> Seq<
    char,
> {
    let prefix = if title.len() > 30 {
        title.take(30)
    } else {
        title
    };
    "{\"name\":\""@ + spec_escaped(prefix) + "\",\"room\":\""@ + spec_escaped(room)
        + "\",\"start\":"@ + spec_dec_of_int(start as int) + ",\"end\":"@ + spec_dec_of_int(
        end as int,
    ) + "}"@
}

impl NasupSession {
    /// Derives the correlation key of this session.
    pub fn primary_key(&self) -> (r: String)
        ensures
            r@ == spec_primary_key(
                self.title@,
                self.room@,
                self.start_datetime,
                self.end_datetime,
            ),
    {
        let mut s = String::new();
        s.append("{\"name\":\"");
        let tlen = self.title.as_str().unicode_len();
        let prefix = if tlen > 30 {
            self.title.as_str().substring_char(0, 30)
        } else {
            self.title.as_str()
        };
        proof {
            if self.title@.len() > 30 {
                assert(prefix@ =~= self.title@.take(30));
            }
        }
        let esc_title = escape_text(prefix);
        s.append(esc_title.as_str());
        s.append("\",\"room\":\"");
        let esc_room = escape_text(self.room.as_str());
        s.append(esc_room.as_str());
        s.append("\",\"start\":");
        let start_dec = i64_to_dec(self.start_datetime);
        s.append(start_dec.as_str());
        s.append(",\"end\":");
        let end_dec = i64_to_dec(self.end_datetime);
        s.append(end_dec.as_str());
        s.append("}");
        proof {
            assert(s@ =~= spec_primary_key(
                self.title@,
                self.room@,
                self.start_datetime,
                self.end_datetime,
            ));
        }
        s
    }
}

/// True when the institutions record belongs to the session named `q` and
/// the presenter named `name`.
pub open spec fn spec_pi_match(
    rec: ParsedNasupPresenterWithInstitutionBySessionV,
    q: Seq<char>,
    name: Seq<char>,
) -> bool {
    rec.session_name == q && rec.name == name
}

/// `j` is the position of the first institutions record for the session
/// and presenter.
pub open spec fn spec_first_pi_match_at(
    records: Seq<ParsedNasupPresenterWithInstitutionBySessionV>,
    q: Seq<char>,
    name: Seq<char>,
    j: int,
) -> bool {
    &&& 0 <= j < records.len()
    &&& spec_pi_match(records[j], q, name)
    &&& forall|k: int| 0 <= k < j ==> !spec_pi_match(#[trigger] records[k], q, name)
}

/// True when some institutions record matches the session and presenter.
pub open spec fn spec_has_pi_match(
    records: Seq<ParsedNasupPresenterWithInstitutionBySessionV>,
    q: Seq<char>,
    name: Seq<char>,
) -> bool {
    exists|j: int| spec_first_pi_match_at(records, q, name, j)
}

/// The desired presenter built for one paid presenter: the institutions
/// of the first matching record, or none when no record matches.
pub open spec fn spec_presenter_for(
    records: Seq<ParsedNasupPresenterWithInstitutionBySessionV>,
    q: Seq<char>,
    p: ParsedNasupPresenterWithPaymentStatusV,
) -> NasupPresenterV {
    if spec_has_pi_match(records, q, p.name) {
        let j = choose|j: int| spec_first_pi_match_at(records, q, p.name, j);
        NasupPresenterV {
            name: p.name,
            first_institution: records[j].first_institution,
            second_institution: records[j].second_institution,
        }
    } else {
        NasupPresenterV { name: p.name, first_institution: None, second_institution: None }
    }
}

/// The approved presenters of a session: its paid presenters, each joined
/// with the institutions on record.
pub open spec fn spec_approved_presenters(
    presenters: Seq<ParsedNasupPresenterWithPaymentStatusV>,
    records: Seq<ParsedNasupPresenterWithInstitutionBySessionV>,
    q: Seq<char>,
) -> Seq<NasupPresenterV> {
    presenters.filter_map(
        |p: ParsedNasupPresenterWithPaymentStatusV|
            if p.paid {
                Some(spec_presenter_for(records, q, p))
            } else {
                None
            },
    )
}

/// `j` is the position of the first strands record for the session.
pub open spec fn spec_first_strand_match_at(
    strands: Seq<ParsedNasupStrandAndIntendedAudienceV>,
    q: Seq<char>,
    j: int,
) -> bool {
    &&& 0 <= j < strands.len()
    &&& strands[j].title == q
    &&& forall|k: int| 0 <= k < j ==> (#[trigger] strands[k]).title != q
}

/// True when some strands record names the session.
pub open spec fn spec_has_strand_match(
    strands: Seq<ParsedNasupStrandAndIntendedAudienceV>,
    q: Seq<char>,
) -> bool {
    exists|j: int| spec_first_strand_match_at(strands, q, j)
}

/// The strand and intended audience of the first strands record naming
/// the session, if any.
pub open spec fn spec_strand_for(
    strands: Seq<ParsedNasupStrandAndIntendedAudienceV>,
    q: Seq<char>,
) -> Option<(Seq<char>, Seq<char>)> {
    if spec_has_strand_match(strands, q) {
        let j = choose|j: int| spec_first_strand_match_at(strands, q, j);
        Some((strands[j].strand, strands[j].intended_audience))
    } else {
        None
    }
}

/// What synthesizing one parsed session yields: the desired session, or a
/// time-conversion error naming the row.
pub open spec fn spec_synth_session(
    s: ParsedNasupSessionV,
    records: Seq<ParsedNasupPresenterWithInstitutionBySessionV>,
    strands: Seq<ParsedNasupStrandAndIntendedAudienceV>,
) -> Result<NasupSessionV, SynthError> {
    match eastern_utc_of(s.date, s.start_time) {
        Some(start) => match eastern_utc_of(s.date, s.end_time) {
            Some(end) => {
                let q = spec_strip_discriminators(s.title);
                Ok(
                    NasupSessionV {
                        start_datetime: start,
                        end_datetime: end,
                        room: s.room,
                        session_type: s.session_type,
                        title: s.title,
                        description: s.description,
                        approved_presenters: spec_approved_presenters(s.presenters, records, q),
                        strand: match spec_strand_for(strands, q) {
                            Some(sa) => Some(sa.0),
                            None => None,
                        },
                        intended_audience: match spec_strand_for(strands, q) {
                            Some(sa) => Some(sa.1),
                            None => None,
                        },
                        rank: if s.row_index > u32::MAX as usize {
                            u32::MAX
                        } else {
                            s.row_index as u32
                        },
                    },
                )
            },
            None => Err(SynthError::TimeConversion { row: s.row_index }),
        },
        None => Err(SynthError::TimeConversion { row: s.row_index }),
    }
}

/// What synthesizing the first `n` parsed sessions yields, in order, or
/// the first error.
pub open spec fn spec_synthesize_upto(
    sessions: Seq<ParsedNasupSessionV>,
    records: Seq<ParsedNasupPresenterWithInstitutionBySessionV>,
    strands: Seq<ParsedNasupStrandAndIntendedAudienceV>,
    n: int,
) -> Result<Seq<NasupSessionV>, SynthError>
    decreases n,
{
    if n <= 0 {
        Ok(Seq::empty())
    } else {
        match spec_synthesize_upto(sessions, records, strands, n - 1) {
            Ok(acc) => match spec_synth_session(sessions[n - 1], records, strands) {
                Ok(ns) => Ok(acc.push(ns)),
                Err(e) => Err(e),
            },
            Err(e) => Err(e),
        }
    }
}

/// Finds the first institutions record for the session and presenter.
fn find_pi_record(
    records: &Vec<ParsedNasupPresenterWithInstitutionBySession>,
    q: &String,
    name: &String,
) -> (r: Option<usize>)
    ensures
        match r {
            Some(j) => spec_first_pi_match_at(records.deep_view(), q@, name@, j as int),
            None => !spec_has_pi_match(records.deep_view(), q@, name@),
        },
{
    let ghost rv = records.deep_view();
    let mut j: usize = 0;
    while j < records.len()
        invariant
            0 <= j <= records.len(),
            rv == records.deep_view(),
            rv.len() == records.len(),
            forall|k: int| 0 <= k < j ==> !spec_pi_match(#[trigger] rv[k], q@, name@),
        decreases records.len() - j,
    {
        let rec = &records[j];
        assert(rec.deep_view() == rv[j as int]);
        if crate::text::str_eq(rec.session_name.as_str(), q.as_str()) && crate::text::str_eq(
            rec.name.as_str(),
            name.as_str(),
        ) {
            assert(spec_pi_match(rv[j as int], q@, name@));
            return Some(j);
        }
        assert(!spec_pi_match(rv[j as int], q@, name@));
        j += 1;
    }
    None
}

/// Finds the first strands record naming the session.
fn find_strand_record(
    strands: &Vec<ParsedNasupStrandAndIntendedAudience>,
    q: &String,
) -> (r: Option<usize>)
    ensures
        match r {
            Some(j) => spec_first_strand_match_at(strands.deep_view(), q@, j as int),
            None => !spec_has_strand_match(strands.deep_view(), q@),
        },
{
    let ghost sv = strands.deep_view();
    let mut j: usize = 0;
    while j < strands.len()
        invariant
            0 <= j <= strands.len(),
            sv == strands.deep_view(),
            sv.len() == strands.len(),
            forall|k: int| 0 <= k < j ==> (#[trigger] sv[k]).title != q@,
        decreases strands.len() - j,
    {
        let rec = &strands[j];
        assert(rec.deep_view() == sv[j as int]);
        if crate::text::str_eq(rec.title.as_str(), q.as_str()) {
            return Some(j);
        }
        assert(sv[j as int].title != q@);
        j += 1;
    }
    None
}

/// Synthesizes one parsed session.
#[verifier::rlimit(100)]
fn synthesize_session(
    session: &ParsedNasupSession,
    records: &Vec<ParsedNasupPresenterWithInstitutionBySession>,
    strands: &Vec<ParsedNasupStrandAndIntendedAudience>,
) -> (r: Result<NasupSession, SynthError>)
    ensures
        match r {
            Ok(ns) => spec_synth_session(
                session.deep_view(),
                records.deep_view(),
                strands.deep_view(),
            ) == Ok::<NasupSessionV, SynthError>(ns.deep_view()),
            Err(e) => spec_synth_session(
                session.deep_view(),
                records.deep_view(),
                strands.deep_view(),
            ) == Err::<NasupSessionV, SynthError>(e),
        },
{
    let ghost sv = session.deep_view();
    let ghost rv = records.deep_view();
    let ghost stv = strands.deep_view();

    let start_datetime = match crate::calendar::eastern_civil_to_utc(
        &session.date,
        &session.start_time,
    ) {
        Some(ts) => ts,
        None => {
            return Err(SynthError::TimeConversion { row: session.row_index });
        },
    };
    let end_datetime = match crate::calendar::eastern_civil_to_utc(
        &session.date,
        &session.end_time,
    ) {
        Some(ts) => ts,
        None => {
            return Err(SynthError::TimeConversion { row: session.row_index });
        },
    };

    let q = strip_session_discriminators_from_name(session.title.as_str());
    let ghost qv = q@;
    let ghost f_pres = |p: ParsedNasupPresenterWithPaymentStatusV|
        if p.paid {
            Some(spec_presenter_for(rv, qv, p))
        } else {
            None
        };

    let mut approved_presenters: Vec<NasupPresenter> = Vec::new();
    proof {
        assert(approved_presenters.deep_view() =~= Seq::<NasupPresenterV>::empty());
        assert(sv.presenters.take(0) =~= Seq::<ParsedNasupPresenterWithPaymentStatusV>::empty());
    }
    let mut i: usize = 0;
    while i < session.presenters.len()
        invariant
            0 <= i <= session.presenters.len(),
            sv == session.deep_view(),
            rv == records.deep_view(),
            qv == q@,
            sv.presenters.len() == session.presenters.len(),
            f_pres == (|p: ParsedNasupPresenterWithPaymentStatusV|
                if p.paid {
                    Some(spec_presenter_for(rv, qv, p))
                } else {
                    None
                }),
            approved_presenters.deep_view() == sv.presenters.take(i as int).filter_map(f_pres),
        decreases session.presenters.len() - i,
    {
        let p = &session.presenters[i];
        let ghost pv = sv.presenters[i as int];
        assert(pv == p.deep_view());
        if p.paid {
            let np = match find_pi_record(records, &q, &p.name) {
                Some(j) => {
                    let rec = &records[j];
                    proof {
                        let jj = choose|jj: int| spec_first_pi_match_at(rv, qv, pv.name, jj);
                        if jj < j as int {
                            assert(!spec_pi_match(rv[jj], qv, pv.name));
                            assert(false);
                        } else if jj > j as int {
                            assert(!spec_pi_match(rv[j as int], qv, pv.name));
                            assert(false);
                        }
                    }
                    NasupPresenter {
                        name: p.name.clone(),
                        first_institution: crate::guidebook::model::clone_opt_text(
                            &rec.first_institution,
                        ),
                        second_institution: crate::guidebook::model::clone_opt_text(
                            &rec.second_institution,
                        ),
                    }
                },
                None => NasupPresenter {
                    name: p.name.clone(),
                    first_institution: None,
                    second_institution: None,
                },
            };
            let ghost npv = np.deep_view();
            approved_presenters.push(np);
            proof {
                assert(npv =~= spec_presenter_for(rv, qv, pv));
                assert(f_pres(pv) == Some(npv));
                sv.presenters.lemma_filter_map_take_succ(f_pres, i as int);
                assert(approved_presenters.deep_view() =~= sv.presenters.take(i + 1).filter_map(
                    f_pres,
                ));
            }
        } else {
            proof {
                assert(f_pres(pv) is None);
                sv.presenters.lemma_filter_map_take_succ(f_pres, i as int);
                assert(approved_presenters.deep_view() =~= sv.presenters.take(i + 1).filter_map(
                    f_pres,
                ));
            }
        }
        i += 1;
    }
    proof {
        assert(sv.presenters.take(sv.presenters.len() as int) =~= sv.presenters);
    }

    let (strand, intended_audience) = match find_strand_record(strands, &q) {
        Some(j) => {
            let rec = &strands[j];
            proof {
                let jj = choose|jj: int| spec_first_strand_match_at(stv, qv, jj);
                if jj < j as int {
                    assert(stv[jj].title != qv);
                    assert(false);
                } else if jj > j as int {
                    assert(stv[j as int].title != qv);
                    assert(false);
                }
            }
            (Some(rec.strand.clone()), Some(rec.intended_audience.clone()))
        },
        None => (None, None),
    };

    let rank: u32 = if session.row_index > u32::MAX as usize {
        u32::MAX
    } else {
        session.row_index as u32
    };

    let ns = NasupSession {
        start_datetime,
        end_datetime,
        room: session.room.clone(),
        session_type: session.session_type,
        title: session.title.clone(),
        description: session.description.clone(),
        approved_presenters,
        strand,
        intended_audience,
        rank,
    };
    proof {
        assert(ns.deep_view() =~= (match spec_synth_session(sv, rv, stv) {
            Ok(v) => v,
            Err(_) => ns.deep_view(),
        }));
    }
    Ok(ns)
}

/// Synthesizes every parsed session, in order, joining each with its
/// presenters' institutions and with its strand and intended audience,
/// stopping at the first session whose civil time cannot be converted.
pub fn synthesize_parsed_nasup_data(
    parsed_sessions: &Vec<ParsedNasupSession>,
    parsed_presenter_institutions: &Vec<ParsedNasupPresenterWithInstitutionBySession>,
    parsed_strands: &Vec<ParsedNasupStrandAndIntendedAudience>,
) -> (r: Result<Vec<NasupSession>, SynthError>)
    ensures
        match r {
            Ok(sessions) => spec_synthesize_upto(
                parsed_sessions.deep_view(),
                parsed_presenter_institutions.deep_view(),
                parsed_strands.deep_view(),
                parsed_sessions.deep_view().len() as int,
            ) == Ok::<Seq<NasupSessionV>, SynthError>(sessions.deep_view()),
            Err(e) => spec_synthesize_upto(
                parsed_sessions.deep_view(),
                parsed_presenter_institutions.deep_view(),
                parsed_strands.deep_view(),
                parsed_sessions.deep_view().len() as int,
            ) == Err::<Seq<NasupSessionV>, SynthError>(e),
        },
{
    let ghost psv = parsed_sessions.deep_view();
    let ghost rv = parsed_presenter_institutions.deep_view();
    let ghost stv = parsed_strands.deep_view();

    let mut synthesized: Vec<NasupSession> = Vec::new();
    proof {
        assert(synthesized.deep_view() =~= Seq::<NasupSessionV>::empty());
    }
    let mut i: usize = 0;
    while i < parsed_sessions.len()
        invariant
            0 <= i <= parsed_sessions.len(),
            psv == parsed_sessions.deep_view(),
            rv == parsed_presenter_institutions.deep_view(),
            stv == parsed_strands.deep_view(),
            psv.len() == parsed_sessions.len(),
            spec_synthesize_upto(psv, rv, stv, i as int) == Ok::<Seq<NasupSessionV>, SynthError>(
                synthesized.deep_view(),
            ),
        decreases parsed_sessions.len() - i,
    {
        match synthesize_session(&parsed_sessions[i], parsed_presenter_institutions, parsed_strands)
        {
            Ok(ns) => {
                let ghost pre = synthesized.deep_view();
                let ghost nsv = ns.deep_view();
                synthesized.push(ns);
                proof {
                    assert(synthesized.deep_view() =~= pre.push(nsv));
                    assert(psv[i as int] == parsed_sessions@[i as int].deep_view());
                }
            },
            Err(e) => {
                proof {
                    lemma_synthesize_error(psv, rv, stv, i as int, e);
                }
                return Err(e);
            },
        }
        i += 1;
    }
    Ok(synthesized)
}

/// A session error surfaces from every longer prefix.
proof fn lemma_synthesize_error(
    sessions: Seq<ParsedNasupSessionV>,
    records: Seq<ParsedNasupPresenterWithInstitutionBySessionV>,
    strands: Seq<ParsedNasupStrandAndIntendedAudienceV>,
    i: int,
    e: SynthError,
)
    requires
        0 <= i < sessions.len(),
        spec_synthesize_upto(sessions, records, strands, i) is Ok,
        spec_synth_session(sessions[i], records, strands) == Err::<NasupSessionV, SynthError>(e),
    ensures
        forall|n: int| i < n <= sessions.len() ==> spec_synthesize_upto(sessions, records, strands, n)
            == Err::<Seq<NasupSessionV>, SynthError>(e),
{
    assert forall|n: int| i < n <= sessions.len() implies spec_synthesize_upto(
        sessions,
        records,
        strands,
        n,
    ) == Err::<Seq<NasupSessionV>, SynthError>(e) by {
        lemma_synthesize_error_step(sessions, records, strands, i, e, n);
    }
}

/// Induction step for [`lemma_synthesize_error`].
proof fn lemma_synthesize_error_step(
    sessions: Seq<ParsedNasupSessionV>,
    records: Seq<ParsedNasupPresenterWithInstitutionBySessionV>,
    strands: Seq<ParsedNasupStrandAndIntendedAudienceV>,
    i: int,
    e: SynthError,
    n: int,
)
    requires
        0 <= i < sessions.len(),
        spec_synthesize_upto(sessions, records, strands, i) is Ok,
        spec_synth_session(sessions[i], records, strands) == Err::<NasupSessionV, SynthError>(e),
        i < n <= sessions.len(),
    ensures
        spec_synthesize_upto(sessions, records, strands, n) == Err::<Seq<NasupSessionV>, SynthError>(
            e,
        ),
    decreases n,
{
    if n == i + 1 {
    } else {
        lemma_synthesize_error_step(sessions, records, strands, i, e, n - 1);
    }
}

} // verus!
