//! The record types the row parsers produce, the session-type
//! vocabulary, and the parse errors (each naming the offending row, and
//! where it helps, the column).

use vstd::prelude::*;

use crate::calendar::{CalendarDate, ClockTime};
use crate::text::str_eq;

verus! {

/// Which of the two paired concurrent slots a session occupies, read off
/// the title prefix.
#[derive(Clone, Copy, Debug, PartialEq, Eq, Structural)]
pub enum PairedConcurrentDiscriminant {
    A,
    B,
}

/// The kind of a session as the sessions worksheet names it.
#[derive(Clone, Copy, Debug, PartialEq, Eq, Structural)]
pub enum ParsedNasupSessionType {
    CollaborativeConversations,
    ExtendedPractionerWorkshop,
    General,
    Leadership,
    PairedConcurrent(PairedConcurrentDiscriminant),
    PartnershipFocusedWorkshop,
    PractitionerFocusedWorkshop,
    PreConference,
    PreServiceTeacherEvent,
    RoundTable(u8),
    Symposium,
}

/// Why a session-type cell could not be understood.
#[derive(Clone, Copy, Debug, PartialEq, Eq, Structural)]
pub enum SessionTypeError {
    /// The type cell names no known session kind.
    UnknownSessionType,
    /// The type requires a discriminating title prefix that the title
    /// does not carry.
    UnknownTitlePrefix,
}

/// Why a worksheet row could not be parsed.
#[derive(Clone, Copy, Debug, PartialEq, Eq, Structural)]
pub enum ParseError {
    EmptyRow { row: usize },
    TooFewCells { row: usize, got: usize, want: usize },
    /// The cell is not of the kind the column calls for.
    BadCellKind { row: usize, col: usize },
    BadWeekday { row: usize },
    BadDate { row: usize },
    BadTime { row: usize, col: usize },
    UnknownSessionType { row: usize },
    UnknownTitlePrefix { row: usize },
}

/// What `from_type_and_title` answers: the session kind named by the type
/// cell, with the paired-concurrent and round-table kinds discriminated
/// by the title prefix.
pub open spec fn spec_session_type_of(ty: Seq<char>, title: Seq<char>) -> Result<
    ParsedNasupSessionType,
    SessionTypeError,
> {
    if ty == "Collaborative Conversations"@ {
        Ok(ParsedNasupSessionType::CollaborativeConversations)
    } else if ty == "Extended Practioner Workshop"@ {
        Ok(ParsedNasupSessionType::ExtendedPractionerWorkshop)
    } else if ty == "General"@ {
        Ok(ParsedNasupSessionType::General)
    } else if ty == "Leadership"@ {
        Ok(ParsedNasupSessionType::Leadership)
    } else if ty == "Paired Concurrent"@ {
        if title.len() >= 3 && title.subrange(0, 3) == "A: "@ {
            Ok(ParsedNasupSessionType::PairedConcurrent(PairedConcurrentDiscriminant::A))
        } else if title.len() >= 3 && title.subrange(0, 3) == "B: "@ {
            Ok(ParsedNasupSessionType::PairedConcurrent(PairedConcurrentDiscriminant::B))
        } else {
            Err(SessionTypeError::UnknownTitlePrefix)
        }
    } else if ty == "Partnership-Focused Workshop"@ {
        Ok(ParsedNasupSessionType::PartnershipFocusedWorkshop)
    } else if ty == "Practitioner-Focused Workshop"@ {
        Ok(ParsedNasupSessionType::PractitionerFocusedWorkshop)
    } else if ty == "Pre-Conference"@ {
        Ok(ParsedNasupSessionType::PreConference)
    } else if ty == "Preservice Teacher Event"@ {
        Ok(ParsedNasupSessionType::PreServiceTeacherEvent)
    } else if ty == "Round Tables"@ {
        if title.len() >= 6 && title.subrange(0, 6) == "RT 1: "@ {
            Ok(ParsedNasupSessionType::RoundTable(1))
        } else if title.len() >= 6 && title.subrange(0, 6) == "RT 2: "@ {
            Ok(ParsedNasupSessionType::RoundTable(2))
        } else if title.len() >= 6 && title.subrange(0, 6) == "RT 3: "@ {
            Ok(ParsedNasupSessionType::RoundTable(3))
        } else if title.len() >= 6 && title.subrange(0, 6) == "RT 4: "@ {
            Ok(ParsedNasupSessionType::RoundTable(4))
        } else if title.len() >= 6 && title.subrange(0, 6) == "RT 5: "@ {
            Ok(ParsedNasupSessionType::RoundTable(5))
        } else if title.len() >= 6 && title.subrange(0, 6) == "RT 6: "@ {
            Ok(ParsedNasupSessionType::RoundTable(6))
        } else {
            Err(SessionTypeError::UnknownTitlePrefix)
        }
    } else if ty == "Symposium"@ {
        Ok(ParsedNasupSessionType::Symposium)
    } else {
        Err(SessionTypeError::UnknownSessionType)
    }
}

/// True when the title starts with the given prefix.
fn title_has_prefix(title: &str, prefix: &str) -> (r: bool)
    ensures
        r == (title@.len() >= prefix@.len() && title@.subrange(0, prefix@.len() as int)
            == prefix@),
{
    let np = prefix.unicode_len();
    if title.unicode_len() < np {
        return false;
    }
    let head = title.substring_char(0, np);
    crate::text::str_eq(head, prefix)
}

impl ParsedNasupSessionType {
    /// Reads the session kind off the type cell, using the title prefix
    /// to discriminate paired concurrent and round-table sessions.
    pub fn from_type_and_title(session_type: &str, session_title: &str) -> (r: Result<
        ParsedNasupSessionType,
        SessionTypeError,
    >)
        ensures
            r == spec_session_type_of(session_type@, session_title@),
    {
        proof {
            reveal_strlit("A: ");
            reveal_strlit("B: ");
            reveal_strlit("RT 1: ");
            reveal_strlit("RT 2: ");
            reveal_strlit("RT 3: ");
            reveal_strlit("RT 4: ");
            reveal_strlit("RT 5: ");
            reveal_strlit("RT 6: ");
        }
        if str_eq(session_type, "Collaborative Conversations") {
            Ok(ParsedNasupSessionType::CollaborativeConversations)
        } else if str_eq(session_type, "Extended Practioner Workshop") {
            Ok(ParsedNasupSessionType::ExtendedPractionerWorkshop)
        } else if str_eq(session_type, "General") {
            Ok(ParsedNasupSessionType::General)
        } else if str_eq(session_type, "Leadership") {
            Ok(ParsedNasupSessionType::Leadership)
        } else if str_eq(session_type, "Paired Concurrent") {
            if title_has_prefix(session_title, "A: ") {
                Ok(ParsedNasupSessionType::PairedConcurrent(PairedConcurrentDiscriminant::A))
            } else if title_has_prefix(session_title, "B: ") {
                Ok(ParsedNasupSessionType::PairedConcurrent(PairedConcurrentDiscriminant::B))
            } else {
                Err(SessionTypeError::UnknownTitlePrefix)
            }
        } else if str_eq(session_type, "Partnership-Focused Workshop") {
            Ok(ParsedNasupSessionType::PartnershipFocusedWorkshop)
        } else if str_eq(session_type, "Practitioner-Focused Workshop") {
            Ok(ParsedNasupSessionType::PractitionerFocusedWorkshop)
        } else if str_eq(session_type, "Pre-Conference") {
            Ok(ParsedNasupSessionType::PreConference)
        } else if str_eq(session_type, "Preservice Teacher Event") {
            Ok(ParsedNasupSessionType::PreServiceTeacherEvent)
        } else if str_eq(session_type, "Round Tables") {
            if title_has_prefix(session_title, "RT 1: ") {
                Ok(ParsedNasupSessionType::RoundTable(1))
            } else if title_has_prefix(session_title, "RT 2: ") {
                Ok(ParsedNasupSessionType::RoundTable(2))
            } else if title_has_prefix(session_title, "RT 3: ") {
                Ok(ParsedNasupSessionType::RoundTable(3))
            } else if title_has_prefix(session_title, "RT 4: ") {
                Ok(ParsedNasupSessionType::RoundTable(4))
            } else if title_has_prefix(session_title, "RT 5: ") {
                Ok(ParsedNasupSessionType::RoundTable(5))
            } else if title_has_prefix(session_title, "RT 6: ") {
                Ok(ParsedNasupSessionType::RoundTable(6))
            } else {
                Err(SessionTypeError::UnknownTitlePrefix)
            }
        } else if str_eq(session_type, "Symposium") {
            Ok(ParsedNasupSessionType::Symposium)
        } else {
            Err(SessionTypeError::UnknownSessionType)
        }
    }
}

/// The display label of each session kind (slot discriminators do not
/// show in the label).
pub open spec fn spec_session_type_label(t: ParsedNasupSessionType) -> Seq<char> {
    match t {
        ParsedNasupSessionType::CollaborativeConversations => "Collaborative Conversations"@,
        ParsedNasupSessionType::ExtendedPractionerWorkshop => "Extended Practitioner Workshop"@,
        ParsedNasupSessionType::General => "General"@,
        ParsedNasupSessionType::Leadership => "Leadership"@,
        ParsedNasupSessionType::PairedConcurrent(_) => "Paired Concurrent"@,
        ParsedNasupSessionType::PartnershipFocusedWorkshop => "Partnership-Focused Workshop"@,
        ParsedNasupSessionType::PractitionerFocusedWorkshop => "Practitioner-Focused Workshop"@,
        ParsedNasupSessionType::PreConference => "Pre-Conference"@,
        ParsedNasupSessionType::PreServiceTeacherEvent => "Preservice Teacher Event"@,
        ParsedNasupSessionType::RoundTable(_) => "Round Tables"@,
        ParsedNasupSessionType::Symposium => "Symposium"@,
    }
}

impl ParsedNasupSessionType {
    /// The display label of this session kind.
    pub fn type_label(&self) -> (r: String)
        ensures
            r@ == spec_session_type_label(*self),
    {
        match self {
            ParsedNasupSessionType::CollaborativeConversations => {
                "Collaborative Conversations".to_owned()
            },
            ParsedNasupSessionType::ExtendedPractionerWorkshop => {
                "Extended Practitioner Workshop".to_owned()
            },
            ParsedNasupSessionType::General => "General".to_owned(),
            ParsedNasupSessionType::Leadership => "Leadership".to_owned(),
            ParsedNasupSessionType::PairedConcurrent(_) => "Paired Concurrent".to_owned(),
            ParsedNasupSessionType::PartnershipFocusedWorkshop => {
                "Partnership-Focused Workshop".to_owned()
            },
            ParsedNasupSessionType::PractitionerFocusedWorkshop => {
                "Practitioner-Focused Workshop".to_owned()
            },
            ParsedNasupSessionType::PreConference => "Pre-Conference".to_owned(),
            ParsedNasupSessionType::PreServiceTeacherEvent => {
                "Preservice Teacher Event".to_owned()
            },
            ParsedNasupSessionType::RoundTable(_) => "Round Tables".to_owned(),
            ParsedNasupSessionType::Symposium => "Symposium".to_owned(),
        }
    }
}

/// A presenter as the sessions worksheet lists them: a name, and whether
/// their cell is highlighted (which marks a paid presenter).
pub struct ParsedNasupPresenterWithPaymentStatus {
    pub name: String,
    pub paid: bool,
}

/// Mathematical image of a [`ParsedNasupPresenterWithPaymentStatus`].
#[verifier::ext_equal]
pub struct ParsedNasupPresenterWithPaymentStatusV {
    pub name: Seq<char>,
    pub paid: bool,
}

impl DeepView for ParsedNasupPresenterWithPaymentStatus {
    type V = ParsedNasupPresenterWithPaymentStatusV;

    open spec fn deep_view(&self) -> ParsedNasupPresenterWithPaymentStatusV {
        ParsedNasupPresenterWithPaymentStatusV { name: self.name@, paid: self.paid }
    }
}

impl Clone for ParsedNasupPresenterWithPaymentStatus {
    fn clone(&self) -> (r: Self)
        ensures
            r.deep_view() == self.deep_view(),
    {
        ParsedNasupPresenterWithPaymentStatus { name: self.name.clone(), paid: self.paid }
    }
}

/// A presenter-institution record of the institutions worksheet: which
/// institutions a presenter belongs to, keyed by presenter name and
/// session name.
pub struct ParsedNasupPresenterWithInstitutionBySession {
    pub name: String,
    pub session_name: String,
    pub first_institution: Option<String>,
    pub second_institution: Option<String>,
}

/// Mathematical image of a
/// [`ParsedNasupPresenterWithInstitutionBySession`].
#[verifier::ext_equal]
pub struct ParsedNasupPresenterWithInstitutionBySessionV {
    pub name: Seq<char>,
    pub session_name: Seq<char>,
    pub first_institution: Option<Seq<char>>,
    pub second_institution: Option<Seq<char>>,
}

impl DeepView for ParsedNasupPresenterWithInstitutionBySession {
    type V = ParsedNasupPresenterWithInstitutionBySessionV;

    open spec fn deep_view(&self) -> ParsedNasupPresenterWithInstitutionBySessionV {
        ParsedNasupPresenterWithInstitutionBySessionV {
            name: self.name@,
            session_name: self.session_name@,
            first_institution: self.first_institution.deep_view(),
            second_institution: self.second_institution.deep_view(),
        }
    }
}

impl Clone for ParsedNasupPresenterWithInstitutionBySession {
    fn clone(&self) -> (r: Self)
        ensures
            r.deep_view() == self.deep_view(),
    {
        let r = ParsedNasupPresenterWithInstitutionBySession {
            name: self.name.clone(),
            session_name: self.session_name.clone(),
            first_institution: match &self.first_institution {
                Some(s) => Some(s.clone()),
                None => None,
            },
            second_institution: match &self.second_institution {
                Some(s) => Some(s.clone()),
                None => None,
            },
        };
        assert(r.deep_view() =~= self.deep_view());
        r
    }
}

/// A session row of the sessions worksheet, fully parsed.
pub struct ParsedNasupSession {
    /// The worksheet row the session came from; it later orders the
    /// sessions.
    pub row_index: usize,
    pub date: CalendarDate,
    pub start_time: ClockTime,
    pub end_time: ClockTime,
    pub room: String,
    pub session_type: ParsedNasupSessionType,
    pub title: String,
    pub description: String,
    pub presenters: Vec<ParsedNasupPresenterWithPaymentStatus>,
}

/// Mathematical image of a [`ParsedNasupSession`].
#[verifier::ext_equal]
pub struct ParsedNasupSessionV {
    pub row_index: usize,
    pub date: CalendarDate,
    pub start_time: ClockTime,
    pub end_time: ClockTime,
    pub room: Seq<char>,
    pub session_type: ParsedNasupSessionType,
    pub title: Seq<char>,
    pub description: Seq<char>,
    pub presenters: Seq<ParsedNasupPresenterWithPaymentStatusV>,
}

impl DeepView for ParsedNasupSession {
    type V = ParsedNasupSessionV;

    open spec fn deep_view(&self) -> ParsedNasupSessionV {
        ParsedNasupSessionV {
            row_index: self.row_index,
            date: self.date,
            start_time: self.start_time,
            end_time: self.end_time,
            room: self.room@,
            session_type: self.session_type,
            title: self.title@,
            description: self.description@,
            presenters: self.presenters.deep_view(),
        }
    }
}

/// A strand row of the strands worksheet: the strand and intended
/// audience of one session, with the authors as listed there.
pub struct ParsedNasupStrandAndIntendedAudience {
    pub title: String,
    pub presenters: Vec<String>,
    pub strand: String,
    pub intended_audience: String,
}

/// Mathematical image of a [`ParsedNasupStrandAndIntendedAudience`].
#[verifier::ext_equal]
pub struct ParsedNasupStrandAndIntendedAudienceV {
    pub title: Seq<char>,
    pub presenters: Seq<Seq<char>>,
    pub strand: Seq<char>,
    pub intended_audience: Seq<char>,
}

impl DeepView for ParsedNasupStrandAndIntendedAudience {
    type V = ParsedNasupStrandAndIntendedAudienceV;

    open spec fn deep_view(&self) -> ParsedNasupStrandAndIntendedAudienceV {
        ParsedNasupStrandAndIntendedAudienceV {
            title: self.title@,
            presenters: self.presenters.deep_view(),
            strand: self.strand@,
            intended_audience: self.intended_audience@,
        }
    }
}

} // verus!
