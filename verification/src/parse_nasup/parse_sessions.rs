//! Parsing the sessions worksheet: one session per row, with day-of-week,
//! date, start and end time, room, type, title, description and a
//! presenter column group whose cell highlighting marks paid presenters.

use vstd::prelude::*;

use crate::calendar::{spec_valid_date, spec_valid_time, weekday_parse_ok};
use crate::parse_nasup::parse_model::{
    ParseError, ParsedNasupPresenterWithPaymentStatusV, ParsedNasupSession, ParsedNasupSessionV,
    ParsedNasupPresenterWithPaymentStatus, SessionTypeError, ParsedNasupSessionType,
    spec_session_type_of,
};
use crate::sheet::{SheetCell, SheetCellV};
use crate::text::spec_trimmed;

verus! {

/// The presenters read off the cells before column `c`: a text cell is a
/// presenter (paid when highlighted), an empty cell is skipped, anything
/// else is an error naming its column. Presenter columns start at 8.
pub open spec fn spec_presenters_upto(
    row_index: usize,
    row: Seq<SheetCellV>,
    c: int,
) -> Result<Seq<ParsedNasupPresenterWithPaymentStatusV>, ParseError>
    decreases c,
{
    if c <= 8 {
        Ok(Seq::empty())
    } else {
        match spec_presenters_upto(row_index, row, c - 1) {
            Ok(acc) => match row[c - 1] {
                SheetCellV::Text { value, highlighted } => Ok(
                    acc.push(
                        ParsedNasupPresenterWithPaymentStatusV {
                            name: spec_trimmed(value),
                            paid: highlighted,
                        },
                    ),
                ),
                SheetCellV::Empty => Ok(acc),
                _ => Err(ParseError::BadCellKind { row: row_index, col: (c - 1) as usize }),
            },
            Err(e) => Err(e),
        }
    }
}

/// What parsing one session row yields: the parsed session, or the first
/// error in column order (day-of-week, date, start, end, room, title,
/// type, description, presenters).
pub open spec fn spec_parse_session_row(row_index: usize, row: Seq<SheetCellV>) -> Result<
    ParsedNasupSessionV,
    ParseError,
> {
    if row.len() == 0 {
        Err(ParseError::EmptyRow { row: row_index })
    } else if row.len() < 9 {
        Err(ParseError::TooFewCells { row: row_index, got: row.len() as usize, want: 9 })
    } else {
        match row[0] {
            SheetCellV::Text { value: dow, .. } => if !weekday_parse_ok(dow) {
                Err(ParseError::BadWeekday { row: row_index })
            } else {
                match row[1] {
                    SheetCellV::DateTime { date, .. } => if !(0 <= date.year <= 9999
                        && spec_valid_date(date)) {
                        Err(ParseError::BadDate { row: row_index })
                    } else {
                        match row[2] {
                            SheetCellV::DateTime { time: start_time, .. } => if !spec_valid_time(
                                start_time,
                            ) {
                                Err(ParseError::BadTime { row: row_index, col: 2 })
                            } else {
                                match row[3] {
                                    SheetCellV::DateTime { time: end_time, .. } => if !spec_valid_time(
                                        end_time,
                                    ) {
                                        Err(ParseError::BadTime { row: row_index, col: 3 })
                                    } else {
                                        match row[4] {
                                            SheetCellV::Text { value: room, .. } => match row[6] {
                                                SheetCellV::Text { value: title, .. } => match row[5] {
                                                    SheetCellV::Text { value: ty, .. } => match spec_session_type_of(
                                                        spec_trimmed(ty),
                                                        spec_trimmed(title),
                                                    ) {
                                                        Err(
                                                            SessionTypeError::UnknownSessionType,
                                                        ) => Err(
                                                            ParseError::UnknownSessionType {
                                                                row: row_index,
                                                            },
                                                        ),
                                                        Err(
                                                            SessionTypeError::UnknownTitlePrefix,
                                                        ) => Err(
                                                            ParseError::UnknownTitlePrefix {
                                                                row: row_index,
                                                            },
                                                        ),
                                                        Ok(session_type) => {
                                                            let description = match row[7] {
                                                                SheetCellV::Text {
                                                                    value: d,
                                                                    ..
                                                                } => Ok(spec_trimmed(d)),
                                                                SheetCellV::Empty => Ok(
                                                                    Seq::<char>::empty(),
                                                                ),
                                                                _ => Err(
                                                                    ParseError::BadCellKind {
                                                                        row: row_index,
                                                                        col: 7,
                                                                    },
                                                                ),
                                                            };
                                                            match description {
                                                                Err(e) => Err(e),
                                                                Ok(
                                                                    description,
                                                                ) => match spec_presenters_upto(
                                                                    row_index,
                                                                    row,
                                                                    row.len() as int,
                                                                ) {
                                                                    Err(e) => Err(e),
                                                                    Ok(presenters) => Ok(
                                                                        ParsedNasupSessionV {
                                                                            row_index,
                                                                            date,
                                                                            start_time,
                                                                            end_time,
                                                                            room: spec_trimmed(
                                                                                room,
                                                                            ),
                                                                            session_type,
                                                                            title: spec_trimmed(
                                                                                title,
                                                                            ),
                                                                            description,
                                                                            presenters,
                                                                        },
                                                                    ),
                                                                },
                                                            }
                                                        },
                                                    },
                                                    _ => Err(
                                                        ParseError::BadCellKind {
                                                            row: row_index,
                                                            col: 5,
                                                        },
                                                    ),
                                                },
                                                _ => Err(
                                                    ParseError::BadCellKind {
                                                        row: row_index,
                                                        col: 6,
                                                    },
                                                ),
                                            },
                                            _ => Err(
                                                ParseError::BadCellKind { row: row_index, col: 4 },
                                            ),
                                        }
                                    },
                                    _ => Err(ParseError::BadCellKind { row: row_index, col: 3 }),
                                }
                            },
                            _ => Err(ParseError::BadCellKind { row: row_index, col: 2 }),
                        }
                    },
                    _ => Err(ParseError::BadCellKind { row: row_index, col: 1 }),
                }
            },
            _ => Err(ParseError::BadCellKind { row: row_index, col: 0 }),
        }
    }
}

/// Parses one session row.
#[verifier::rlimit(100)]
#[verifier::loop_isolation(false)]
pub fn parse_nasup_session_from_row(row_index: usize, row: &Vec<SheetCell>) -> (r: Result<
    ParsedNasupSession,
    ParseError,
>)
    ensures
        match r {
            Ok(s) => spec_parse_session_row(row_index, row.deep_view()) == Ok::<
                ParsedNasupSessionV,
                ParseError,
            >(s.deep_view()),
            Err(e) => spec_parse_session_row(row_index, row.deep_view()) == Err::<
                ParsedNasupSessionV,
                ParseError,
            >(e),
        },
{
    let ghost rv = row.deep_view();
    if row.len() == 0 {
        return Err(ParseError::EmptyRow { row: row_index });
    }
    if row.len() < 9 {
        return Err(ParseError::TooFewCells { row: row_index, got: row.len(), want: 9 });
    }

    // day of week: validated, then discarded
    let dow = match &row[0] {
        SheetCell::Text { value, .. } => value,
        _ => {
            return Err(ParseError::BadCellKind { row: row_index, col: 0 });
        },
    };
    if !crate::calendar::parse_weekday_ok(dow.as_str()) {
        return Err(ParseError::BadWeekday { row: row_index });
    }

    // date
    let date = match &row[1] {
        SheetCell::DateTime { date, .. } => *date,
        _ => {
            return Err(ParseError::BadCellKind { row: row_index, col: 1 });
        },
    };
    if date.year < 0 || date.year > 9999 {
        return Err(ParseError::BadDate { row: row_index });
    }
    if !crate::calendar::chrono_date_valid(&date) {
        return Err(ParseError::BadDate { row: row_index });
    }

    // start time
    let start_time = match &row[2] {
        SheetCell::DateTime { time, .. } => *time,
        _ => {
            return Err(ParseError::BadCellKind { row: row_index, col: 2 });
        },
    };
    if !crate::calendar::chrono_time_valid(&start_time) {
        return Err(ParseError::BadTime { row: row_index, col: 2 });
    }

    // end time
    let end_time = match &row[3] {
        SheetCell::DateTime { time, .. } => *time,
        _ => {
            return Err(ParseError::BadCellKind { row: row_index, col: 3 });
        },
    };
    if !crate::calendar::chrono_time_valid(&end_time) {
        return Err(ParseError::BadTime { row: row_index, col: 3 });
    }

    // room
    let room = match &row[4] {
        SheetCell::Text { value, .. } => crate::text::trim_text(value.as_str()),
        _ => {
            return Err(ParseError::BadCellKind { row: row_index, col: 4 });
        },
    };

    // title, parsed before the type because the type discriminates on it
    let title = match &row[6] {
        SheetCell::Text { value, .. } => crate::text::trim_text(value.as_str()),
        _ => {
            return Err(ParseError::BadCellKind { row: row_index, col: 6 });
        },
    };

    // type
    let ty = match &row[5] {
        SheetCell::Text { value, .. } => crate::text::trim_text(value.as_str()),
        _ => {
            return Err(ParseError::BadCellKind { row: row_index, col: 5 });
        },
    };
    let session_type = match ParsedNasupSessionType::from_type_and_title(
        ty.as_str(),
        title.as_str(),
    ) {
        Ok(t) => t,
        Err(SessionTypeError::UnknownSessionType) => {
            return Err(ParseError::UnknownSessionType { row: row_index });
        },
        Err(SessionTypeError::UnknownTitlePrefix) => {
            return Err(ParseError::UnknownTitlePrefix { row: row_index });
        },
    };

    // description
    let description = match &row[7] {
        SheetCell::Text { value, .. } => crate::text::trim_text(value.as_str()),
        SheetCell::Empty => String::new(),
        _ => {
            return Err(ParseError::BadCellKind { row: row_index, col: 7 });
        },
    };

    // presenters
    let mut presenters: Vec<ParsedNasupPresenterWithPaymentStatus> = Vec::new();
    proof {
        assert(presenters.deep_view() =~= Seq::<ParsedNasupPresenterWithPaymentStatusV>::empty());
    }
    let mut c: usize = 8;
    while c < row.len()
        invariant
            8 <= c <= row.len(),
            rv == row.deep_view(),
            rv.len() == row.len(),
            spec_presenters_upto(row_index, rv, c as int) == Ok::<
                Seq<ParsedNasupPresenterWithPaymentStatusV>,
                ParseError,
            >(presenters.deep_view()),
        decreases row.len() - c,
    {
        match &row[c] {
            SheetCell::Text { value, highlighted } => {
                let ghost pre = presenters.deep_view();
                let ghost cell = rv[c as int];
                let name = crate::text::trim_text(value.as_str());
                let ghost nv = name@;
                presenters.push(ParsedNasupPresenterWithPaymentStatus { name, paid: *highlighted });
                proof {
                    assert(cell matches SheetCellV::Text { value: v, highlighted: h } && nv
                        == spec_trimmed(v) && h == *highlighted);
                    assert(presenters.deep_view() =~= pre.push(
                        ParsedNasupPresenterWithPaymentStatusV { name: nv, paid: *highlighted },
                    ));
                    assert(spec_presenters_upto(row_index, rv, c + 1) == Ok::<
                        Seq<ParsedNasupPresenterWithPaymentStatusV>,
                        ParseError,
                    >(presenters.deep_view()));
                }
            },
            SheetCell::Empty => {
                proof {
                    assert(rv[c as int] is Empty);
                }
            },
            _ => {
                proof {
                    lemma_presenter_cells_error(row_index, rv, c as int);
                    assert(spec_presenters_upto(row_index, rv, rv.len() as int) == Err::<
                        Seq<ParsedNasupPresenterWithPaymentStatusV>,
                        ParseError,
                    >(ParseError::BadCellKind { row: row_index, col: c }));
                }
                return Err(ParseError::BadCellKind { row: row_index, col: c });
            },
        }
        c += 1;
    }

    let s = ParsedNasupSession {
        row_index,
        date,
        start_time,
        end_time,
        room,
        session_type,
        title,
        description,
        presenters,
    };
    proof {
        assert(spec_parse_session_row(row_index, rv) == Ok::<ParsedNasupSessionV, ParseError>(
            s.deep_view(),
        )) by {
            assert(s.deep_view() =~= (match spec_parse_session_row(row_index, rv) {
                Ok(v) => v,
                Err(_) => s.deep_view(),
            }));
        }
    }
    Ok(s)
}

/// A bad presenter cell surfaces from every longer column prefix.
proof fn lemma_presenter_cells_error(row_index: usize, row: Seq<SheetCellV>, c: int)
    requires
        8 <= c < row.len(),
        spec_presenters_upto(row_index, row, c) is Ok,
        !(row[c] is Text),
        !(row[c] is Empty),
    ensures
        forall|n: int| c < n <= row.len() ==> spec_presenters_upto(row_index, row, n) == Err::<
            Seq<ParsedNasupPresenterWithPaymentStatusV>,
            ParseError,
        >(ParseError::BadCellKind { row: row_index, col: c as usize }),
{
    assert forall|n: int| c < n <= row.len() implies spec_presenters_upto(row_index, row, n)
        == Err::<Seq<ParsedNasupPresenterWithPaymentStatusV>, ParseError>(
        ParseError::BadCellKind { row: row_index, col: c as usize },
    ) by {
        lemma_presenter_cells_error_step(row_index, row, c, n);
    }
}

/// Induction step for [`lemma_presenter_cells_error`].
proof fn lemma_presenter_cells_error_step(row_index: usize, row: Seq<SheetCellV>, c: int, n: int)
    requires
        8 <= c < row.len(),
        spec_presenters_upto(row_index, row, c) is Ok,
        !(row[c] is Text),
        !(row[c] is Empty),
        c < n <= row.len(),
    ensures
        spec_presenters_upto(row_index, row, n) == Err::<
            Seq<ParsedNasupPresenterWithPaymentStatusV>,
            ParseError,
        >(ParseError::BadCellKind { row: row_index, col: c as usize }),
    decreases n,
{
    if n == c + 1 {
    } else {
        lemma_presenter_cells_error_step(row_index, row, c, n - 1);
    }
}

/// What parsing the whole worksheet yields: the sessions of rows 1
/// through `n - 1` (row 0 is the header), or the first row error.
pub open spec fn spec_parse_sessions_upto(rows: Seq<Seq<SheetCellV>>, n: int) -> Result<
    Seq<ParsedNasupSessionV>,
    ParseError,
>
    decreases n,
{
    if n <= 1 {
        Ok(Seq::empty())
    } else {
        match spec_parse_sessions_upto(rows, n - 1) {
            Ok(acc) => match spec_parse_session_row((n - 1) as usize, rows[n - 1]) {
                Ok(s) => Ok(acc.push(s)),
                Err(e) => Err(e),
            },
            Err(e) => Err(e),
        }
    }
}

/// Parses every session row of the worksheet, skipping the header row,
/// stopping at the first malformed row.
pub fn parse_nasup_sessions_from_worksheet(rows: &Vec<Vec<SheetCell>>) -> (r: Result<
    Vec<ParsedNasupSession>,
    ParseError,
>)
    ensures
        match r {
            Ok(sessions) => spec_parse_sessions_upto(rows.deep_view(), rows.deep_view().len() as int)
                == Ok::<Seq<ParsedNasupSessionV>, ParseError>(sessions.deep_view()),
            Err(e) => spec_parse_sessions_upto(rows.deep_view(), rows.deep_view().len() as int)
                == Err::<Seq<ParsedNasupSessionV>, ParseError>(e),
        },
{
    let ghost rsv = rows.deep_view();
    let mut sessions: Vec<ParsedNasupSession> = Vec::new();
    proof {
        assert(sessions.deep_view() =~= Seq::<ParsedNasupSessionV>::empty());
    }
    let mut i: usize = 1;
    if rows.len() <= 1 {
        return Ok(sessions);
    }
    while i < rows.len()
        invariant
            1 <= i <= rows.len(),
            rsv == rows.deep_view(),
            rsv.len() == rows.len(),
            spec_parse_sessions_upto(rsv, i as int) == Ok::<Seq<ParsedNasupSessionV>, ParseError>(
                sessions.deep_view(),
            ),
        decreases rows.len() - i,
    {
        match parse_nasup_session_from_row(i, &rows[i]) {
            Ok(s) => {
                let ghost pre = sessions.deep_view();
                let ghost sv = s.deep_view();
                sessions.push(s);
                proof {
                    assert(sessions.deep_view() =~= pre.push(sv));
                    assert(rsv[i as int] == rows@[i as int].deep_view());
                }
            },
            Err(e) => {
                proof {
                    assert(spec_parse_sessions_upto(rsv, rsv.len() as int) == Err::<
                        Seq<ParsedNasupSessionV>,
                        ParseError,
                    >(e)) by {
                        lemma_parse_sessions_error(rsv, i as int, e);
                    }
                }
                return Err(e);
            },
        }
        i += 1;
    }
    Ok(sessions)
}

/// A row error surfaces from every longer prefix.
proof fn lemma_parse_sessions_error(rows: Seq<Seq<SheetCellV>>, i: int, e: ParseError)
    requires
        1 <= i < rows.len(),
        spec_parse_sessions_upto(rows, i) is Ok,
        spec_parse_session_row(i as usize, rows[i]) == Err::<ParsedNasupSessionV, ParseError>(e),
    ensures
        forall|n: int| i < n <= rows.len() ==> spec_parse_sessions_upto(rows, n) == Err::<
            Seq<ParsedNasupSessionV>,
            ParseError,
        >(e),
{
    assert forall|n: int| i < n <= rows.len() implies spec_parse_sessions_upto(rows, n) == Err::<
        Seq<ParsedNasupSessionV>,
        ParseError,
    >(e) by {
        lemma_parse_sessions_error_step(rows, i, e, n);
    }
}

/// Induction step for [`lemma_parse_sessions_error`].
proof fn lemma_parse_sessions_error_step(rows: Seq<Seq<SheetCellV>>, i: int, e: ParseError, n: int)
    requires
        1 <= i < rows.len(),
        spec_parse_sessions_upto(rows, i) is Ok,
        spec_parse_session_row(i as usize, rows[i]) == Err::<ParsedNasupSessionV, ParseError>(e),
        i < n <= rows.len(),
    ensures
        spec_parse_sessions_upto(rows, n) == Err::<Seq<ParsedNasupSessionV>, ParseError>(e),
    decreases n,
{
    if n == i + 1 {
    } else {
        lemma_parse_sessions_error_step(rows, i, e, n - 1);
    }
}

} // verus!
