//! Parsing the presenter-institutions worksheet: each row names a
//! session, its comma-separated authors, and then one column pair per
//! author holding up to two institutions.

use vstd::prelude::*;

use crate::parse_nasup::parse_model::{
    ParseError, ParsedNasupPresenterWithInstitutionBySession,
    ParsedNasupPresenterWithInstitutionBySessionV,
};
use crate::sheet::{SheetCell, SheetCellV};
use crate::text::{spec_split_comma_space, spec_trimmed};

verus! {

/// The institution noted at column `c`, if any: a non-empty text cell.
pub open spec fn spec_inst_at(row: Seq<SheetCellV>, c: int) -> Option<Seq<char>> {
    if 3 <= c < row.len() {
        match row[c] {
            SheetCellV::Text { value, .. } => if value.len() == 0 {
                None
            } else {
                Some(value)
            },
            _ => None,
        }
    } else {
        None
    }
}

/// The institution columns before column `c` are each text or empty; the
/// first offender names its column. Institution columns start at 3.
pub open spec fn spec_inst_cells_ok_upto(row_index: usize, row: Seq<SheetCellV>, c: int) -> Result<
    (),
    ParseError,
>
    decreases c,
{
    if c <= 3 {
        Ok(())
    } else {
        match spec_inst_cells_ok_upto(row_index, row, c - 1) {
            Ok(_) => match row[c - 1] {
                SheetCellV::Text { .. } => Ok(()),
                SheetCellV::Empty => Ok(()),
                _ => Err(ParseError::BadCellKind { row: row_index, col: (c - 1) as usize }),
            },
            Err(e) => Err(e),
        }
    }
}

/// The record of author `k` of the row: the author name, the session
/// name, and the two institutions of the author's column pair.
pub open spec fn spec_pi_record(
    session_name: Seq<char>,
    row: Seq<SheetCellV>,
    k: int,
    name: Seq<char>,
) -> ParsedNasupPresenterWithInstitutionBySessionV {
    ParsedNasupPresenterWithInstitutionBySessionV {
        name,
        session_name,
        first_institution: spec_inst_at(row, 3 + 2 * k),
        second_institution: spec_inst_at(row, 3 + 2 * k + 1),
    }
}

/// What parsing one institutions row yields: one record per author, or
/// the first error in column order.
pub open spec fn spec_parse_pi_row(row_index: usize, row: Seq<SheetCellV>) -> Result<
    Seq<ParsedNasupPresenterWithInstitutionBySessionV>,
    ParseError,
> {
    if row.len() == 0 {
        Err(ParseError::EmptyRow { row: row_index })
    } else if row.len() < 9 {
        Err(ParseError::TooFewCells { row: row_index, got: row.len() as usize, want: 9 })
    } else {
        match row[0] {
            SheetCellV::Text { value: session_name_raw, .. } => match row[1] {
                SheetCellV::Text { value: author_names_raw, .. } => match spec_inst_cells_ok_upto(
                    row_index,
                    row,
                    row.len() as int,
                ) {
                    Err(e) => Err(e),
                    Ok(_) => {
                        let session_name = spec_trimmed(session_name_raw);
                        let names = spec_split_comma_space(spec_trimmed(author_names_raw));
                        Ok(
                            Seq::new(
                                names.len(),
                                |k: int| spec_pi_record(session_name, row, k, names[k]),
                            ),
                        )
                    },
                },
                _ => Err(ParseError::BadCellKind { row: row_index, col: 1 }),
            },
            _ => Err(ParseError::BadCellKind { row: row_index, col: 0 }),
        }
    }
}

/// Reads the institution noted for author `k` in the first or second slot
/// of the author's column pair.
fn inst_lookup(row: &Vec<SheetCell>, k: usize, second: bool) -> (r: Option<String>)
    ensures
        r.deep_view() == spec_inst_at(
            row.deep_view(),
            3 + 2 * (k as int) + if second {
                1int
            } else {
                0int
            },
        ),
{
    let ghost c_spec: int = 3 + 2 * (k as int) + if second {
        1int
    } else {
        0int
    };
    if row.len() < 4 {
        assert(c_spec >= row.deep_view().len());
        return None;
    }
    if k >= row.len() {
        assert(c_spec > row.deep_view().len());
        return None;
    }
    if k > (row.len() - 3) / 2 {
        proof {
            let len = row.len() as int;
            assert(2 * (k as int) + 3 > len);
        }
        return None;
    }
    let c0: usize = 3 + 2 * k;
    let c: usize = if second {
        if c0 >= row.len() {
            assert(c_spec >= row.deep_view().len());
            return None;
        }
        c0 + 1
    } else {
        c0
    };
    if c >= row.len() {
        return None;
    }
    match &row[c] {
        SheetCell::Text { value, .. } => {
            if value.as_str().is_empty() {
                None
            } else {
                Some(value.clone())
            }
        },
        _ => None,
    }
}

/// Parses one institutions row into one record per listed author.
#[verifier::rlimit(100)]
#[verifier::loop_isolation(false)]
pub fn parse_nasup_presenter_institutions_from_row(row_index: usize, row: &Vec<SheetCell>) -> (r:
    Result<Vec<ParsedNasupPresenterWithInstitutionBySession>, ParseError>)
    ensures
        match r {
            Ok(records) => spec_parse_pi_row(row_index, row.deep_view()) == Ok::<
                Seq<ParsedNasupPresenterWithInstitutionBySessionV>,
                ParseError,
            >(records.deep_view()),
            Err(e) => spec_parse_pi_row(row_index, row.deep_view()) == Err::<
                Seq<ParsedNasupPresenterWithInstitutionBySessionV>,
                ParseError,
            >(e),
        },
{
    let ghost rv = row.deep_view();
    if row.len() == 0 {
        return Err(ParseError::EmptyRow { row: row_index });
    }
    if row.len() < 9 {
        return Err(ParseError::TooFewCells { row: row_index, got: row.len(), want: 9 });
    }

    let session_name = match &row[0] {
        SheetCell::Text { value, .. } => crate::text::trim_text(value.as_str()),
        _ => {
            assert(!(rv[0] is Text));
            return Err(ParseError::BadCellKind { row: row_index, col: 0 });
        },
    };
    assert(rv[0] is Text && session_name@ == spec_trimmed(rv[0]->Text_value));

    let author_names = match &row[1] {
        SheetCell::Text { value, .. } => crate::text::trim_text(value.as_str()),
        _ => {
            assert(!(rv[1] is Text));
            return Err(ParseError::BadCellKind { row: row_index, col: 1 });
        },
    };
    assert(rv[1] is Text && author_names@ == spec_trimmed(rv[1]->Text_value));

    // every institution column must be text or empty
    let mut c: usize = 3;
    while c < row.len()
        invariant
            3 <= c <= row.len(),
            rv == row.deep_view(),
            rv.len() == row.len(),
            spec_inst_cells_ok_upto(row_index, rv, c as int) == Ok::<(), ParseError>(()),
        decreases row.len() - c,
    {
        match &row[c] {
            SheetCell::Text { .. } => {},
            SheetCell::Empty => {},
            _ => {
                proof {
                    lemma_inst_cells_error(row_index, rv, c as int);
                    assert(spec_inst_cells_ok_upto(row_index, rv, rv.len() as int) == Err::<
                        (),
                        ParseError,
                    >(ParseError::BadCellKind { row: row_index, col: c }));
                }
                return Err(ParseError::BadCellKind { row: row_index, col: c });
            },
        }
        c += 1;
    }

    let names = crate::text::split_comma_space(author_names.as_str());
    let ghost names_v = names.deep_view();

    let mut records: Vec<ParsedNasupPresenterWithInstitutionBySession> = Vec::new();
    let mut k: usize = 0;
    while k < names.len()
        invariant
            0 <= k <= names.len(),
            rv == row.deep_view(),
            names_v == names.deep_view(),
            names_v.len() == names.len(),
            records.deep_view() =~= Seq::new(
                k as nat,
                |j: int| spec_pi_record(session_name@, rv, j, names_v[j]),
            ),
        decreases names.len() - k,
    {
        let record = ParsedNasupPresenterWithInstitutionBySession {
            name: names[k].clone(),
            session_name: session_name.clone(),
            first_institution: inst_lookup(row, k, false),
            second_institution: inst_lookup(row, k, true),
        };
        let ghost pre = records.deep_view();
        let ghost recv = record.deep_view();
        records.push(record);
        proof {
            assert(recv =~= spec_pi_record(session_name@, rv, k as int, names_v[k as int]));
            assert(records.deep_view() =~= pre.push(recv));
            assert(records.deep_view() =~= Seq::new(
                (k + 1) as nat,
                |j: int| spec_pi_record(session_name@, rv, j, names_v[j]),
            ));
        }
        k += 1;
    }
    proof {
        assert(records.deep_view() =~= Seq::new(
            names_v.len(),
            |j: int| spec_pi_record(session_name@, rv, j, names_v[j]),
        ));
    }
    Ok(records)
}

/// A bad institution cell surfaces from every longer column prefix.
proof fn lemma_inst_cells_error(row_index: usize, row: Seq<SheetCellV>, c: int)
    requires
        3 <= c < row.len(),
        spec_inst_cells_ok_upto(row_index, row, c) is Ok,
        !(row[c] is Text),
        !(row[c] is Empty),
    ensures
        forall|n: int| c < n <= row.len() ==> spec_inst_cells_ok_upto(row_index, row, n) == Err::<
            (),
            ParseError,
        >(ParseError::BadCellKind { row: row_index, col: c as usize }),
{
    assert forall|n: int| c < n <= row.len() implies spec_inst_cells_ok_upto(row_index, row, n)
        == Err::<(), ParseError>(ParseError::BadCellKind { row: row_index, col: c as usize }) by {
        lemma_inst_cells_error_step(row_index, row, c, n);
    }
}

/// Induction step for [`lemma_inst_cells_error`].
proof fn lemma_inst_cells_error_step(row_index: usize, row: Seq<SheetCellV>, c: int, n: int)
    requires
        3 <= c < row.len(),
        spec_inst_cells_ok_upto(row_index, row, c) is Ok,
        !(row[c] is Text),
        !(row[c] is Empty),
        c < n <= row.len(),
    ensures
        spec_inst_cells_ok_upto(row_index, row, n) == Err::<(), ParseError>(
            ParseError::BadCellKind { row: row_index, col: c as usize },
        ),
    decreases n,
{
    if n == c + 1 {
    } else {
        lemma_inst_cells_error_step(row_index, row, c, n - 1);
    }
}

/// What parsing the whole institutions worksheet yields: the records of
/// rows 1 through `n - 1`, in row order, or the first row error.
pub open spec fn spec_parse_pi_upto(rows: Seq<Seq<SheetCellV>>, n: int) -> Result<
    Seq<ParsedNasupPresenterWithInstitutionBySessionV>,
    ParseError,
>
    decreases n,
{
    if n <= 1 {
        Ok(Seq::empty())
    } else {
        match spec_parse_pi_upto(rows, n - 1) {
            Ok(acc) => match spec_parse_pi_row((n - 1) as usize, rows[n - 1]) {
                Ok(records) => Ok(acc + records),
                Err(e) => Err(e),
            },
            Err(e) => Err(e),
        }
    }
}

/// Parses every row of the institutions worksheet, skipping the header
/// row, stopping at the first malformed row.
pub fn parse_nasup_presenter_institutions_from_worksheet(rows: &Vec<Vec<SheetCell>>) -> (r: Result<
    Vec<ParsedNasupPresenterWithInstitutionBySession>,
    ParseError,
>)
    ensures
        match r {
            Ok(records) => spec_parse_pi_upto(rows.deep_view(), rows.deep_view().len() as int)
                == Ok::<Seq<ParsedNasupPresenterWithInstitutionBySessionV>, ParseError>(
                records.deep_view(),
            ),
            Err(e) => spec_parse_pi_upto(rows.deep_view(), rows.deep_view().len() as int) == Err::<
                Seq<ParsedNasupPresenterWithInstitutionBySessionV>,
                ParseError,
            >(e),
        },
{
    let ghost rsv = rows.deep_view();
    let mut records: Vec<ParsedNasupPresenterWithInstitutionBySession> = Vec::new();
    proof {
        assert(records.deep_view() =~= Seq::<
            ParsedNasupPresenterWithInstitutionBySessionV,
        >::empty());
    }
    let mut i: usize = 1;
    if rows.len() <= 1 {
        return Ok(records);
    }
    while i < rows.len()
        invariant
            1 <= i <= rows.len(),
            rsv == rows.deep_view(),
            rsv.len() == rows.len(),
            spec_parse_pi_upto(rsv, i as int) == Ok::<
                Seq<ParsedNasupPresenterWithInstitutionBySessionV>,
                ParseError,
            >(records.deep_view()),
        decreases rows.len() - i,
    {
        match parse_nasup_presenter_institutions_from_row(i, &rows[i]) {
            Ok(mut row_records) => {
                let ghost pre = records.deep_view();
                let ghost add = row_records.deep_view();
                records.append(&mut row_records);
                proof {
                    assert(records.deep_view() =~= pre + add);
                    assert(rsv[i as int] == rows@[i as int].deep_view());
                }
            },
            Err(e) => {
                proof {
                    lemma_parse_pi_error(rsv, i as int, e);
                }
                return Err(e);
            },
        }
        i += 1;
    }
    Ok(records)
}

/// A row error surfaces from every longer prefix.
proof fn lemma_parse_pi_error(rows: Seq<Seq<SheetCellV>>, i: int, e: ParseError)
    requires
        1 <= i < rows.len(),
        spec_parse_pi_upto(rows, i) is Ok,
        spec_parse_pi_row(i as usize, rows[i]) == Err::<
            Seq<ParsedNasupPresenterWithInstitutionBySessionV>,
            ParseError,
        >(e),
    ensures
        forall|n: int| i < n <= rows.len() ==> spec_parse_pi_upto(rows, n) == Err::<
            Seq<ParsedNasupPresenterWithInstitutionBySessionV>,
            ParseError,
        >(e),
{
    assert forall|n: int| i < n <= rows.len() implies spec_parse_pi_upto(rows, n) == Err::<
        Seq<ParsedNasupPresenterWithInstitutionBySessionV>,
        ParseError,
    >(e) by {
        lemma_parse_pi_error_step(rows, i, e, n);
    }
}

/// Induction step for [`lemma_parse_pi_error`].
proof fn lemma_parse_pi_error_step(rows: Seq<Seq<SheetCellV>>, i: int, e: ParseError, n: int)
    requires
        1 <= i < rows.len(),
        spec_parse_pi_upto(rows, i) is Ok,
        spec_parse_pi_row(i as usize, rows[i]) == Err::<
            Seq<ParsedNasupPresenterWithInstitutionBySessionV>,
            ParseError,
        >(e),
        i < n <= rows.len(),
    ensures
        spec_parse_pi_upto(rows, n) == Err::<
            Seq<ParsedNasupPresenterWithInstitutionBySessionV>,
            ParseError,
        >(e),
    decreases n,
{
    if n == i + 1 {
    } else {
        lemma_parse_pi_error_step(rows, i, e, n - 1);
    }
}

} // verus!
