//! Parsing the strands worksheet: each row names a session, its authors,
//! its strand and its intended audience.

use vstd::prelude::*;

use crate::parse_nasup::parse_model::{
    ParseError, ParsedNasupStrandAndIntendedAudience, ParsedNasupStrandAndIntendedAudienceV,
};
use crate::sheet::{SheetCell, SheetCellV};
use crate::text::{spec_split_comma_space, spec_trimmed};

verus! {

/// What parsing one strands row yields: the record, or the first error in
/// column order.
pub open spec fn spec_parse_strands_row(row_index: usize, row: Seq<SheetCellV>) -> Result<
    ParsedNasupStrandAndIntendedAudienceV,
    ParseError,
> {
    if row.len() == 0 {
        Err(ParseError::EmptyRow { row: row_index })
    } else if row.len() < 4 {
        Err(ParseError::TooFewCells { row: row_index, got: row.len() as usize, want: 4 })
    } else {
        match row[0] {
            SheetCellV::Text { value: title, .. } => match row[1] {
                SheetCellV::Text { value: authors, .. } => match row[2] {
                    SheetCellV::Text { value: strand, .. } => match row[3] {
                        SheetCellV::Text { value: audience, .. } => Ok(
                            ParsedNasupStrandAndIntendedAudienceV {
                                title: spec_trimmed(title),
                                presenters: spec_split_comma_space(spec_trimmed(authors)),
                                strand: spec_trimmed(strand),
                                intended_audience: spec_trimmed(audience),
                            },
                        ),
                        _ => Err(ParseError::BadCellKind { row: row_index, col: 3 }),
                    },
                    _ => Err(ParseError::BadCellKind { row: row_index, col: 2 }),
                },
                _ => Err(ParseError::BadCellKind { row: row_index, col: 1 }),
            },
            _ => Err(ParseError::BadCellKind { row: row_index, col: 0 }),
        }
    }
}

/// Parses one strands row.
pub fn parse_nasup_strands_from_row(row_index: usize, row: &Vec<SheetCell>) -> (r: Result<
    ParsedNasupStrandAndIntendedAudience,
    ParseError,
>)
    ensures
        match r {
            Ok(rec) => spec_parse_strands_row(row_index, row.deep_view()) == Ok::<
                ParsedNasupStrandAndIntendedAudienceV,
                ParseError,
            >(rec.deep_view()),
            Err(e) => spec_parse_strands_row(row_index, row.deep_view()) == Err::<
                ParsedNasupStrandAndIntendedAudienceV,
                ParseError,
            >(e),
        },
{
    let ghost rv = row.deep_view();
    if row.len() == 0 {
        return Err(ParseError::EmptyRow { row: row_index });
    }
    if row.len() < 4 {
        return Err(ParseError::TooFewCells { row: row_index, got: row.len(), want: 4 });
    }
    let title = match &row[0] {
        SheetCell::Text { value, .. } => crate::text::trim_text(value.as_str()),
        _ => {
            return Err(ParseError::BadCellKind { row: row_index, col: 0 });
        },
    };
    let authors = match &row[1] {
        SheetCell::Text { value, .. } => crate::text::trim_text(value.as_str()),
        _ => {
            return Err(ParseError::BadCellKind { row: row_index, col: 1 });
        },
    };
    let strand = match &row[2] {
        SheetCell::Text { value, .. } => crate::text::trim_text(value.as_str()),
        _ => {
            return Err(ParseError::BadCellKind { row: row_index, col: 2 });
        },
    };
    let audience = match &row[3] {
        SheetCell::Text { value, .. } => crate::text::trim_text(value.as_str()),
        _ => {
            return Err(ParseError::BadCellKind { row: row_index, col: 3 });
        },
    };
    let presenters = crate::text::split_comma_space(authors.as_str());
    let rec = ParsedNasupStrandAndIntendedAudience {
        title,
        presenters,
        strand,
        intended_audience: audience,
    };
    proof {
        assert(rec.deep_view() =~= (match spec_parse_strands_row(row_index, rv) {
            Ok(v) => v,
            Err(_) => rec.deep_view(),
        }));
    }
    Ok(rec)
}

/// What parsing the whole strands worksheet yields: the records of rows 1
/// through `n - 1`, or the first row error.
pub open spec fn spec_parse_strands_upto(rows: Seq<Seq<SheetCellV>>, n: int) -> Result<
    Seq<ParsedNasupStrandAndIntendedAudienceV>,
    ParseError,
>
    decreases n,
{
    if n <= 1 {
        Ok(Seq::empty())
    } else {
        match spec_parse_strands_upto(rows, n - 1) {
            Ok(acc) => match spec_parse_strands_row((n - 1) as usize, rows[n - 1]) {
                Ok(rec) => Ok(acc.push(rec)),
                Err(e) => Err(e),
            },
            Err(e) => Err(e),
        }
    }
}

/// Parses every strands row of the worksheet, skipping the header row,
/// stopping at the first malformed row.
pub fn parse_nasup_strands_from_worksheet(rows: &Vec<Vec<SheetCell>>) -> (r: Result<
    Vec<ParsedNasupStrandAndIntendedAudience>,
    ParseError,
>)
    ensures
        match r {
            Ok(records) => spec_parse_strands_upto(rows.deep_view(), rows.deep_view().len() as int)
                == Ok::<Seq<ParsedNasupStrandAndIntendedAudienceV>, ParseError>(
                records.deep_view(),
            ),
            Err(e) => spec_parse_strands_upto(rows.deep_view(), rows.deep_view().len() as int)
                == Err::<Seq<ParsedNasupStrandAndIntendedAudienceV>, ParseError>(e),
        },
{
    let ghost rsv = rows.deep_view();
    let mut records: Vec<ParsedNasupStrandAndIntendedAudience> = Vec::new();
    proof {
        assert(records.deep_view() =~= Seq::<ParsedNasupStrandAndIntendedAudienceV>::empty());
    }
    let mut i: usize = 1;
    if rows.len() <= 1 {
        return Ok(records);
    }
    while i < rows.len()
        invariant
            1 <= i <= rows.len(),
            rsv == rows.deep_view(),
            rsv.len() == rows.len(),
            spec_parse_strands_upto(rsv, i as int) == Ok::<
                Seq<ParsedNasupStrandAndIntendedAudienceV>,
                ParseError,
            >(records.deep_view()),
        decreases rows.len() - i,
    {
        match parse_nasup_strands_from_row(i, &rows[i]) {
            Ok(rec) => {
                let ghost pre = records.deep_view();
                let ghost recv = rec.deep_view();
                records.push(rec);
                proof {
                    assert(records.deep_view() =~= pre.push(recv));
                    assert(rsv[i as int] == rows@[i as int].deep_view());
                }
            },
            Err(e) => {
                proof {
                    lemma_parse_strands_error(rsv, i as int, e);
                }
                return Err(e);
            },
        }
        i += 1;
    }
    Ok(records)
}

/// A row error surfaces from every longer prefix.
proof fn lemma_parse_strands_error(rows: Seq<Seq<SheetCellV>>, i: int, e: ParseError)
    requires
        1 <= i < rows.len(),
        spec_parse_strands_upto(rows, i) is Ok,
        spec_parse_strands_row(i as usize, rows[i]) == Err::<
            ParsedNasupStrandAndIntendedAudienceV,
            ParseError,
        >(e),
    ensures
        forall|n: int| i < n <= rows.len() ==> spec_parse_strands_upto(rows, n) == Err::<
            Seq<ParsedNasupStrandAndIntendedAudienceV>,
            ParseError,
        >(e),
{
    assert forall|n: int| i < n <= rows.len() implies spec_parse_strands_upto(rows, n) == Err::<
        Seq<ParsedNasupStrandAndIntendedAudienceV>,
        ParseError,
    >(e) by {
        lemma_parse_strands_error_step(rows, i, e, n);
    }
}

/// Induction step for [`lemma_parse_strands_error`].
proof fn lemma_parse_strands_error_step(rows: Seq<Seq<SheetCellV>>, i: int, e: ParseError, n: int)
    requires
        1 <= i < rows.len(),
        spec_parse_strands_upto(rows, i) is Ok,
        spec_parse_strands_row(i as usize, rows[i]) == Err::<
            ParsedNasupStrandAndIntendedAudienceV,
            ParseError,
        >(e),
        i < n <= rows.len(),
    ensures
        spec_parse_strands_upto(rows, n) == Err::<
            Seq<ParsedNasupStrandAndIntendedAudienceV>,
            ParseError,
        >(e),
    decreases n,
{
    if n == i + 1 {
    } else {
        lemma_parse_strands_error_step(rows, i, e, n - 1);
    }
}

} // verus!
