//! The worksheet model the row parsers work on: a worksheet is a list of
//! rows, a row a list of cells, each cell already decoded to a plain
//! value by the spreadsheet boundary (cell-level decoding and style
//! inspection stay outside the verified core).

use vstd::prelude::*;

use crate::calendar::{CalendarDate, ClockTime};

verus! {

/// One decoded spreadsheet cell.
pub enum SheetCell {
    /// A text cell; `highlighted` records a non-white background (the
    /// sheets mark paid presenters by colouring their cell).
    Text { value: String, highlighted: bool },
    /// A date-time cell, split into calendar fields.
    DateTime { date: CalendarDate, time: ClockTime },
    /// An empty cell.
    Empty,
    /// Any other cell kind (a number, a boolean, an error marker).
    Other,
}

/// Mathematical image of a [`SheetCell`].
#[verifier::ext_equal]
pub enum SheetCellV {
    Text { value: Seq<char>, highlighted: bool },
    DateTime { date: CalendarDate, time: ClockTime },
    Empty,
    Other,
}

impl DeepView for SheetCell {
    type V = SheetCellV;

    open spec fn deep_view(&self) -> SheetCellV {
        match self {
            SheetCell::Text { value, highlighted } => SheetCellV::Text {
                value: value@,
                highlighted: *highlighted,
            },
            SheetCell::DateTime { date, time } => SheetCellV::DateTime {
                date: *date,
                time: *time,
            },
            SheetCell::Empty => SheetCellV::Empty,
            SheetCell::Other => SheetCellV::Other,
        }
    }
}

impl Clone for SheetCell {
    fn clone(&self) -> (r: Self)
        ensures
            r.deep_view() == self.deep_view(),
    {
        match self {
            SheetCell::Text { value, highlighted } => SheetCell::Text {
                value: value.clone(),
                highlighted: *highlighted,
            },
            SheetCell::DateTime { date, time } => SheetCell::DateTime {
                date: *date,
                time: *time,
            },
            SheetCell::Empty => SheetCell::Empty,
            SheetCell::Other => SheetCell::Other,
        }
    }
}

} // verus!
