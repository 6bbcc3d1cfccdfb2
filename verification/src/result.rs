//! The result of a query: column names and rows of typed cells.

use vstd::prelude::*;
use crate::number::{decimal, decimal_chars};
use crate::text::string_of;

verus! {

/// One value of a result row.
///
/// A real number is held as its decimal text; a binary value is held only as
/// the fact that there was one.
#[derive(Clone, Debug, PartialEq, Eq)]
pub enum Cell {
    Null,
    Integer(i64),
    Real(String),
    Text(String),
    Blob,
}

/// The mathematical value of a [`Cell`].
pub enum CellView {
    Null,
    Integer(int),
    Real(Seq<char>),
    Text(Seq<char>),
    Blob,
}

impl View for Cell {
    type V = CellView;

    open spec fn view(&self) -> CellView {
        match *self {
            Cell::Null => CellView::Null,
            Cell::Integer(n) => CellView::Integer(n as int),
            Cell::Real(t) => CellView::Real(t@),
            Cell::Text(t) => CellView::Text(t@),
            Cell::Blob => CellView::Blob,
        }
    }
}

impl DeepView for Cell {
    type V = CellView;

    open spec fn deep_view(&self) -> CellView {
        self@
    }
}

impl CellView {
    /// The text of a cell that is not null; `None` for a null cell.
    pub open spec fn text(self) -> Option<Seq<char>> {
        match self {
            CellView::Null => None,
            CellView::Integer(n) => Some(decimal(n)),
            CellView::Real(t) => Some(t),
            CellView::Text(t) => Some(t),
            CellView::Blob => Some("[BLOB]"@),
        }
    }

    /// The text that stands for the cell on display: `NULL` for a null cell.
    pub open spec fn shown(self) -> Seq<char> {
        match self.text() {
            Some(t) => t,
            None => "NULL"@,
        }
    }
}

impl Cell {
    /// The text of a cell that is not null.
    pub fn text(&self) -> (t: Option<String>)
        ensures
            t.deep_view() == self@.text(),
    {
        match self {
            Cell::Null => None,
            Cell::Integer(n) => {
                let chars = decimal_chars(*n);
                Some(string_of(&chars))
            },
            Cell::Real(t) => Some(t.clone()),
            Cell::Text(t) => Some(t.clone()),
            Cell::Blob => Some("[BLOB]".to_owned()),
        }
    }

    /// The text that stands for the cell on display.
    pub fn shown(&self) -> (t: String)
        ensures
            t@ == self@.shown(),
    {
        match self.text() {
            Some(t) => t,
            None => "NULL".to_owned(),
        }
    }
}

/// A fully materialized query result.
#[derive(Clone, Debug, PartialEq, Eq)]
pub struct ResultSet {
    pub columns: Vec<String>,
    pub rows: Vec<Vec<Cell>>,
}

/// The mathematical value of a [`ResultSet`].
pub struct ResultSetView {
    pub columns: Seq<Seq<char>>,
    pub rows: Seq<Seq<CellView>>,
}

impl ResultSetView {
    /// Every row has one cell for each column.
    pub open spec fn wf(self) -> bool {
        forall|r: int| 0 <= r < self.rows.len() ==> (#[trigger] self.rows[r]).len() == self.columns.len()
    }

    /// The display texts of row `r`, one for each cell.
    pub open spec fn shown_row(self, r: int) -> Seq<Seq<char>> {
        Seq::new(self.rows[r].len(), |c: int| self.rows[r][c].shown())
    }
}

impl View for ResultSet {
    type V = ResultSetView;

    open spec fn view(&self) -> ResultSetView {
        ResultSetView { columns: self.columns.deep_view(), rows: self.rows.deep_view() }
    }
}

impl ResultSet {
    /// Every row has one cell for each column.
    pub open spec fn wf(&self) -> bool {
        self@.wf()
    }

    /// Puts column names and rows together, if every row has one cell for
    /// each column.
    pub fn new(columns: Vec<String>, rows: Vec<Vec<Cell>>) -> (made: Option<ResultSet>)
        ensures
            match made {
                Some(rs) => rs.wf() && rs.columns == columns && rs.rows == rows,
                None => !(ResultSetView {
                    columns: columns.deep_view(),
                    rows: rows.deep_view(),
                }).wf(),
            },
    {
        let mut r: usize = 0;
        while r < rows.len()
            invariant
                r <= rows.len(),
                forall|k: int| 0 <= k < r ==> (#[trigger] rows.deep_view()[k]).len() == columns.len(),
            decreases rows.len() - r,
        {
            if rows[r].len() != columns.len() {
                proof {
                    let v = ResultSetView { columns: columns.deep_view(), rows: rows.deep_view() };
                    assert(v.rows[r as int].len() != v.columns.len());
                }
                return None;
            }
            r += 1;
        }
        Some(ResultSet { columns, rows })
    }

    /// The display texts of row `r`.
    pub fn shown_row(&self, r: usize) -> (texts: Vec<String>)
        requires
            r < self.rows.len(),
        ensures
            texts.deep_view() == self@.shown_row(r as int),
    {
        let row = &self.rows[r];
        let mut texts: Vec<String> = Vec::new();
        let mut c: usize = 0;
        while c < row.len()
            invariant
                c <= row.len(),
                row == self.rows@[r as int],
                texts.len() == c,
                forall|k: int| 0 <= k < c ==> (#[trigger] texts@[k])@ == row@[k]@.shown(),
            decreases row.len() - c,
        {
            texts.push(row[c].shown());
            c += 1;
        }
        texts
    }
}

} // verus!
