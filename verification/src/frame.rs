//! Reading delimited text: a header row, then data rows, with a type
//! inferred for each column from the first rows.

use vstd::prelude::*;
use polars::datatypes::{AnyValue, DataType};
use polars::prelude::SerReader;
use crate::failure::{Failure, FailureView};
use crate::schema::{inferred_type, sorted_as, Column, ColumnKind, ColumnView, SourceValue, SourceValueView};

verus! {

/// The number of data rows from which the type of each column is inferred.
pub const SAMPLE_ROWS: usize = 100;

/// The table that the reader hands over. Opaque: what it holds is named by
/// [`frame_columns`] and [`frame_rows`].
#[verifier::external_type_specification]
#[verifier::external_body]
pub struct ExDataFrame(polars::frame::DataFrame);

/// A column of the reader's table; needed only to declare the table.
#[verifier::external_type_specification]
#[verifier::external_body]
pub struct ExSeries(polars::series::Series);

/// The reader's complaint.
#[verifier::external_type_specification]
#[verifier::external_body]
pub struct ExPolarsError(polars::error::PolarsError);

/// A column as the reader has it: its name, and its type as the reader
/// names it.
pub struct ReaderColumn {
    pub name: Seq<char>,
    pub kind: ColumnKind,
}

/// The columns of a table as read, in order.
pub uninterp spec fn frame_columns(df: polars::frame::DataFrame) -> Seq<ReaderColumn>;

/// The rows of a table as read, each with its cells in the order of the
/// columns.
pub uninterp spec fn frame_rows(df: polars::frame::DataFrame) -> Seq<Seq<SourceValueView>>;

/// The mathematical value of a [`Frame`].
pub struct FrameView {
    pub columns: Seq<ColumnView>,
    pub rows: Seq<Seq<SourceValueView>>,
}

/// What the reader makes of a stream of delimited text when it infers the
/// column types from the first `sample` data rows; `None` where it rejects
/// the stream.
pub uninterp spec fn delimited_text(bytes: Seq<u8>, sample: nat) -> Option<FrameView>;

/// The column of a schema that a column of the reader gives: the same name,
/// and the inferred type that the reader's type counts as.
pub open spec fn schema_column(column: ReaderColumn) -> ColumnView {
    ColumnView { name: column.name, inferred: sorted_as(column.kind) }
}

/// All that an opaque table holds.
pub open spec fn frame_contents(df: polars::frame::DataFrame) -> FrameView {
    FrameView {
        columns: Seq::new(frame_columns(df).len(), |c: int| schema_column(frame_columns(df)[c])),
        rows: Seq::new(
            frame_rows(df).len(),
            |r: int| Seq::new(frame_columns(df).len(), |c: int| frame_rows(df)[r][c]),
        ),
    }
}

impl FrameView {
    /// Every row has one cell for each column.
    pub open spec fn wf(self) -> bool {
        forall|r: int| 0 <= r < self.rows.len() ==> (#[trigger] self.rows[r]).len() == self.columns.len()
    }
}

/// Parses delimited text with a header row.
///
/// Trusted: wraps `polars::prelude::CsvReader` over the bytes in memory, with
/// a header row, type inference over the first `sample` rows, a value that
/// does not fit the type of its column read as null, and a single thread, so
/// that the table depends on the bytes and on `sample` alone. States only
/// that: the table is the one that [`delimited_text`] names.
#[verifier::external_body]
fn parse_delimited(data: &[u8], sample: usize) -> (out: Result<polars::frame::DataFrame, polars::error::PolarsError>)
    ensures
        match out {
            Ok(df) => delimited_text(data@, sample as nat) == Some(frame_contents(df)),
            Err(_) => delimited_text(data@, sample as nat) is None,
        },
{
    polars::prelude::CsvReader::new(std::io::Cursor::new(data))
        .infer_schema(Some(sample))
        .has_header(true)
        .with_n_threads(Some(1))
        .with_ignore_errors(true)
        .finish()
}

/// What a complaint of the reader says: whether the reader found no data at
/// all, and the text of the complaint.
pub uninterp spec fn reader_complaint(e: polars::error::PolarsError) -> (bool, Seq<char>);

/// Tells why the reader failed: whether it found no data at all, and its
/// complaint.
///
/// Trusted: tells `PolarsError::NoData` from the other variants, and takes
/// the text from the error's `Display`; both are what [`reader_complaint`]
/// names.
#[verifier::external_body]
fn reader_failure(e: &polars::error::PolarsError) -> (out: (bool, String))
    ensures
        (out.0, out.1@) == reader_complaint(*e),
{
    (matches!(e, polars::error::PolarsError::NoData(_)), e.to_string())
}

/// The number of columns.
///
/// Trusted: wraps `DataFrame::width`.
#[verifier::external_body]
fn width_of(df: &polars::frame::DataFrame) -> (n: usize)
    ensures
        n == frame_columns(*df).len(),
{
    df.width()
}

/// The number of rows.
///
/// Trusted: wraps `DataFrame::height`.
#[verifier::external_body]
fn height_of(df: &polars::frame::DataFrame) -> (n: usize)
    ensures
        n == frame_rows(*df).len(),
{
    df.height()
}

/// The name of column `c`.
///
/// Trusted: wraps `Series::name` on the column that `DataFrame::get_columns`
/// has at `c`, which panics past the last column.
#[verifier::external_body]
fn column_name(df: &polars::frame::DataFrame, c: usize) -> (name: String)
    requires
        c < frame_columns(*df).len(),
    ensures
        name@ == frame_columns(*df)[c as int].name,
{
    df.get_columns()[c].name().to_owned()
}

/// The type of column `c`, as the reader names it.
///
/// Trusted: wraps `Series::dtype` on the column at `c`, and hands the type
/// over under the same name; a type that has no name here is `Other`.
#[verifier::external_body]
fn column_kind(df: &polars::frame::DataFrame, c: usize) -> (kind: ColumnKind)
    requires
        c < frame_columns(*df).len(),
    ensures
        kind == frame_columns(*df)[c as int].kind,
{
    match df.get_columns()[c].dtype() {
        DataType::Int8 => ColumnKind::Int8, DataType::Int16 => ColumnKind::Int16,
        DataType::Int32 => ColumnKind::Int32, DataType::Int64 => ColumnKind::Int64,
        DataType::UInt8 => ColumnKind::UInt8, DataType::UInt16 => ColumnKind::UInt16,
        DataType::UInt32 => ColumnKind::UInt32, DataType::UInt64 => ColumnKind::UInt64,
        DataType::Float32 => ColumnKind::Float32, DataType::Float64 => ColumnKind::Float64,
        DataType::Decimal(..) => ColumnKind::Decimal, DataType::Date => ColumnKind::Date,
        DataType::Datetime(..) => ColumnKind::Datetime, DataType::Time => ColumnKind::Time,
        DataType::Boolean => ColumnKind::Boolean, DataType::String => ColumnKind::String,
        DataType::List(_) => ColumnKind::List, DataType::Binary => ColumnKind::Binary,
        _ => ColumnKind::Other,
    }
}

/// The cell in row `r` of column `c`.
///
/// Trusted: wraps `Series::get` on the column at `c`, which fails only past
/// the last row (there the default value, null, would be handed over), and
/// hands the value over: a truth value, an integer of any
/// width and a string as they are, a number of double precision as its
/// shortest decimal text, and a value of any other kind as the text that its
/// `Display` gives.
#[verifier::external_body]
fn cell_at(df: &polars::frame::DataFrame, r: usize, c: usize) -> (cell: SourceValue)
    requires
        r < frame_rows(*df).len(),
        c < frame_columns(*df).len(),
    ensures
        cell@ == frame_rows(*df)[r as int][c as int],
{
    match df[c].get(r).unwrap_or_default() {
        AnyValue::Null => SourceValue::Null, AnyValue::Boolean(v) => SourceValue::Boolean(v),
        AnyValue::Int8(v) => SourceValue::Int8(v), AnyValue::Int16(v) => SourceValue::Int16(v),
        AnyValue::Int32(v) => SourceValue::Int32(v), AnyValue::Int64(v) => SourceValue::Int64(v),
        AnyValue::UInt8(v) => SourceValue::UInt8(v), AnyValue::UInt16(v) => SourceValue::UInt16(v),
        AnyValue::UInt32(v) => SourceValue::UInt32(v), AnyValue::UInt64(v) => SourceValue::UInt64(v),
        AnyValue::Float64(v) => SourceValue::Real(v.to_string()),
        AnyValue::String(v) => SourceValue::Text(v.to_owned()),
        other => SourceValue::Other(other.to_string()),
    }
}

/// A table read from a source: its columns and its rows.
#[derive(Clone, Debug, PartialEq, Eq)]
pub struct Frame {
    pub columns: Vec<Column>,
    pub rows: Vec<Vec<SourceValue>>,
}

impl View for Frame {
    type V = FrameView;

    open spec fn view(&self) -> FrameView {
        FrameView { columns: self.columns.deep_view(), rows: self.rows.deep_view() }
    }
}

impl Frame {
    /// Every row has one cell for each column.
    pub open spec fn wf(&self) -> bool {
        self@.wf()
    }
}

/// The failure that a complaint of the reader stands for: a source without
/// any data has no columns; every other complaint is about its syntax.
pub open spec fn failure_of(no_data: bool, complaint: Seq<char>) -> FailureView {
    if no_data {
        FailureView::SchemaError(complaint)
    } else {
        FailureView::ParseError(complaint)
    }
}

/// The complaint about a source without columns.
pub open spec fn no_columns_text() -> Seq<char> {
    "the header row has no columns"@
}

/// Whether `e` is the failure of the reader: what a complaint of the reader
/// stands for, with the text of that complaint.
pub open spec fn reading_failure(e: FailureView) -> bool {
    exists|complaint: polars::error::PolarsError|
        e == failure_of((#[trigger] reader_complaint(complaint)).0, reader_complaint(complaint).1)
}

/// Sorts a complaint of the reader into the failures of this library.
pub fn read_failure(no_data: bool, complaint: String) -> (e: Failure)
    ensures
        e@ == failure_of(no_data, complaint@),
{
    if no_data {
        Failure::SchemaError(complaint)
    } else {
        Failure::ParseError(complaint)
    }
}

fn copy_columns(df: &polars::frame::DataFrame) -> (columns: Vec<Column>)
    ensures
        columns.deep_view() == frame_contents(*df).columns,
{
    let width = width_of(df);
    let mut columns: Vec<Column> = Vec::new();
    let mut c: usize = 0;
    while c < width
        invariant
            c <= width,
            width == frame_columns(*df).len(),
            columns.len() == c,
            forall|k: int| 0 <= k < c ==> (#[trigger] columns@[k])@ == schema_column(frame_columns(*df)[k]),
        decreases width - c,
    {
        columns.push(Column { name: column_name(df, c), inferred: inferred_type(column_kind(df, c)) });
        c += 1;
    }
    columns
}

fn copy_row(df: &polars::frame::DataFrame, r: usize) -> (row: Vec<SourceValue>)
    requires
        r < frame_rows(*df).len(),
    ensures
        row.deep_view() == frame_contents(*df).rows[r as int],
{
    let width = width_of(df);
    let mut row: Vec<SourceValue> = Vec::new();
    let mut c: usize = 0;
    while c < width
        invariant
            c <= width,
            r < frame_rows(*df).len(),
            width == frame_columns(*df).len(),
            row.len() == c,
            forall|k: int| 0 <= k < c ==> (#[trigger] row@[k])@ == frame_rows(*df)[r as int][k],
        decreases width - c,
    {
        row.push(cell_at(df, r, c));
        c += 1;
    }
    row
}

/// Reads a stream of delimited text into a table, inferring the type of each
/// column from the first [`SAMPLE_ROWS`] data rows. A later value that does
/// not fit the type of its column is read as null.
///
/// Succeeds exactly where the reader accepts the stream and finds at least
/// one column, and then returns the table that [`delimited_text`] names. A
/// table without columns is a [`Failure::SchemaError`].
pub fn read_frame(data: &[u8]) -> (out: Result<Frame, Failure>)
    ensures
        match out {
            Ok(frame) => {
                &&& frame.wf()
                &&& frame@.columns.len() > 0
                &&& delimited_text(data@, SAMPLE_ROWS as nat) == Some(frame@)
            },
            Err(e) => match delimited_text(data@, SAMPLE_ROWS as nat) {
                None => reading_failure(e@),
                Some(frame) => frame.columns.len() == 0 && e@ == FailureView::SchemaError(no_columns_text()),
            },
        },
{
    let df = match parse_delimited(data, SAMPLE_ROWS) {
        Ok(df) => df,
        Err(e) => {
            let (no_data, complaint) = reader_failure(&e);
            return Err(read_failure(no_data, complaint));
        },
    };
    let columns = copy_columns(&df);
    if columns.len() == 0 {
        return Err(Failure::SchemaError("the header row has no columns".to_owned()));
    }
    let height = height_of(&df);
    let mut rows: Vec<Vec<SourceValue>> = Vec::new();
    let mut r: usize = 0;
    while r < height
        invariant
            r <= height,
            height == frame_rows(df).len(),
            rows.len() == r,
            forall|k: int| 0 <= k < r ==> (#[trigger] rows@[k]).deep_view() == frame_contents(df).rows[k],
        decreases height - r,
    {
        rows.push(copy_row(&df, r));
        r += 1;
    }
    let frame = Frame { columns, rows };
    assert(frame@.rows =~= frame_contents(df).rows);
    Ok(frame)
}

} // verus!
