//! The federated store: one relational namespace for all the sources of a
//! run, kept by an embedded engine in memory.
//!
//! The store keeps a record of every table it has loaded, and (for proofs
//! only) of every statement that the engine has accepted from it. It takes
//! in no database whose schema is not UTF-8, so that every name that a query
//! brings back can be read.

use vstd::prelude::*;
use rusqlite::types::{Value, ValueRef};
use crate::failure::{Failure, FailureView};
use crate::frame::{delimited_text, no_columns_text, read_frame, reading_failure, Frame, FrameView, SAMPLE_ROWS};
use crate::result::{Cell, CellView, ResultSet, ResultSetView};
use crate::schema::{
    bind, bound, is_bindable, storage_class, storage_of, Column, ColumnView, SourceValueView, SqlValue, SqlValueView,
};
use crate::sql::{
    attach_sql, attach_text, create_table_sql, create_table_text, detach_sql, detach_text, insert_sql, insert_text,
    schema_sql, schema_text,
};
use crate::text::{chars_of, names_match, same_name};

verus! {

/// A connection to the engine. Opaque.
#[verifier::external_type_specification]
#[verifier::external_body]
pub struct ExConnection(rusqlite::Connection);

/// A complaint of the engine. Opaque.
#[verifier::external_type_specification]
#[verifier::external_body]
pub struct ExEngineError(rusqlite::Error);

/// Opens a store in memory.
///
/// Trusted: wraps `rusqlite::Connection::open_in_memory`. Nothing is claimed
/// of the result.
#[verifier::external_body]
fn engine_open() -> (out: Result<rusqlite::Connection, rusqlite::Error>) {
    rusqlite::Connection::open_in_memory()
}

/// Runs one statement with its parameters bound in order.
///
/// Trusted: wraps `rusqlite::Connection::execute`. Each parameter is handed
/// over as the engine's value of the same kind; the text of a real number is
/// read back into the number, which never fails for a text that reads as
/// one. Nothing is claimed of the result: it is up to the engine and its
/// state.
#[verifier::external_body]
fn engine_execute(conn: &rusqlite::Connection, sql: &str, params: &Vec<SqlValue>) -> (out: Result<
    usize,
    rusqlite::Error,
>)
    requires
        forall|i: int| 0 <= i < params.len() ==> is_bindable(#[trigger] params@[i]@),
{
    let values = params.iter().map(
        |p| match p {
            SqlValue::Null => Value::Null,
            SqlValue::Integer(n) => Value::Integer(*n),
            SqlValue::Real(t) => t.parse().map_or(Value::Null, Value::Real),
            SqlValue::Text(t) => Value::Text(t.clone()),
        },
    );
    conn.execute(sql, rusqlite::params_from_iter(values))
}

/// A statement that the engine has compiled. Opaque.
#[verifier::external_type_specification]
#[verifier::external_body]
pub struct ExStatement<'conn>(rusqlite::Statement<'conn>);

/// The rows that a statement gives, one after the other. Opaque.
#[verifier::external_type_specification]
#[verifier::external_body]
pub struct ExRows<'stmt>(rusqlite::Rows<'stmt>);

/// One row of a result. Opaque.
#[verifier::external_type_specification]
#[verifier::external_body]
pub struct ExRow<'stmt>(rusqlite::Row<'stmt>);

/// The text that was handed to the engine to compile a statement from.
pub uninterp spec fn compiled_from(stmt: rusqlite::Statement) -> Seq<char>;

/// The names of the columns of the result of a compiled statement, in order,
/// as the statement has them while nothing runs it.
pub uninterp spec fn statement_columns(stmt: rusqlite::Statement) -> Seq<Seq<char>>;

/// The cells that a row holds, in the order of the columns, each as it is
/// handed over to this library.
pub uninterp spec fn row_cells(row: rusqlite::Row) -> Seq<CellView>;

/// Compiles a statement.
///
/// Trusted: wraps `rusqlite::Connection::prepare`. Whether the engine takes
/// the text is up to the engine and its state. Of a statement that comes
/// back only this is claimed: `sql` is the text that it was compiled from.
#[verifier::external_body]
fn engine_prepare<'conn>(conn: &'conn rusqlite::Connection, sql: &str) -> (out: Result<
    rusqlite::Statement<'conn>,
    rusqlite::Error,
>)
    ensures
        out matches Ok(stmt) ==> compiled_from(stmt) == sql@,
{
    conn.prepare(sql)
}

/// The number of columns of the result of a statement.
///
/// Trusted: wraps `rusqlite::Statement::column_count`: the statement has as
/// many column names as it has columns.
#[verifier::external_body]
fn statement_width(stmt: &rusqlite::Statement<'_>) -> (width: usize)
    ensures
        width == statement_columns(*stmt).len(),
{
    stmt.column_count()
}

/// The name of column `c` of the result of a statement.
///
/// Trusted: wraps `rusqlite::Statement::column_name`, which fails past the
/// last column. A name that comes back is the name of column `c`. The call
/// panics on a name that is not UTF-8, and the engine has no call that does
/// not. A name is made of the text of the query or of the schema of a
/// database. The one is UTF-8 as every `str` is. The other is UTF-8 in every
/// database of a store: the store takes in no database whose schema is not
/// (see [`attach_result`]), it runs no statement that gives no columns, such
/// as one that attaches a database, and it does not lend its connection.
#[verifier::external_body]
fn statement_column(stmt: &rusqlite::Statement<'_>, c: usize) -> (out: Result<String, rusqlite::Error>)
    ensures
        out matches Ok(name) ==> c < statement_columns(*stmt).len() && name@ == statement_columns(*stmt)[c as int],
{
    stmt.column_name(c).map(|name| name.to_owned())
}

/// What a cursor has done so far.
pub struct CursorView {
    /// The text that the statement that it runs was compiled from.
    pub source: Seq<char>,
    /// The rows that it has given, in the order in which it gave them.
    pub given: Seq<Seq<CellView>>,
    /// Whether it has said that there are no more rows.
    pub ended: bool,
}

/// What a cursor over the rows of a statement has done so far.
pub uninterp spec fn cursor_view(rows: rusqlite::Rows) -> CursorView;

/// Runs a statement without parameters and hands over a cursor over its
/// rows.
///
/// Trusted: wraps `rusqlite::Statement::query`. Whether the statement runs is
/// up to the engine. Of a cursor that comes back this is claimed: it runs the
/// statement that was handed in, and it has given no row yet nor said that
/// there is none.
#[verifier::external_body]
fn statement_rows<'stmt>(stmt: &'stmt mut rusqlite::Statement<'_>) -> (out: Result<
    rusqlite::Rows<'stmt>,
    rusqlite::Error,
>)
    ensures
        out matches Ok(rows) ==> {
            &&& cursor_view(rows).source == compiled_from(*old(stmt))
            &&& cursor_view(rows).given.len() == 0
            &&& !cursor_view(rows).ended
        },
{
    stmt.query([])
}

/// The next row, or `None` after the last.
///
/// Trusted: wraps `rusqlite::Rows::next`, which gives `Some` row if there is
/// another row, and `None` if all rows have been given. Which it is, is up to
/// the engine. Claimed is only what the call adds to what the cursor has
/// done: a row that comes back is the last of the rows given, and `None`
/// ends the cursor.
#[verifier::external_body]
fn rows_next<'a, 'stmt>(rows: &'a mut rusqlite::Rows<'stmt>) -> (out: Result<
    Option<&'a rusqlite::Row<'stmt>>,
    rusqlite::Error,
>)
    ensures
        cursor_view(*final(rows)).source == cursor_view(*old(rows)).source,
        match out {
            Ok(Some(row)) => {
                &&& cursor_view(*final(rows)).given == cursor_view(*old(rows)).given.push(row_cells(*row))
                &&& cursor_view(*final(rows)).ended == cursor_view(*old(rows)).ended
            },
            Ok(None) => {
                &&& cursor_view(*final(rows)).given == cursor_view(*old(rows)).given
                &&& cursor_view(*final(rows)).ended
            },
            Err(_) => true,
        },
{
    rows.next()
}

/// The cell in column `c` of a row.
///
/// Trusted: wraps `rusqlite::Row::get_ref`, which fails past the last
/// column, and hands the value over: an integer and a null as they are, a
/// real number as its shortest decimal text, a text with any invalid UTF-8
/// replaced, and a binary value as the mere fact. A cell that comes back is
/// the cell in column `c`.
#[verifier::external_body]
fn row_cell(row: &rusqlite::Row<'_>, c: usize) -> (out: Result<Cell, rusqlite::Error>)
    ensures
        out matches Ok(cell) ==> cell@ == row_cells(*row)[c as int],
{
    row.get_ref(c).map(
        |value| match value {
            ValueRef::Null => Cell::Null,
            ValueRef::Integer(n) => Cell::Integer(n),
            ValueRef::Real(x) => Cell::Real(x.to_string()),
            ValueRef::Text(t) => Cell::Text(String::from_utf8_lossy(t).into()),
            ValueRef::Blob(_) => Cell::Blob,
        },
    )
}

/// The text of a complaint of the engine.
pub uninterp spec fn engine_text(e: rusqlite::Error) -> Seq<char>;

/// The text of a complaint of the engine.
///
/// Trusted: wraps the `Display` of `rusqlite::Error`. The text is the one
/// that [`engine_text`] names.
#[verifier::external_body]
fn engine_complaint(e: &rusqlite::Error) -> (text: String)
    ensures
        text@ == engine_text(*e),
{
    e.to_string()
}

/// A statement with the values bound to its parameters.
pub struct StatementView {
    pub sql: Seq<char>,
    pub params: Seq<SqlValueView>,
}

/// What the store knows of a table that it has loaded.
#[derive(Clone, Debug, PartialEq, Eq)]
pub struct TableRecord {
    pub name: String,
    pub columns: Vec<Column>,
    pub rows: usize,
}

/// The mathematical value of a [`TableRecord`].
pub struct TableRecordView {
    pub name: Seq<char>,
    pub columns: Seq<ColumnView>,
    pub rows: nat,
}

impl View for TableRecord {
    type V = TableRecordView;

    open spec fn view(&self) -> TableRecordView {
        TableRecordView { name: self.name@, columns: self.columns.deep_view(), rows: self.rows as nat }
    }
}

impl DeepView for TableRecord {
    type V = TableRecordView;

    open spec fn deep_view(&self) -> TableRecordView {
        self@
    }
}

/// The record of the table that `frame` is loaded into under `name`: the
/// columns of the frame in their order, and as many rows as the frame has.
pub open spec fn record_of(name: Seq<char>, frame: FrameView) -> TableRecordView {
    TableRecordView { name, columns: frame.columns, rows: frame.rows.len() }
}

/// The statement that inserts one row of a source into `table`: each cell is
/// bound as the value that it stands for, coerced to the storage class of its
/// column, and as null where that fails.
pub open spec fn insert_statement(table: Seq<char>, columns: Seq<ColumnView>, row: Seq<SourceValueView>) -> StatementView {
    StatementView {
        sql: insert_text(table, columns.len()),
        params: Seq::new(row.len(), |c: int| bound(row[c], storage_of(columns[c].inferred))),
    }
}

/// The statements that load `frame` into a new table `table`: one that
/// creates the table, then one for each row, in the order of the rows.
pub open spec fn load_statements(table: Seq<char>, frame: FrameView) -> Seq<StatementView> {
    seq![StatementView { sql: create_table_text(table, frame.columns), params: Seq::empty() }] + Seq::new(
        frame.rows.len(),
        |r: int| insert_statement(table, frame.columns, frame.rows[r]),
    )
}

/// A table is created with the columns of its source, in their order: the
/// statement that creates it defines exactly those columns, and the record
/// of the table holds them.
pub proof fn table_keeps_columns(table: Seq<char>, frame: FrameView)
    ensures
        load_statements(table, frame)[0].sql == create_table_text(table, frame.columns),
        record_of(table, frame).columns.len() == frame.columns.len(),
        forall|c: int|
            0 <= c < frame.columns.len() ==> (#[trigger] record_of(table, frame).columns[c]) == frame.columns[c],
{
}

/// A load inserts every row of its source once, in order: after the statement
/// that creates the table comes one insertion for each row, with the values
/// of that row, each coerced to the storage class of its column, and the
/// record of the table counts as many rows.
pub proof fn load_inserts_every_row(table: Seq<char>, frame: FrameView)
    ensures
        load_statements(table, frame).len() == frame.rows.len() + 1,
        record_of(table, frame).rows == frame.rows.len(),
        forall|r: int|
            0 <= r < frame.rows.len() ==> {
                &&& (#[trigger] load_statements(table, frame)[r + 1]).sql == insert_text(table, frame.columns.len())
                &&& load_statements(table, frame)[r + 1].params.len() == frame.rows[r].len()
                &&& forall|c: int|
                    0 <= c < frame.rows[r].len() ==> #[trigger] load_statements(table, frame)[r + 1].params[c]
                        == bound(frame.rows[r][c], storage_of(frame.columns[c].inferred))
            },
{
}

/// The first `width` cells of a row.
pub open spec fn first_cells(cells: Seq<CellView>, width: nat) -> Seq<CellView> {
    Seq::new(width, |c: int| cells[c])
}

/// The rows of a result with `width` columns that a cursor gives: of each row
/// that it has given, in order, the first `width` cells.
pub open spec fn taken(given: Seq<Seq<CellView>>, width: nat) -> Seq<Seq<CellView>> {
    Seq::new(given.len(), |r: int| first_cells(given[r], width))
}

/// Whether `columns` are the columns of the result of a statement that was
/// compiled from `sql`, in their order.
pub open spec fn heads(sql: Seq<char>, columns: Seq<Seq<char>>) -> bool {
    exists|stmt: rusqlite::Statement| #[trigger] statement_columns(stmt) == columns && compiled_from(stmt) == sql
}

/// Whether `rows` are all the rows of a statement that was compiled from
/// `sql`, in the order in which the engine gives them: a cursor over that
/// statement has given exactly these rows, each with its first `width`
/// cells, and has then said that there are no more.
pub open spec fn gives(sql: Seq<char>, rows: Seq<Seq<CellView>>, width: nat) -> bool {
    exists|cursor: rusqlite::Rows|
        {
            &&& (#[trigger] cursor_view(cursor)).source == sql
            &&& cursor_view(cursor).ended
            &&& rows == taken(cursor_view(cursor).given, width)
        }
}

/// Whether `rs` is an answer of the engine to `sql`: it has columns, they are
/// the columns of a statement that was compiled from `sql`, in their order, and
/// its rows are all the rows that the engine gives for that statement, in the
/// order in which it gives them, each with one cell for each column.
pub open spec fn answers(sql: Seq<char>, rs: ResultSetView) -> bool {
    &&& rs.wf()
    &&& rs.columns.len() > 0
    &&& heads(sql, rs.columns)
    &&& gives(sql, rs.rows, rs.columns.len())
}

/// Whether one of `tables` has the name `name`. As in the engine, the case of
/// ASCII letters makes no difference between two names.
pub open spec fn names_table(tables: Seq<TableRecordView>, name: Seq<char>) -> bool {
    exists|i: int| 0 <= i < tables.len() && same_name((#[trigger] tables[i]).name, name)
}

/// Whether one of `namespaces` is `name`, but for the case of ASCII letters.
pub open spec fn names_namespace(namespaces: Seq<Seq<char>>, name: Seq<char>) -> bool {
    exists|i: int| 0 <= i < namespaces.len() && same_name(#[trigger] namespaces[i], name)
}

/// Whether a cell is null, or a text that is free of the replacement
/// character.
#[verifier::loop_isolation(false)]
pub fn clean(cell: &Cell) -> (yes: bool)
    ensures
        yes == is_clean(cell@),
{
    match cell {
        Cell::Null => true,
        Cell::Text(text) => {
            let chars = chars_of(text.as_str());
            let mut k: usize = 0;
            while k < chars.len()
                invariant
                    k <= chars.len(),
                    chars@ == text@,
                    forall|j: int| 0 <= j < k ==> chars@[j] != replacement(),
                decreases chars.len() - k,
            {
                if chars[k] == '\u{FFFD}' {
                    assert(text@[k as int] == replacement());
                    assert(text@.contains(replacement()));
                    return false;
                }
                k += 1;
            }
            assert(!text@.contains(replacement()));
            true
        },
        _ => false,
    }
}

/// Whether every cell of an answer is null or a text that is free of the
/// replacement character.
pub fn all_text(rs: &ResultSet) -> (yes: bool)
    ensures
        yes == is_text(rs@),
{
    let mut r: usize = 0;
    while r < rs.rows.len()
        invariant
            r <= rs.rows.len(),
            forall|i: int, c: int| 0 <= i < r && 0 <= c < rs@.rows[i].len() ==> is_clean(#[trigger] rs@.rows[i][c]),
        decreases rs.rows.len() - r,
    {
        let row = &rs.rows[r];
        assert(rs@.rows[r as int] == row.deep_view());
        let mut c: usize = 0;
        while c < row.len()
            invariant
                c <= row.len(),
                r < rs.rows.len(),
                rs@.rows[r as int] == row.deep_view(),
                forall|k: int| 0 <= k < c ==> is_clean(#[trigger] rs@.rows[r as int][k]),
            decreases row.len() - c,
        {
            assert(rs@.rows[r as int][c as int] == row@[c as int]@);
            if !clean(&row[c]) {
                return false;
            }
            c += 1;
        }
        r += 1;
    }
    true
}

/// A copy of `columns`.
pub fn copy_columns(columns: &Vec<Column>) -> (copy: Vec<Column>)
    ensures
        copy.deep_view() == columns.deep_view(),
{
    let mut copy: Vec<Column> = Vec::new();
    let mut c: usize = 0;
    while c < columns.len()
        invariant
            c <= columns.len(),
            copy.len() == c,
            forall|k: int| 0 <= k < c ==> (#[trigger] copy@[k])@ == columns@[k]@,
        decreases columns.len() - c,
    {
        copy.push(Column { name: columns[c].name.clone(), inferred: columns[c].inferred });
        c += 1;
    }
    copy
}

/// Whether a text is a complaint of the engine.
pub open spec fn said_by_engine(text: Seq<char>) -> bool {
    exists|e: rusqlite::Error| #[trigger] engine_text(e) == text
}

/// The complaint about a statement that gives no columns.
pub open spec fn no_query_text() -> Seq<char> {
    "the statement gives no columns: it is no query"@
}

/// The complaint about a query that gives more rows than can be held.
pub open spec fn too_many_rows_text() -> Seq<char> {
    "the query gives more rows than can be held"@
}

/// Whether `e` is a failure of the engine: an `ExecutionError` with the
/// complaint of the engine.
pub open spec fn engine_failure(e: FailureView) -> bool {
    e matches FailureView::ExecutionError(text) && said_by_engine(text)
}

/// Whether `e` is a failure to run a query: a failure of the engine, or an
/// `ExecutionError` for a statement that is no query or for a query that
/// gives more rows than can be held.
pub open spec fn query_failure(e: FailureView) -> bool {
    ||| engine_failure(e)
    ||| e == FailureView::ExecutionError(no_query_text())
    ||| e == FailureView::ExecutionError(too_many_rows_text())
}

/// The complaint about a table without columns.
pub open spec fn needs_column_text() -> Seq<char> {
    "a table needs at least one column"@
}

/// The complaint about a database whose schema is not UTF-8.
pub open spec fn unreadable_schema_text() -> Seq<char> {
    "the schema of the database is not UTF-8"@
}

/// What can be said of a store: the tables that were loaded, the namespaces
/// of the attached databases, and the statements that the engine accepted.
pub struct StoreView {
    pub tables: Seq<TableRecordView>,
    pub attached: Seq<Seq<char>>,
    pub accepted: Seq<StatementView>,
}

/// The failure of an outcome, if it is one.
pub open spec fn failed(out: Result<(), Failure>) -> Option<FailureView> {
    match out {
        Ok(()) => None,
        Err(e) => Some(e@),
    }
}

/// The character that stands in a text for bytes that are no UTF-8.
pub open spec fn replacement() -> char {
    '\u{FFFD}'
}

/// Whether a cell is null, or a text that is free of the replacement
/// character. A text that was not UTF-8 holds that character, as does a text
/// that held the character itself.
pub open spec fn is_clean(cell: CellView) -> bool {
    match cell {
        CellView::Null => true,
        CellView::Text(t) => !t.contains(replacement()),
        _ => false,
    }
}

/// Whether every cell of an answer is null or a text that is free of the
/// replacement character.
pub open spec fn is_text(rs: ResultSetView) -> bool {
    forall|r: int, c: int| 0 <= r < rs.rows.len() && 0 <= c < rs.rows[r].len() ==> is_clean(#[trigger] rs.rows[r][c])
}

/// The statement that attaches the database file at `path`.
pub open spec fn attach_statement(path: Seq<char>, namespace: Seq<char>) -> StatementView {
    StatementView { sql: attach_text(path, namespace), params: Seq::empty() }
}

/// The statement that lets go of the database under `namespace`.
pub open spec fn detach_statement(namespace: Seq<char>) -> StatementView {
    StatementView { sql: detach_text(namespace), params: Seq::empty() }
}

/// What attaching the database file at `path` under `namespace` does to a
/// store, and how it can fail.
///
/// A namespace that is taken is a `DuplicateTable`, and the engine is not
/// asked. Else the engine is asked to attach the file and then for the schema
/// of the database. Where it refuses either, that is an `ExecutionError`;
/// where a text of the schema is not UTF-8 (or holds the replacement
/// character), that is a `SchemaError`; in both cases the engine is asked to
/// let go of the database again. On success the namespace is the last of the
/// attached ones, and the schema of the database is UTF-8.
pub open spec fn attach_result(
    before: StoreView,
    after: StoreView,
    path: Seq<char>,
    namespace: Seq<char>,
    failure: Option<FailureView>,
) -> bool {
    let attach = attach_statement(path, namespace);
    let detach = detach_statement(namespace);
    &&& after.tables == before.tables
    &&& match failure {
        None => {
            &&& !names_namespace(before.attached, namespace)
            &&& after.attached == before.attached.push(namespace)
            &&& after.accepted == before.accepted.push(attach)
            &&& exists|schema: ResultSetView| #[trigger] answers(schema_text(namespace), schema) && is_text(schema)
        },
        Some(e) => {
            &&& after.attached == before.attached
            &&& if names_namespace(before.attached, namespace) {
                e == FailureView::DuplicateTable(namespace) && after.accepted == before.accepted
            } else {
                &&& query_failure(e) || e == FailureView::SchemaError(unreadable_schema_text())
                &&& after.accepted == before.accepted || after.accepted == before.accepted.push(attach)
                    || after.accepted == before.accepted.push(attach).push(detach)
                &&& e is SchemaError ==> after.accepted != before.accepted && exists|schema: ResultSetView|
                    #[trigger] answers(schema_text(namespace), schema) && !is_text(schema)
            }
        },
    }
}

/// What loading `frame` into a new table `table` does to a store, and how it
/// can fail.
///
/// A name that is taken is a `DuplicateTable`, and a frame without columns a
/// `SchemaError`; in both cases the engine is not asked. Else the statements
/// of [`load_statements`] go to the engine one by one, and the first that it
/// rejects ends the load with an `ExecutionError`.
pub open spec fn frame_result(
    before: StoreView,
    after: StoreView,
    table: Seq<char>,
    frame: FrameView,
    failure: Option<FailureView>,
) -> bool {
    &&& after.attached == before.attached
    &&& match failure {
        None => {
            &&& !names_table(before.tables, table)
            &&& frame.columns.len() > 0
            &&& after.tables == before.tables.push(record_of(table, frame))
            &&& names_table(after.tables, table)
            &&& after.accepted == before.accepted + load_statements(table, frame)
        },
        Some(e) => {
            &&& after.tables == before.tables
            &&& if names_table(before.tables, table) {
                e == FailureView::DuplicateTable(table) && after.accepted == before.accepted
            } else if frame.columns.len() == 0 {
                e == FailureView::SchemaError(needs_column_text()) && after.accepted == before.accepted
            } else {
                engine_failure(e) && exists|k: int|
                    0 <= k < load_statements(table, frame).len() && after.accepted == before.accepted
                        + #[trigger] load_statements(table, frame).take(k)
            }
        },
    }
}

/// What reading `data` as delimited text and loading it into a new table
/// `table` does to a store, and how it can fail.
///
/// What the reader makes of `data` decides first: where it rejects the
/// stream, that is a `ParseError` or a `SchemaError`, and where it finds no
/// column, a `SchemaError`; in both cases nothing is loaded. Else the table
/// that it read is loaded as [`frame_result`] says.
pub open spec fn delimited_result(
    before: StoreView,
    after: StoreView,
    table: Seq<char>,
    data: Seq<u8>,
    failure: Option<FailureView>,
) -> bool {
    match delimited_text(data, SAMPLE_ROWS as nat) {
        None => failure matches Some(e) && reading_failure(e) && after == before,
        Some(frame) => if frame.columns.len() == 0 {
            failure == Some(FailureView::SchemaError(no_columns_text())) && after == before
        } else {
            frame_result(before, after, table, frame, failure)
        },
    }
}

/// The relational namespace of one run.
pub struct FederatedStore {
    conn: rusqlite::Connection,
    tables: Vec<TableRecord>,
    attached: Vec<String>,
    accepted: Ghost<Seq<StatementView>>,
}

impl FederatedStore {
    /// The tables that were loaded, in the order of loading.
    pub closed spec fn tables(&self) -> Seq<TableRecordView> {
        self.tables.deep_view()
    }

    /// The namespaces under which database files were attached, in order.
    pub closed spec fn attached(&self) -> Seq<Seq<char>> {
        self.attached.deep_view()
    }

    /// The statements that the engine has accepted, in order.
    pub closed spec fn accepted(&self) -> Seq<StatementView> {
        self.accepted@
    }

    /// All that can be said of the store.
    pub open spec fn state(&self) -> StoreView {
        StoreView { tables: self.tables(), attached: self.attached(), accepted: self.accepted() }
    }

    /// No two tables have one name, and no two attached databases one
    /// namespace, whatever the case of the ASCII letters.
    pub open spec fn wf(&self) -> bool {
        &&& forall|i: int, j: int|
            0 <= i < j < self.tables().len() ==> !same_name(
                (#[trigger] self.tables()[i]).name,
                (#[trigger] self.tables()[j]).name,
            )
        &&& forall|i: int, j: int|
            0 <= i < j < self.attached().len() ==> !same_name(
                #[trigger] self.attached()[i],
                #[trigger] self.attached()[j],
            )
    }

    /// Opens an empty store in memory.
    pub fn open() -> (out: Result<FederatedStore, Failure>)
        ensures
            match out {
                Ok(store) => {
                    &&& store.wf()
                    &&& store.tables().len() == 0
                    &&& store.attached().len() == 0
                    &&& store.accepted().len() == 0
                },
                Err(e) => engine_failure(e@),
            },
    {
        match engine_open() {
            Ok(conn) => Ok(
                FederatedStore {
                    conn,
                    tables: Vec::new(),
                    attached: Vec::new(),
                    accepted: Ghost(Seq::empty()),
                },
            ),
            Err(e) => Err(Failure::ExecutionError(engine_complaint(&e))),
        }
    }

    /// The records of the tables that were loaded, in the order of loading.
    pub fn records(&self) -> (records: &Vec<TableRecord>)
        ensures
            records.deep_view() == self.tables(),
    {
        &self.tables
    }

    /// The namespaces of the attached databases, in the order of attaching.
    pub fn namespaces(&self) -> (names: &Vec<String>)
        ensures
            names.deep_view() == self.attached(),
    {
        &self.attached
    }

    /// The connection to the engine that keeps the store.
    pub closed spec fn engine(&self) -> rusqlite::Connection {
        self.conn
    }

    /// Gives up the store for the connection to the engine that kept it, for
    /// what only the engine can do with it. The store can no longer be asked
    /// anything then.
    pub fn into_connection(self) -> (conn: rusqlite::Connection)
        ensures
            conn == self.engine(),
    {
        self.conn
    }

    /// Whether a table of this name was loaded.
    pub fn has_table(&self, name: &str) -> (found: bool)
        ensures
            found == names_table(self.tables(), name@),
    {
        let mut i: usize = 0;
        while i < self.tables.len()
            invariant
                i <= self.tables.len(),
                forall|k: int| 0 <= k < i ==> !same_name((#[trigger] self.tables()[k]).name, name@),
            decreases self.tables.len() - i,
        {
            if names_match(self.tables[i].name.as_str(), name) {
                assert(same_name(self.tables()[i as int].name, name@));
                return true;
            }
            i += 1;
        }
        false
    }

    /// Whether a database was attached under this namespace.
    pub fn has_namespace(&self, name: &str) -> (found: bool)
        ensures
            found == names_namespace(self.attached(), name@),
    {
        let mut i: usize = 0;
        while i < self.attached.len()
            invariant
                i <= self.attached.len(),
                forall|k: int| 0 <= k < i ==> !same_name(#[trigger] self.attached()[k], name@),
            decreases self.attached.len() - i,
        {
            if names_match(self.attached[i].as_str(), name) {
                assert(same_name(self.attached()[i as int], name@));
                return true;
            }
            i += 1;
        }
        false
    }

    /// Hands one statement to the engine. The statement is on record exactly
    /// if the engine accepted it.
    fn run(&mut self, sql: &String, params: &Vec<SqlValue>) -> (out: Result<(), Failure>)
        requires
            forall|i: int| 0 <= i < params.len() ==> is_bindable(#[trigger] params@[i]@),
        ensures
            final(self).engine() == old(self).engine(),
            final(self).tables() == old(self).tables(),
            final(self).attached() == old(self).attached(),
            match out {
                Ok(()) => final(self).accepted() == old(self).accepted().push(
                    StatementView { sql: sql@, params: params.deep_view() },
                ),
                Err(e) => engine_failure(e@) && final(self).accepted() == old(self).accepted(),
            },
    {
        match engine_execute(&self.conn, sql.as_str(), params) {
            Ok(_) => {
                self.accepted = Ghost(
                    self.accepted@.push(StatementView { sql: sql@, params: params.deep_view() }),
                );
                Ok(())
            },
            Err(e) => Err(Failure::ExecutionError(engine_complaint(&e))),
        }
    }

    /// Attaches the database file at `path`, read-only for this library,
    /// under `namespace`, if the schema of the database is UTF-8; what
    /// happens is what [`attach_result`] says.
    pub fn attach(&mut self, path: &str, namespace: &str) -> (out: Result<(), Failure>)
        requires
            old(self).wf(),
        ensures
            final(self).wf(),
            final(self).engine() == old(self).engine(),
            attach_result(old(self).state(), final(self).state(), path@, namespace@, failed(out)),
    {
        if self.has_namespace(namespace) {
            return Err(Failure::DuplicateTable(namespace.to_owned()));
        }
        let sql = attach_sql(path, namespace);
        let none: Vec<SqlValue> = Vec::new();
        assert(none.deep_view() =~= Seq::empty());
        match self.run(&sql, &none) {
            Ok(()) => {},
            Err(e) => {
                return Err(e);
            },
        }
        let ghost attached = self.state();
        assert(attached.accepted == old(self).state().accepted.push(attach_statement(path@, namespace@)));
        let probe = schema_sql(namespace);
        let refusal = match self.query(probe.as_str()) {
            Ok(schema) => {
                if all_text(&schema) {
                    let ghost before = self.attached.deep_view();
                    self.attached.push(namespace.to_owned());
                    assert(self.attached.deep_view() =~= before.push(namespace@));
                    assert(answers(schema_text(namespace@), schema@) && is_text(schema@));
                    return Ok(());
                }
                assert(answers(schema_text(namespace@), schema@) && !is_text(schema@));
                Failure::SchemaError("the schema of the database is not UTF-8".to_owned())
            },
            Err(e) => e,
        };
        let detach = detach_sql(namespace);
        match self.run(&detach, &none) {
            Ok(()) => {
                assert(self.state().accepted == attached.accepted.push(detach_statement(namespace@)));
            },
            Err(_) => {
                assert(self.state().accepted == attached.accepted);
            },
        }
        assert(self.state().accepted != old(self).state().accepted) by {
            assert(attached.accepted.len() == old(self).state().accepted.len() + 1);
        }
        Err(refusal)
    }

    /// Creates the table `table` with the columns of `frame` and inserts
    /// every row of `frame`, in order.
    ///
    /// What happens is what [`frame_result`] says.
    #[verifier::loop_isolation(false)]
    pub fn load_frame(&mut self, table: &str, frame: &Frame) -> (out: Result<(), Failure>)
        requires
            old(self).wf(),
            frame.wf(),
        ensures
            final(self).wf(),
            final(self).engine() == old(self).engine(),
            frame_result(old(self).state(), final(self).state(), table@, frame@, failed(out)),
    {
        if self.has_table(table) {
            return Err(Failure::DuplicateTable(table.to_owned()));
        }
        if frame.columns.len() == 0 {
            return Err(Failure::SchemaError("a table needs at least one column".to_owned()));
        }
        let ghost all = load_statements(table@, frame@);
        let ghost start = self.accepted();
        let create = create_table_sql(table, &frame.columns);
        let none: Vec<SqlValue> = Vec::new();
        match self.run(&create, &none) {
            Ok(()) => {},
            Err(e) => {
                assert(start =~= start + all.take(0));
                return Err(e);
            },
        }
        assert(none.deep_view() =~= Seq::empty());
        let insert = insert_sql(table, frame.columns.len());
        let mut r: usize = 0;
        while r < frame.rows.len()
            invariant
                r <= frame.rows.len(),
                frame.wf(),
                all == load_statements(table@, frame@),
                insert@ == insert_text(table@, frame@.columns.len()),
                self.engine() == old(self).engine(),
                self.tables() == old(self).tables(),
                self.attached() == old(self).attached(),
                self.accepted() == start + all.take(r + 1),
            decreases frame.rows.len() - r,
        {
            let row = &frame.rows[r];
            assert(frame@.rows[r as int] == row.deep_view());
            assert(row.len() == frame.columns.len());
            let mut params: Vec<SqlValue> = Vec::new();
            let mut c: usize = 0;
            while c < row.len()
                invariant
                    c <= row.len(),
                    params.len() == c,
                    forall|k: int|
                        0 <= k < c ==> (#[trigger] params@[k])@ == bound(
                            row@[k]@,
                            storage_of(frame.columns@[k]@.inferred),
                        ),
                    forall|k: int| 0 <= k < c ==> is_bindable(#[trigger] params@[k]@),
                decreases row.len() - c,
            {
                params.push(bind(&row[c], storage_class(frame.columns[c].inferred)));
                c += 1;
            }
            proof {
                assert(params.deep_view() =~= insert_statement(table@, frame@.columns, frame@.rows[r as int]).params);
            }
            match self.run(&insert, &params) {
                Ok(()) => {},
                Err(e) => {
                    return Err(e);
                },
            }
            r += 1;
        }
        let ghost before = self.tables.deep_view();
        self.tables.push(
            TableRecord { name: table.to_owned(), columns: copy_columns(&frame.columns), rows: frame.rows.len() },
        );
        proof {
            assert(all.take(frame.rows.len() + 1) =~= all);
            assert(self.tables.deep_view() =~= before.push(record_of(table@, frame@)));
            assert(self.tables()[before.len() as int].name == table@);
            assert(same_name(table@, table@));
            assert(names_table(self.tables(), table@));
        }
        Ok(())
    }

    /// Reads `data` as delimited text and loads it into a new table `table`;
    /// what happens is what [`delimited_result`] says.
    pub fn load_delimited(&mut self, table: &str, data: &[u8]) -> (out: Result<(), Failure>)
        requires
            old(self).wf(),
        ensures
            final(self).wf(),
            final(self).engine() == old(self).engine(),
            delimited_result(old(self).state(), final(self).state(), table@, data@, failed(out)),
    {
        match read_frame(data) {
            Ok(frame) => self.load_frame(table, &frame),
            Err(e) => Err(e),
        }
    }

    /// Runs a query and returns all of its result: the names of the columns,
    /// and every row in the order in which the engine gives it, with one cell
    /// for each column. Nothing of the statement is left open when this
    /// returns.
    ///
    /// A statement that gives no columns is no query: it is refused, and is
    /// not run. Whether a query runs, and which rows it gives, is up to the
    /// engine; what comes back is an answer to `sql` as [`answers`] says.
    pub fn query(&self, sql: &str) -> (out: Result<ResultSet, Failure>)
        ensures
            match out {
                Ok(rs) => answers(sql@, rs@),
                Err(e) => query_failure(e@),
            },
    {
        let mut stmt = match engine_prepare(&self.conn, sql) {
            Ok(stmt) => stmt,
            Err(e) => {
                return Err(Failure::ExecutionError(engine_complaint(&e)));
            },
        };
        let ghost compiled = stmt;
        let width = statement_width(&stmt);
        if width == 0 {
            return Err(Failure::ExecutionError("the statement gives no columns: it is no query".to_owned()));
        }
        let mut columns: Vec<String> = Vec::new();
        let mut c: usize = 0;
        while c < width
            invariant
                c <= width,
                stmt == compiled,
                width == statement_columns(compiled).len(),
                columns.len() == c,
                forall|k: int| 0 <= k < c ==> (#[trigger] columns@[k])@ == statement_columns(compiled)[k],
            decreases width - c,
        {
            match statement_column(&stmt, c) {
                Ok(name) => columns.push(name),
                Err(e) => {
                    return Err(Failure::ExecutionError(engine_complaint(&e)));
                },
            }
            c += 1;
        }
        assert(columns.deep_view() =~= statement_columns(compiled));
        assert(heads(sql@, columns.deep_view()));
        let mut cursor = match statement_rows(&mut stmt) {
            Ok(cursor) => cursor,
            Err(e) => {
                return Err(Failure::ExecutionError(engine_complaint(&e)));
            },
        };
        let mut rows: Vec<Vec<Cell>> = Vec::new();
        let mut done: bool = false;
        assert(rows.deep_view() =~= taken(cursor_view(cursor).given, width as nat));
        while !done && rows.len() < usize::MAX
            invariant
                columns.len() == width,
                heads(sql@, columns.deep_view()),
                cursor_view(cursor).source == sql@,
                done == cursor_view(cursor).ended,
                forall|r: int| 0 <= r < rows.len() ==> (#[trigger] rows@[r]).len() == width,
                rows.deep_view() == taken(cursor_view(cursor).given, width as nat),
            decreases usize::MAX - rows.len() + if done { 0int } else { 1int },
        {
            let ghost before = cursor_view(cursor);
            match rows_next(&mut cursor) {
                Ok(Some(row)) => {
                    let mut cells: Vec<Cell> = Vec::new();
                    let mut c: usize = 0;
                    while c < width
                        invariant
                            c <= width,
                            cells.len() == c,
                            forall|k: int| 0 <= k < c ==> (#[trigger] cells@[k])@ == row_cells(*row)[k],
                        decreases width - c,
                    {
                        match row_cell(row, c) {
                            Ok(cell) => cells.push(cell),
                            Err(e) => {
                                return Err(Failure::ExecutionError(engine_complaint(&e)));
                            },
                        }
                        c += 1;
                    }
                    assert(cells.deep_view() =~= first_cells(row_cells(*row), width as nat));
                    let ghost held = rows.deep_view();
                    rows.push(cells);
                    assert(rows.deep_view() =~= held.push(first_cells(row_cells(*row), width as nat)));
                    assert(rows.deep_view() =~= taken(before.given.push(row_cells(*row)), width as nat));
                },
                Ok(None) => {
                    done = true;
                },
                Err(e) => {
                    return Err(Failure::ExecutionError(engine_complaint(&e)));
                },
            }
        }
        if !done {
            return Err(Failure::ExecutionError("the query gives more rows than can be held".to_owned()));
        }
        let rs = ResultSet { columns, rows };
        assert(answers(sql@, rs@)) by {
            assert forall|r: int| 0 <= r < rs@.rows.len() implies (#[trigger] rs@.rows[r]).len()
                == rs@.columns.len() by {
                assert(rs@.rows[r] == rs.rows@[r].deep_view());
            }
            assert(gives(sql@, rs@.rows, rs@.columns.len())) by {
                assert(cursor_view(cursor).source == sql@ && cursor_view(cursor).ended);
            }
        }
        Ok(rs)
    }
}

} // verus!
