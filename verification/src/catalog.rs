//! The schemas of the tables in the store, as the engine reports them, and
//! their listing as text.

use vstd::prelude::*;
use crate::failure::{Failure, FailureView};
use crate::result::{Cell, CellView, ResultSet, ResultSetView};
use crate::sql::{table_info_sql, table_info_text};
use crate::store::{answers, query_failure, FederatedStore};
use crate::text::{chars_of, push_str, string_of};

verus! {

/// A column as the engine declares it.
#[derive(Clone, Debug, PartialEq, Eq)]
pub struct ColumnListing {
    pub name: String,
    /// The declared type.
    pub declared: String,
}

/// The mathematical value of a [`ColumnListing`].
pub struct ColumnListingView {
    pub name: Seq<char>,
    pub declared: Seq<char>,
}

impl View for ColumnListing {
    type V = ColumnListingView;

    open spec fn view(&self) -> ColumnListingView {
        ColumnListingView { name: self.name@, declared: self.declared@ }
    }
}

impl DeepView for ColumnListing {
    type V = ColumnListingView;

    open spec fn deep_view(&self) -> ColumnListingView {
        self@
    }
}

/// A table as the engine declares it.
#[derive(Clone, Debug, PartialEq, Eq)]
pub struct TableListing {
    pub name: String,
    pub columns: Vec<ColumnListing>,
    /// The number of columns whose description could not be read.
    pub unreadable: usize,
}

/// The mathematical value of a [`TableListing`].
pub struct TableListingView {
    pub name: Seq<char>,
    pub columns: Seq<ColumnListingView>,
    pub unreadable: nat,
}

impl View for TableListing {
    type V = TableListingView;

    open spec fn view(&self) -> TableListingView {
        TableListingView {
            name: self.name@,
            columns: self.columns.deep_view(),
            unreadable: self.unreadable as nat,
        }
    }
}

impl DeepView for TableListing {
    type V = TableListingView;

    open spec fn deep_view(&self) -> TableListingView {
        self@
    }
}

/// The query for the names of the tables of the store, in the order of the
/// names; the engine's own tables are left out.
pub open spec fn table_names_text() -> Seq<char> {
    "SELECT name FROM sqlite_master WHERE type='table' AND name NOT LIKE 'sqlite_%' ORDER BY name;"@
}

/// Writes the query for the names of the tables of the store.
pub fn table_names_sql() -> (sql: &'static str)
    ensures
        sql@ == table_names_text(),
{
    "SELECT name FROM sqlite_master WHERE type='table' AND name NOT LIKE 'sqlite_%' ORDER BY name;"
}

/// The name in row `r` of the answer to the query for the table names: the
/// text in the first cell.
pub open spec fn name_in(rs: ResultSetView, r: int) -> Option<Seq<char>> {
    if rs.rows[r].len() > 0 && rs.rows[r][0] is Text {
        Some(rs.rows[r][0]->Text_0)
    } else {
        None
    }
}

/// The column that a row of the engine's description of a table describes:
/// its second cell holds the name and its third the declared type, both as
/// text. `None` for a row of any other shape.
pub open spec fn column_in(row: Seq<CellView>) -> Option<ColumnListingView> {
    if row.len() > 2 && row[1] is Text && row[2] is Text {
        Some(ColumnListingView { name: row[1]->Text_0, declared: row[2]->Text_0 })
    } else {
        None
    }
}

/// The columns that the first `n` rows describe, in order.
pub open spec fn columns_in(rows: Seq<Seq<CellView>>, n: nat) -> Seq<ColumnListingView>
    decreases n,
{
    if n == 0 {
        Seq::empty()
    } else {
        match column_in(rows[n - 1]) {
            Some(c) => columns_in(rows, (n - 1) as nat).push(c),
            None => columns_in(rows, (n - 1) as nat),
        }
    }
}

/// The number of rows among the first `n` that describe no column.
pub open spec fn unreadable_in(rows: Seq<Seq<CellView>>, n: nat) -> nat
    decreases n,
{
    if n == 0 {
        0
    } else {
        unreadable_in(rows, (n - 1) as nat) + if column_in(rows[n - 1]) is None {
            1nat
        } else {
            0nat
        }
    }
}

/// The complaint about a table without a name.
pub open spec fn nameless_text() -> Seq<char> {
    "a table without a name"@
}

/// Whether `e` is a failure to list the tables: a failure to run one of the
/// queries, or an `ExecutionError` for a table without a name.
pub open spec fn listing_failure(e: FailureView) -> bool {
    query_failure(e) || e == FailureView::ExecutionError(nameless_text())
}

/// Takes the names of the tables from the answer to the query for them. A row
/// without a text in its first cell is an [`Failure::ExecutionError`].
pub fn table_names_from(rs: &ResultSet) -> (out: Result<Vec<String>, Failure>)
    ensures
        match out {
            Ok(names) => {
                &&& names.len() == rs@.rows.len()
                &&& forall|r: int| 0 <= r < names.len() ==> name_in(rs@, r) == Some(#[trigger] names@[r]@)
            },
            Err(e) => e@ == FailureView::ExecutionError(nameless_text()) && exists|r: int|
                0 <= r < rs@.rows.len() && #[trigger] name_in(rs@, r) is None,
        },
{
    let mut names: Vec<String> = Vec::new();
    let mut r: usize = 0;
    while r < rs.rows.len()
        invariant
            r <= rs.rows.len(),
            names.len() == r,
            forall|k: int| 0 <= k < r ==> name_in(rs@, k) == Some(#[trigger] names@[k]@),
        decreases rs.rows.len() - r,
    {
        let row = &rs.rows[r];
        if row.len() == 0 {
            assert(name_in(rs@, r as int) is None);
            return Err(Failure::ExecutionError("a table without a name".to_owned()));
        }
        match &row[0] {
            Cell::Text(name) => {
                names.push(name.clone());
            },
            _ => {
                return Err(Failure::ExecutionError("a table without a name".to_owned()));
            },
        }
        r += 1;
    }
    Ok(names)
}

/// Takes the columns of a table from the engine's description of it: one
/// column for each row that describes one, in order, and the number of the
/// rows that describe none.
pub fn columns_from(rs: &ResultSet) -> (out: (Vec<ColumnListing>, usize))
    ensures
        out.0.deep_view() == columns_in(rs@.rows, rs@.rows.len()),
        out.1 == unreadable_in(rs@.rows, rs@.rows.len()),
{
    let mut columns: Vec<ColumnListing> = Vec::new();
    let mut unreadable: usize = 0;
    let mut r: usize = 0;
    while r < rs.rows.len()
        invariant
            r <= rs.rows.len(),
            columns.deep_view() == columns_in(rs@.rows, r as nat),
            unreadable == unreadable_in(rs@.rows, r as nat),
            unreadable <= r,
        decreases rs.rows.len() - r,
    {
        let row = &rs.rows[r];
        let mut found: bool = false;
        if row.len() > 2 {
            match (&row[1], &row[2]) {
                (Cell::Text(name), Cell::Text(declared)) => {
                    columns.push(ColumnListing { name: name.clone(), declared: declared.clone() });
                    found = true;
                },
                _ => {},
            }
        }
        if !found {
            unreadable += 1;
        }
        r += 1;
    }
    (columns, unreadable)
}

/// Whether `table` is what the engine says of one table: there is an answer
/// to the question for the columns of the table of that name, and the columns
/// and the count of the unreadable ones are those that the answer describes.
pub open spec fn describes(table: TableListingView) -> bool {
    exists|info: ResultSetView|
        {
            &&& #[trigger] answers(table_info_text(table.name), info)
            &&& table.columns == columns_in(info.rows, info.rows.len())
            &&& table.unreadable == unreadable_in(info.rows, info.rows.len())
        }
}

/// Whether `tables` is what the engine says of its tables: there is an answer
/// to the question for the table names, `tables` has the names of that answer
/// in their order, and each of `tables` is what the engine says of the table
/// of its name.
pub open spec fn listed(tables: Seq<TableListingView>) -> bool {
    &&& exists|names: ResultSetView|
        {
            &&& #[trigger] answers(table_names_text(), names)
            &&& names.rows.len() == tables.len()
            &&& forall|i: int| 0 <= i < tables.len() ==> name_in(names, i) == Some((#[trigger] tables[i]).name)
        }
    &&& forall|i: int| 0 <= i < tables.len() ==> describes(#[trigger] tables[i])
}

impl FederatedStore {
    /// Asks the engine for the names of its tables, in the order of the
    /// names, and then for the columns of each of them.
    ///
    /// Whether the engine answers is up to the engine; the listing is made of
    /// its answers as [`listed`] says.
    pub fn list_tables(&self) -> (out: Result<Vec<TableListing>, Failure>)
        ensures
            match out {
                Ok(tables) => listed(tables.deep_view()),
                Err(e) => listing_failure(e@),
            },
    {
        let answer = match self.query(table_names_sql()) {
            Ok(answer) => answer,
            Err(e) => {
                return Err(e);
            },
        };
        let names = match table_names_from(&answer) {
            Ok(names) => names,
            Err(e) => {
                return Err(e);
            },
        };
        let mut tables: Vec<TableListing> = Vec::new();
        let mut i: usize = 0;
        while i < names.len()
            invariant
                i <= names.len(),
                tables.len() == i,
                forall|k: int| 0 <= k < i ==> (#[trigger] tables@[k])@.name == names@[k]@,
                forall|k: int| 0 <= k < i ==> describes((#[trigger] tables@[k])@),
            decreases names.len() - i,
        {
            let sql = table_info_sql(names[i].as_str());
            match self.query(sql.as_str()) {
                Ok(info) => {
                    let (columns, unreadable) = columns_from(&info);
                    let table = TableListing { name: names[i].clone(), columns, unreadable };
                    assert(describes(table@)) by {
                        assert(answers(table_info_text(table@.name), info@));
                    }
                    tables.push(table);
                },
                Err(e) => {
                    return Err(e);
                },
            }
            i += 1;
        }
        assert(listed(tables.deep_view())) by {
            assert(answers(table_names_text(), answer@));
            assert forall|k: int| 0 <= k < tables.deep_view().len() implies name_in(answer@, k) == Some(
                (#[trigger] tables.deep_view()[k]).name,
            ) && describes(tables.deep_view()[k]) by {
                assert(tables.deep_view()[k] == tables@[k]@);
            }
        }
        Ok(tables)
    }
}

/// The line for one column: two spaces, the name, and the declared type in
/// parentheses.
pub open spec fn column_line(column: ColumnListingView) -> Seq<char> {
    "  "@ + column.name + " ("@ + column.declared + ")"@
}

/// The lines for one table: its name, the heading of its columns, one line
/// for each column (or one that says that there is none), and an empty line.
pub open spec fn listing_lines(table: TableListingView) -> Seq<Seq<char>> {
    seq!["Table: "@ + table.name, "Columns:"@] + if table.columns.len() == 0 {
        seq!["  (No columns found or error reading columns)"@]
    } else {
        Seq::new(table.columns.len(), |c: int| column_line(table.columns[c]))
    } + seq![Seq::<char>::empty()]
}

/// The lines for the first `n` tables, one table after the other.
pub open spec fn listings(tables: Seq<TableListingView>, n: nat) -> Seq<Seq<char>>
    decreases n,
{
    if n == 0 {
        Seq::empty()
    } else {
        listings(tables, (n - 1) as nat) + listing_lines(tables[n - 1])
    }
}

/// The listing of the schemas: the lines of every table in order; a single
/// line where there is no table.
pub open spec fn schema_lines(tables: Seq<TableListingView>) -> Seq<Seq<char>> {
    if tables.len() == 0 {
        seq!["No tables found in the database."@]
    } else {
        listings(tables, tables.len())
    }
}

fn column_line_of(column: &ColumnListing) -> (line: String)
    ensures
        line@ == column_line(column@),
{
    let mut out: Vec<char> = chars_of("  ");
    push_str(&mut out, column.name.as_str());
    push_str(&mut out, " (");
    push_str(&mut out, column.declared.as_str());
    push_str(&mut out, ")");
    string_of(&out)
}

fn push_listing(lines: &mut Vec<String>, table: &TableListing)
    ensures
        final(lines).deep_view() == old(lines).deep_view() + listing_lines(table@),
{
    let ghost start = lines.deep_view();
    let mut head: Vec<char> = chars_of("Table: ");
    push_str(&mut head, table.name.as_str());
    lines.push(string_of(&head));
    lines.push("Columns:".to_owned());
    let ghost opening = seq!["Table: "@ + table@.name, "Columns:"@];
    if table.columns.len() == 0 {
        lines.push("  (No columns found or error reading columns)".to_owned());
    } else {
        let mut c: usize = 0;
        while c < table.columns.len()
            invariant
                c <= table.columns.len(),
                lines.deep_view() == start + opening + Seq::new(c as nat, |k: int| column_line(table@.columns[k])),
            decreases table.columns.len() - c,
        {
            let ghost before = lines.deep_view();
            lines.push(column_line_of(&table.columns[c]));
            assert(lines.deep_view() =~= before.push(column_line(table@.columns[c as int])));
            assert(lines.deep_view() =~= start + opening + Seq::new(
                (c + 1) as nat,
                |k: int| column_line(table@.columns[k]),
            ));
            c += 1;
        }
    }
    let ghost before = lines.deep_view();
    lines.push(String::new());
    assert(lines.deep_view() =~= before.push(Seq::<char>::empty()));
}

/// Lists the schemas of `tables` as lines of text.
pub fn render_schemas(tables: &Vec<TableListing>) -> (lines: Vec<String>)
    ensures
        lines.deep_view() == schema_lines(tables.deep_view()),
{
    let mut lines: Vec<String> = Vec::new();
    if tables.len() == 0 {
        lines.push("No tables found in the database.".to_owned());
        return lines;
    }
    let mut i: usize = 0;
    while i < tables.len()
        invariant
            i <= tables.len(),
            lines.deep_view() == listings(tables.deep_view(), i as nat),
        decreases tables.len() - i,
    {
        push_listing(&mut lines, &tables[i]);
        i += 1;
    }
    lines
}

/// The warning about a column of `table` whose description could not be
/// read.
pub open spec fn unreadable_warning(table: Seq<char>) -> Seq<char> {
    "Error reading schema for column in table "@ + table
}

/// The warnings for the first `n` tables: for each table as many as it has
/// columns whose description could not be read.
pub open spec fn warnings_of(tables: Seq<TableListingView>, n: nat) -> Seq<Seq<char>>
    decreases n,
{
    if n == 0 {
        Seq::empty()
    } else {
        warnings_of(tables, (n - 1) as nat) + Seq::new(
            tables[n - 1].unreadable,
            |k: int| unreadable_warning(tables[n - 1].name),
        )
    }
}

/// Writes the warnings about the columns whose description could not be read.
pub fn schema_warnings(tables: &Vec<TableListing>) -> (warnings: Vec<String>)
    ensures
        warnings.deep_view() == warnings_of(tables.deep_view(), tables.len() as nat),
{
    let mut warnings: Vec<String> = Vec::new();
    let mut i: usize = 0;
    while i < tables.len()
        invariant
            i <= tables.len(),
            warnings.deep_view() == warnings_of(tables.deep_view(), i as nat),
        decreases tables.len() - i,
    {
        let ghost before = warnings.deep_view();
        let ghost line = unreadable_warning(tables@[i as int]@.name);
        let mut k: usize = 0;
        while k < tables[i].unreadable
            invariant
                i < tables.len(),
                k <= tables@[i as int].unreadable,
                line == unreadable_warning(tables@[i as int]@.name),
                warnings.deep_view() == before + Seq::new(k as nat, |j: int| line),
            decreases tables@[i as int].unreadable - k,
        {
            let ghost sofar = warnings.deep_view();
            let mut text: Vec<char> = chars_of("Error reading schema for column in table ");
            push_str(&mut text, tables[i].name.as_str());
            warnings.push(string_of(&text));
            assert(warnings.deep_view() =~= sofar.push(line));
            k += 1;
        }
        assert(warnings.deep_view() =~= warnings_of(tables.deep_view(), (i + 1) as nat)) by {
            assert(Seq::new(tables@[i as int].unreadable as nat, |j: int| line) =~= Seq::new(
                tables.deep_view()[i as int].unreadable,
                |k: int| unreadable_warning(tables.deep_view()[i as int].name),
            ));
        }
        i += 1;
    }
    warnings
}

/// A listing of schemas: the lines of the listing, and the warnings that go
/// with it.
#[derive(Clone, Debug, PartialEq, Eq)]
pub struct SchemaReport {
    pub lines: Vec<String>,
    pub warnings: Vec<String>,
}

/// Lists the schemas of the tables in the store, as the engine reports them,
/// with the warnings about what could not be read. A store without tables
/// gets the single line that says so.
pub fn show_schemas(store: &FederatedStore) -> (out: Result<SchemaReport, Failure>)
    ensures
        match out {
            Ok(shown) => exists|tables: Seq<TableListingView>|
                {
                    &&& #[trigger] listed(tables)
                    &&& shown.lines.deep_view() == schema_lines(tables)
                    &&& shown.warnings.deep_view() == warnings_of(tables, tables.len())
                },
            Err(e) => listing_failure(e@),
        },
{
    match store.list_tables() {
        Ok(tables) => {
            let lines = render_schemas(&tables);
            let warnings = schema_warnings(&tables);
            assert(listed(tables.deep_view()));
            Ok(SchemaReport { lines, warnings })
        },
        Err(e) => Err(e),
    }
}

} // verus!
