//! The text of the statements that build the federated store.

use vstd::prelude::*;
use crate::schema::{class_name, storage_class, storage_of, Column, ColumnView};
use crate::text::{chars_of, join, joined, push_str, replace_char, replaced, string_of};

verus! {

/// A name or a text between single quotes, with every single quote in it
/// doubled, so that the engine reads all of it as the name or the text.
pub open spec fn quoted(name: Seq<char>) -> Seq<char> {
    "'"@ + replaced(name, '\'', "''"@) + "'"@
}

/// The definition of one column: its name, quoted, then the name of its
/// storage class.
pub open spec fn column_definition(column: ColumnView) -> Seq<char> {
    quoted(column.name) + " "@ + class_name(storage_of(column.inferred))
}

/// The statement that creates `table` with `columns`, in their order.
pub open spec fn create_table_text(table: Seq<char>, columns: Seq<ColumnView>) -> Seq<char> {
    "CREATE TABLE "@ + quoted(table) + " ("@ + joined(
        Seq::new(columns.len(), |c: int| column_definition(columns[c])),
        ", "@,
    ) + ")"@
}

/// The statement that inserts one row of `width` values into `table`: one
/// placeholder for each value.
pub open spec fn insert_text(table: Seq<char>, width: nat) -> Seq<char> {
    "INSERT INTO "@ + quoted(table) + " VALUES ("@ + joined(Seq::new(width, |c: int| "?"@), ", "@) + ")"@
}

/// The statement that attaches the database file at `path` under `namespace`.
pub open spec fn attach_text(path: Seq<char>, namespace: Seq<char>) -> Seq<char> {
    "ATTACH DATABASE "@ + quoted(path) + " AS "@ + quoted(namespace)
}

/// The statement that lets go of the database that is attached under
/// `namespace`.
pub open spec fn detach_text(namespace: Seq<char>) -> Seq<char> {
    "DETACH DATABASE "@ + quoted(namespace)
}

/// The question for the names and the defining texts of all that the
/// database under `namespace` holds.
pub open spec fn schema_text(namespace: Seq<char>) -> Seq<char> {
    "SELECT name, sql FROM "@ + quoted(namespace) + ".sqlite_master"@
}

/// The statement that asks for the columns of `table`.
pub open spec fn table_info_text(table: Seq<char>) -> Seq<char> {
    "PRAGMA table_info("@ + quoted(table) + ")"@
}

/// Appends `name`, quoted, to `out`.
fn push_quoted(out: &mut Vec<char>, name: &str)
    ensures
        final(out)@ == old(out)@ + quoted(name@),
{
    let doubled = replace_char(name, '\'', "''");
    push_str(out, "'");
    push_str(out, doubled.as_str());
    push_str(out, "'");
}

fn column_definition_of(column: &Column) -> (out: String)
    ensures
        out@ == column_definition(column@),
{
    let mut out: Vec<char> = Vec::new();
    push_quoted(&mut out, column.name.as_str());
    push_str(&mut out, " ");
    push_str(&mut out, storage_class(column.inferred).name());
    string_of(&out)
}

/// Writes the statement that creates `table` with `columns`.
pub fn create_table_sql(table: &str, columns: &Vec<Column>) -> (sql: String)
    ensures
        sql@ == create_table_text(table@, columns.deep_view()),
{
    let mut definitions: Vec<String> = Vec::new();
    let mut c: usize = 0;
    while c < columns.len()
        invariant
            c <= columns.len(),
            definitions.len() == c,
            forall|k: int| 0 <= k < c ==> (#[trigger] definitions@[k])@ == column_definition(columns@[k]@),
        decreases columns.len() - c,
    {
        definitions.push(column_definition_of(&columns[c]));
        c += 1;
    }
    assert(definitions.deep_view() =~= Seq::new(
        columns.deep_view().len(),
        |c: int| column_definition(columns.deep_view()[c]),
    ));
    let list = join(&definitions, ", ");
    let mut out: Vec<char> = chars_of("CREATE TABLE ");
    push_quoted(&mut out, table);
    push_str(&mut out, " (");
    push_str(&mut out, list.as_str());
    push_str(&mut out, ")");
    string_of(&out)
}

/// Writes the statement that inserts one row of `width` values into `table`.
pub fn insert_sql(table: &str, width: usize) -> (sql: String)
    ensures
        sql@ == insert_text(table@, width as nat),
{
    let mut marks: Vec<String> = Vec::new();
    let mut c: usize = 0;
    while c < width
        invariant
            c <= width,
            marks.len() == c,
            forall|k: int| 0 <= k < c ==> (#[trigger] marks@[k])@ == "?"@,
        decreases width - c,
    {
        marks.push("?".to_owned());
        c += 1;
    }
    assert(marks.deep_view() =~= Seq::new(width as nat, |c: int| "?"@));
    let list = join(&marks, ", ");
    let mut out: Vec<char> = chars_of("INSERT INTO ");
    push_quoted(&mut out, table);
    push_str(&mut out, " VALUES (");
    push_str(&mut out, list.as_str());
    push_str(&mut out, ")");
    string_of(&out)
}

/// Writes the statement that attaches the database file at `path`.
pub fn attach_sql(path: &str, namespace: &str) -> (sql: String)
    ensures
        sql@ == attach_text(path@, namespace@),
{
    let mut out: Vec<char> = chars_of("ATTACH DATABASE ");
    push_quoted(&mut out, path);
    push_str(&mut out, " AS ");
    push_quoted(&mut out, namespace);
    string_of(&out)
}

/// Writes the statement that lets go of the database under `namespace`.
pub fn detach_sql(namespace: &str) -> (sql: String)
    ensures
        sql@ == detach_text(namespace@),
{
    let mut out: Vec<char> = chars_of("DETACH DATABASE ");
    push_quoted(&mut out, namespace);
    string_of(&out)
}

/// Writes the question for the names and the defining texts of all that the
/// database under `namespace` holds.
pub fn schema_sql(namespace: &str) -> (sql: String)
    ensures
        sql@ == schema_text(namespace@),
{
    let mut out: Vec<char> = chars_of("SELECT name, sql FROM ");
    push_quoted(&mut out, namespace);
    push_str(&mut out, ".sqlite_master");
    string_of(&out)
}

/// Writes the statement that asks for the columns of `table`.
pub fn table_info_sql(table: &str) -> (sql: String)
    ensures
        sql@ == table_info_text(table@),
{
    let mut out: Vec<char> = chars_of("PRAGMA table_info(");
    push_quoted(&mut out, table);
    push_str(&mut out, ")");
    string_of(&out)
}

} // verus!
