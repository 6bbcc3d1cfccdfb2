//! Compiling a query and running it against the store.

use vstd::prelude::*;
use crate::encode::{csv_lines, encode_csv, encode_logfmt, encode_table, logfmt_lines, table_lines, OutputFormat};
use crate::failure::{Failure, FailureView};
use crate::json::{encode_jsonl, json_lines};
use crate::result::{ResultSet, ResultSetView};
use crate::store::{answers, query_failure, FederatedStore};
use crate::text::{chars_of, ends_with, has_suffix};

verus! {

/// The complaints of the query compiler. Opaque.
#[verifier::external_type_specification]
#[verifier::external_body]
pub struct ExErrorMessages(prql_compiler::ErrorMessages);

/// The SQL text that the compiler makes of a query under its default options;
/// `None` where it rejects the query.
pub uninterp spec fn compiled_sql(query: Seq<char>) -> Option<Seq<char>>;

/// The query that the compiler complains of.
pub uninterp spec fn complained_of(e: prql_compiler::ErrorMessages) -> Seq<char>;

/// The text of the compiler's complaints.
pub uninterp spec fn complaint_text(e: prql_compiler::ErrorMessages) -> Seq<char>;

/// Compiles a query to SQL.
///
/// Trusted: wraps `prql_compiler::compile` under `Options::default()`. States
/// that whether the compiler takes the query, and the SQL, depend on the
/// query text alone, as [`compiled_sql`] names them, and that complaints
/// that come back are about the query that was handed in.
#[verifier::external_body]
fn compile_text(query: &str) -> (out: Result<String, prql_compiler::ErrorMessages>)
    ensures
        match out {
            Ok(sql) => compiled_sql(query@) == Some(sql@),
            Err(e) => compiled_sql(query@) is None && complained_of(e) == query@,
        },
{
    prql_compiler::compile(query, &prql_compiler::Options::default())
}

/// The text of the compiler's complaints.
///
/// Trusted: wraps the `Display` of `prql_compiler::ErrorMessages`. The text
/// is the one that [`complaint_text`] names.
#[verifier::external_body]
fn compiler_complaint(e: &prql_compiler::ErrorMessages) -> (text: String)
    ensures
        text@ == complaint_text(*e),
{
    e.to_string()
}

/// Whether `e` is the failure to compile `query`: a `CompileError` with the
/// text of the compiler's complaints about that query.
pub open spec fn compile_failure(query: Seq<char>, e: FailureView) -> bool {
    e matches FailureView::CompileError(text) && exists|complaints: prql_compiler::ErrorMessages|
        #[trigger] complaint_text(complaints) == text && complained_of(complaints) == query
}

/// Compiles a query to SQL; a query that the compiler rejects is a
/// [`Failure::CompileError`] with the compiler's complaint.
pub fn compile_query(query: &str) -> (out: Result<String, Failure>)
    ensures
        match out {
            Ok(sql) => compiled_sql(query@) == Some(sql@),
            Err(e) => compile_failure(query@, e@) && compiled_sql(query@) is None,
        },
{
    match compile_text(query) {
        Ok(sql) => Ok(sql),
        Err(e) => Err(Failure::CompileError(compiler_complaint(&e))),
    }
}

/// Whether a query argument may name a file that holds the query: it ends in
/// `.prql`.
pub fn names_query_file(query: &str) -> (yes: bool)
    ensures
        yes == ends_with(query@, ".prql"@),
{
    let text = chars_of(query);
    let suffix = chars_of(".prql");
    has_suffix(&text, &suffix)
}

/// The lines of a result set in a format.
pub open spec fn encoded(format: OutputFormat, rs: ResultSetView) -> Seq<Seq<char>> {
    match format {
        OutputFormat::Table => table_lines(rs),
        OutputFormat::Csv => csv_lines(rs),
        OutputFormat::Jsonl => json_lines(rs),
        OutputFormat::Logfmt => logfmt_lines(rs),
    }
}

/// Renders a result set in a format, one `String` for each line.
pub fn encode(format: OutputFormat, rs: &ResultSet) -> (lines: Vec<String>)
    requires
        rs.wf(),
    ensures
        lines.deep_view() == encoded(format, rs@),
{
    match format {
        OutputFormat::Table => encode_table(rs),
        OutputFormat::Csv => encode_csv(rs),
        OutputFormat::Jsonl => encode_jsonl(rs),
        OutputFormat::Logfmt => encode_logfmt(rs),
    }
}

/// Whether `lines` are the lines in `format` of an answer of the engine to
/// `sql`.
pub open spec fn renders(sql: Seq<char>, format: OutputFormat, lines: Seq<Seq<char>>) -> bool {
    exists|rs: ResultSetView| #[trigger] answers(sql, rs) && lines == encoded(format, rs)
}

/// Compiles `query` and, unless only the SQL is asked for, runs it against
/// the store and renders the result.
///
/// A query that the compiler rejects is a [`Failure::CompileError`]. With
/// `show_sql` the compiled SQL is the only line. Else the engine decides: the
/// lines are those of its answer to the compiled SQL, in `format`, or the run
/// ends with an [`Failure::ExecutionError`].
pub fn run_query(store: &FederatedStore, query: &str, format: OutputFormat, show_sql: bool) -> (out: Result<
    Vec<String>,
    Failure,
>)
    ensures
        match compiled_sql(query@) {
            None => out matches Err(e) && compile_failure(query@, e@),
            Some(sql) => if show_sql {
                out matches Ok(lines) && lines.deep_view() == seq![sql]
            } else {
                match out {
                    Ok(lines) => renders(sql, format, lines.deep_view()),
                    Err(e) => query_failure(e@),
                }
            },
        },
{
    let sql = match compile_query(query) {
        Ok(sql) => sql,
        Err(e) => {
            return Err(e);
        },
    };
    if show_sql {
        let mut lines: Vec<String> = Vec::new();
        lines.push(sql);
        return Ok(lines);
    }
    match store.query(sql.as_str()) {
        Ok(rs) => {
            let lines = encode(format, &rs);
            assert(renders(sql@, format, lines.deep_view())) by {
                assert(answers(sql@, rs@) && lines.deep_view() == encoded(format, rs@));
            }
            Ok(lines)
        },
        Err(e) => Err(e),
    }
}

} // verus!
