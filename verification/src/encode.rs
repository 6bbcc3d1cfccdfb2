//! Rendering a result set as text, one `String` for each output line.

use vstd::prelude::*;
use vstd::string::StrSliceExecFns;
use crate::result::{Cell, CellView, ResultSet, ResultSetView};
use crate::text::{
    chars_of, concat, concat_push, join, joined, padded, push_all, push_repeated, push_str, repeated,
    replace_char, replaced, same_text, string_of,
};

verus! {

/// The text encodings of a result set.
#[derive(Clone, Copy, Debug, PartialEq, Eq, Structural)]
pub enum OutputFormat {
    Table,
    Csv,
    Jsonl,
    Logfmt,
}

impl OutputFormat {
    /// The format that `name` stands for.
    pub open spec fn named(name: Seq<char>) -> Option<OutputFormat> {
        if name == "table"@ {
            Some(OutputFormat::Table)
        } else if name == "csv"@ {
            Some(OutputFormat::Csv)
        } else if name == "jsonl"@ {
            Some(OutputFormat::Jsonl)
        } else if name == "logfmt"@ {
            Some(OutputFormat::Logfmt)
        } else {
            None
        }
    }

    /// Reads a format's name; a name that stands for no format is rejected.
    pub fn from_name(name: &str) -> (format: Option<OutputFormat>)
        ensures
            format == Self::named(name@),
    {
        if same_text(name, "table") {
            Some(OutputFormat::Table)
        } else if same_text(name, "csv") {
            Some(OutputFormat::Csv)
        } else if same_text(name, "jsonl") {
            Some(OutputFormat::Jsonl)
        } else if same_text(name, "logfmt") {
            Some(OutputFormat::Logfmt)
        } else {
            None
        }
    }
}

// ---------------------------------------------------------------- csv

/// Comma-separated lines: the column names, then one line for each row.
/// Nothing is quoted or escaped.
pub open spec fn csv_lines(rs: ResultSetView) -> Seq<Seq<char>> {
    seq![joined(rs.columns, ","@)] + Seq::new(
        rs.rows.len(),
        |r: int| joined(rs.shown_row(r), ","@),
    )
}

/// Renders `rs` as comma-separated lines.
pub fn encode_csv(rs: &ResultSet) -> (lines: Vec<String>)
    ensures
        lines.deep_view() == csv_lines(rs@),
{
    let mut lines: Vec<String> = Vec::new();
    lines.push(join(&rs.columns, ","));
    let mut r: usize = 0;
    while r < rs.rows.len()
        invariant
            r <= rs.rows.len(),
            lines.len() == r + 1,
            lines@[0]@ == joined(rs@.columns, ","@),
            forall|k: int| 0 <= k < r ==> (#[trigger] lines@[k + 1])@ == joined(rs@.shown_row(k), ","@),
        decreases rs.rows.len() - r,
    {
        let texts = rs.shown_row(r);
        lines.push(join(&texts, ","));
        r += 1;
    }
    assert(lines.deep_view() =~= csv_lines(rs@)) by {
        assert forall|k: int| 0 <= k < lines.len() implies lines.deep_view()[k] == csv_lines(rs@)[k] by {
            if k > 0 {
                assert(lines@[(k - 1) + 1]@ == joined(rs@.shown_row(k - 1), ","@));
            }
        }
    }
    lines
}

/// Rendering one result set twice as comma-separated lines gives the same
/// lines, byte for byte.
pub proof fn csv_is_repeatable(rs: ResultSet, first: Vec<String>, second: Vec<String>)
    requires
        first.deep_view() == csv_lines(rs@),
        second.deep_view() == csv_lines(rs@),
    ensures
        first.len() == second.len(),
        forall|i: int| 0 <= i < first.len() ==> (#[trigger] first@[i])@ == second@[i]@,
        forall|i: int|
            0 <= i < first.len() ==> vstd::utf8::encode_utf8((#[trigger] first@[i])@) == vstd::utf8::encode_utf8(
                second@[i]@,
            ),
{
    assert(first.deep_view().len() == first.len());
    assert forall|i: int| 0 <= i < first.len() implies (#[trigger] first@[i])@ == second@[i]@ by {
        assert(first.deep_view()[i] == first@[i]@);
    }
}

// ------------------------------------------------------------- logfmt

/// One `key="value"` pair; a double quote inside the value gets a backslash
/// before it.
pub open spec fn logfmt_pair(key: Seq<char>, cell: CellView) -> Seq<char> {
    key + "=\""@ + replaced(cell.shown(), '"', "\\\""@) + "\""@
}

/// The number of cells of row `r` that have a column name.
pub open spec fn named_cells(rs: ResultSetView, r: int) -> nat {
    if rs.rows[r].len() <= rs.columns.len() {
        rs.rows[r].len()
    } else {
        rs.columns.len()
    }
}

/// The pairs of row `r`, with single spaces between them.
pub open spec fn logfmt_line(rs: ResultSetView, r: int) -> Seq<char> {
    joined(Seq::new(named_cells(rs, r), |c: int| logfmt_pair(rs.columns[c], rs.rows[r][c])), " "@)
}

/// One line of pairs for each row.
pub open spec fn logfmt_lines(rs: ResultSetView) -> Seq<Seq<char>> {
    Seq::new(rs.rows.len(), |r: int| logfmt_line(rs, r))
}

fn logfmt_pair_of(key: &str, cell: &Cell) -> (pair: String)
    ensures
        pair@ == logfmt_pair(key@, cell@),
{
    let mut out: Vec<char> = chars_of(key);
    push_str(&mut out, "=\"");
    let shown = cell.shown();
    let escaped = replace_char(shown.as_str(), '"', "\\\"");
    push_str(&mut out, escaped.as_str());
    push_str(&mut out, "\"");
    string_of(&out)
}

fn cells_with_names(rs: &ResultSet, r: usize) -> (n: usize)
    requires
        r < rs.rows.len(),
    ensures
        n == named_cells(rs@, r as int),
        n <= rs.columns.len(),
        n <= rs.rows@[r as int].len(),
{
    if rs.rows[r].len() <= rs.columns.len() {
        rs.rows[r].len()
    } else {
        rs.columns.len()
    }
}

/// Renders `rs` as lines of `key="value"` pairs.
pub fn encode_logfmt(rs: &ResultSet) -> (lines: Vec<String>)
    ensures
        lines.deep_view() == logfmt_lines(rs@),
{
    let mut lines: Vec<String> = Vec::new();
    let mut r: usize = 0;
    while r < rs.rows.len()
        invariant
            r <= rs.rows.len(),
            lines.len() == r,
            forall|k: int| 0 <= k < r ==> (#[trigger] lines@[k])@ == logfmt_line(rs@, k),
        decreases rs.rows.len() - r,
    {
        let n = cells_with_names(rs, r);
        let mut pairs: Vec<String> = Vec::new();
        let mut c: usize = 0;
        while c < n
            invariant
                c <= n,
                r < rs.rows.len(),
                n <= rs.columns.len(),
                n <= rs.rows@[r as int].len(),
                pairs.len() == c,
                forall|k: int| 0 <= k < c ==> (#[trigger] pairs@[k])@ == logfmt_pair(
                    rs@.columns[k],
                    rs@.rows[r as int][k],
                ),
            decreases n - c,
        {
            pairs.push(logfmt_pair_of(rs.columns[c].as_str(), &rs.rows[r][c]));
            c += 1;
        }
        assert(pairs.deep_view() =~= Seq::new(
            named_cells(rs@, r as int),
            |c: int| logfmt_pair(rs@.columns[c], rs@.rows[r as int][c]),
        ));
        lines.push(join(&pairs, " "));
        r += 1;
    }
    lines
}

// -------------------------------------------------------------- table

/// The larger of two lengths.
pub open spec fn longer(a: nat, b: nat) -> nat {
    if a >= b {
        a
    } else {
        b
    }
}

/// The width of column `c` over the header and the first `upto` rows: the
/// largest number of characters among them.
pub open spec fn width_over(rs: ResultSetView, c: int, upto: nat) -> nat
    decreases upto,
{
    if upto == 0 {
        rs.columns[c].len()
    } else {
        longer(width_over(rs, c, (upto - 1) as nat), rs.rows[upto - 1][c].shown().len())
    }
}

/// The width of each column: the largest number of characters among its name
/// and its cells as shown.
pub open spec fn column_widths(rs: ResultSetView) -> Seq<nat> {
    Seq::new(rs.columns.len(), |c: int| width_over(rs, c, rs.rows.len()))
}

/// One table line: every text padded with spaces to its column's width and
/// followed by two spaces.
pub open spec fn table_line(texts: Seq<Seq<char>>, widths: Seq<nat>) -> Seq<char> {
    concat(Seq::new(texts.len(), |c: int| padded(texts[c], widths[c]) + "  "@))
}

/// The line under the header: dashes under every column and under its gap.
pub open spec fn rule_line(widths: Seq<nat>) -> Seq<char> {
    concat(Seq::new(widths.len(), |c: int| repeated('-', widths[c] + 2)))
}

/// The table: `No results.` when there is no row; else the header, the rule
/// and one line for each row.
pub open spec fn table_lines(rs: ResultSetView) -> Seq<Seq<char>> {
    if rs.rows.len() == 0 {
        seq!["No results."@]
    } else {
        seq![table_line(rs.columns, column_widths(rs)), rule_line(column_widths(rs))] + Seq::new(
            rs.rows.len(),
            |r: int| table_line(rs.shown_row(r), column_widths(rs)),
        )
    }
}

/// A column is as wide as its name and as each of its cells, and as wide as
/// one of them.
pub proof fn width_is_largest(rs: ResultSetView, c: int, upto: nat)
    ensures
        rs.columns[c].len() <= width_over(rs, c, upto),
        forall|r: int| 0 <= r < upto ==> (#[trigger] rs.rows[r])[c].shown().len() <= width_over(rs, c, upto),
        width_over(rs, c, upto) == rs.columns[c].len() || exists|r: int|
            0 <= r < upto && width_over(rs, c, upto) == (#[trigger] rs.rows[r])[c].shown().len(),
    decreases upto,
{
    if upto > 0 {
        width_is_largest(rs, c, (upto - 1) as nat);
    }
}

/// The number of characters of a table line: the widths of all columns, and
/// two more for each column.
pub open spec fn line_width(widths: Seq<nat>) -> nat
    decreases widths.len(),
{
    if widths.len() == 0 {
        0
    } else {
        line_width(widths.drop_last()) + widths.last() + 2
    }
}

proof fn padded_cells_fill(texts: Seq<Seq<char>>, widths: Seq<nat>, n: nat)
    requires
        n <= texts.len(),
        n <= widths.len(),
        forall|c: int| 0 <= c < n ==> (#[trigger] texts[c]).len() <= widths[c],
    ensures
        concat(Seq::new(n, |c: int| padded(texts[c], widths[c]) + "  "@)).len() == line_width(widths.take(n as int)),
    decreases n,
{
    let cell = |c: int| padded(texts[c], widths[c]) + "  "@;
    if n > 0 {
        reveal_strlit("  ");
        padded_cells_fill(texts, widths, (n - 1) as nat);
        assert(Seq::new(n, cell).drop_last() =~= Seq::new((n - 1) as nat, cell));
        assert(widths.take(n as int).drop_last() =~= widths.take(n - 1));
    }
}

proof fn dashes_fill(widths: Seq<nat>, n: nat)
    requires
        n <= widths.len(),
    ensures
        concat(Seq::new(n, |c: int| repeated('-', widths[c] + 2))).len() == line_width(widths.take(n as int)),
    decreases n,
{
    let dashes = |c: int| repeated('-', widths[c] + 2);
    if n > 0 {
        dashes_fill(widths, (n - 1) as nat);
        assert(Seq::new(n, dashes).drop_last() =~= Seq::new((n - 1) as nat, dashes));
        assert(widths.take(n as int).drop_last() =~= widths.take(n - 1));
    }
}

/// A table is aligned: its header, its rule and each of its rows have the
/// same number of characters.
pub proof fn table_is_aligned(rs: ResultSetView, i: int)
    requires
        rs.wf(),
        rs.rows.len() > 0,
        0 <= i < table_lines(rs).len(),
    ensures
        table_lines(rs).len() == rs.rows.len() + 2,
        table_lines(rs)[i].len() == line_width(column_widths(rs)),
{
    let widths = column_widths(rs);
    assert(widths.take(widths.len() as int) =~= widths);
    if i == 0 {
        assert forall|c: int| 0 <= c < rs.columns.len() implies (#[trigger] rs.columns[c]).len() <= widths[c] by {
            width_is_largest(rs, c, rs.rows.len());
        }
        padded_cells_fill(rs.columns, widths, rs.columns.len());
    } else if i == 1 {
        dashes_fill(widths, widths.len());
    } else {
        let r = i - 2;
        let texts = rs.shown_row(r);
        assert forall|c: int| 0 <= c < texts.len() implies (#[trigger] texts[c]).len() <= widths[c] by {
            width_is_largest(rs, c, rs.rows.len());
        }
        padded_cells_fill(texts, widths, texts.len());
    }
}

/// Comma-separated lines are one more than the rows; lines of pairs are as
/// many as the rows.
pub proof fn one_line_for_each_row(rs: ResultSetView)
    ensures
        csv_lines(rs).len() == rs.rows.len() + 1,
        logfmt_lines(rs).len() == rs.rows.len(),
{
}

fn widths_of(rs: &ResultSet, shown: &Vec<Vec<String>>) -> (widths: Vec<usize>)
    requires
        rs.wf(),
        shown.len() == rs.rows.len(),
        forall|r: int| 0 <= r < shown.len() ==> (#[trigger] shown@[r]).deep_view() == rs@.shown_row(r),
    ensures
        widths.len() == rs.columns.len(),
        forall|c: int| 0 <= c < widths.len() ==> widths@[c] == #[trigger] column_widths(rs@)[c],
{
    let mut widths: Vec<usize> = Vec::new();
    let mut c: usize = 0;
    while c < rs.columns.len()
        invariant
            c <= rs.columns.len(),
            rs.wf(),
            shown.len() == rs.rows.len(),
            forall|r: int| 0 <= r < shown.len() ==> (#[trigger] shown@[r]).deep_view() == rs@.shown_row(r),
            widths.len() == c,
            forall|k: int| 0 <= k < c ==> widths@[k] == width_over(rs@, k, rs@.rows.len()),
        decreases rs.columns.len() - c,
    {
        let mut w: usize = rs.columns[c].as_str().unicode_len();
        let mut r: usize = 0;
        while r < shown.len()
            invariant
                r <= shown.len(),
                c < rs.columns.len(),
                rs.wf(),
                shown.len() == rs.rows.len(),
                forall|r: int| 0 <= r < shown.len() ==> (#[trigger] shown@[r]).deep_view() == rs@.shown_row(r),
                w == width_over(rs@, c as int, r as nat),
            decreases shown.len() - r,
        {
            assert(shown@[r as int].deep_view()[c as int] == rs@.shown_row(r as int)[c as int]);
            let len: usize = shown[r][c].as_str().unicode_len();
            if len > w {
                w = len;
            }
            r += 1;
        }
        widths.push(w);
        c += 1;
    }
    widths
}

fn table_line_of(texts: &Vec<String>, widths: &Vec<usize>, Ghost(spec_widths): Ghost<Seq<nat>>) -> (line: String)
    requires
        texts.len() <= widths.len(),
        spec_widths.len() == widths.len(),
        forall|c: int| 0 <= c < widths.len() ==> widths@[c] == #[trigger] spec_widths[c],
    ensures
        line@ == table_line(texts.deep_view(), spec_widths),
{
    let mut out: Vec<char> = Vec::new();
    let ghost cell = |c: int| padded(texts.deep_view()[c], spec_widths[c]) + "  "@;
    let mut c: usize = 0;
    while c < texts.len()
        invariant
            c <= texts.len() <= widths.len(),
            spec_widths.len() == widths.len(),
            forall|c: int| 0 <= c < widths.len() ==> widths@[c] == #[trigger] spec_widths[c],
            cell == |c: int| padded(texts.deep_view()[c], spec_widths[c]) + "  "@,
            out@ == concat(Seq::new(c as nat, cell)),
        decreases texts.len() - c,
    {
        let text = chars_of(texts[c].as_str());
        push_all(&mut out, &text);
        if text.len() < widths[c] {
            push_repeated(&mut out, ' ', widths[c] - text.len());
        }
        push_str(&mut out, "  ");
        proof {
            concat_push(Seq::new(c as nat, cell), cell(c as int));
            assert(Seq::new(c as nat, cell).push(cell(c as int)) == Seq::new((c + 1) as nat, cell));
        }
        c += 1;
    }
    string_of(&out)
}

fn rule_line_of(widths: &Vec<usize>, Ghost(spec_widths): Ghost<Seq<nat>>) -> (line: String)
    requires
        spec_widths.len() == widths.len(),
        forall|c: int| 0 <= c < widths.len() ==> widths@[c] == #[trigger] spec_widths[c],
    ensures
        line@ == rule_line(spec_widths),
{
    let mut out: Vec<char> = Vec::new();
    let ghost dashes = |c: int| repeated('-', spec_widths[c] + 2);
    let mut c: usize = 0;
    while c < widths.len()
        invariant
            c <= widths.len(),
            spec_widths.len() == widths.len(),
            forall|c: int| 0 <= c < widths.len() ==> widths@[c] == #[trigger] spec_widths[c],
            dashes == |c: int| repeated('-', spec_widths[c] + 2),
            out@ == concat(Seq::new(c as nat, dashes)),
        decreases widths.len() - c,
    {
        push_repeated(&mut out, '-', widths[c]);
        push_repeated(&mut out, '-', 2);
        proof {
            concat_push(Seq::new(c as nat, dashes), dashes(c as int));
            assert(Seq::new(c as nat, dashes).push(dashes(c as int)) == Seq::new((c + 1) as nat, dashes));
        }
        c += 1;
    }
    string_of(&out)
}

/// Renders `rs` as an aligned table.
pub fn encode_table(rs: &ResultSet) -> (lines: Vec<String>)
    requires
        rs.wf(),
    ensures
        lines.deep_view() == table_lines(rs@),
{
    let mut lines: Vec<String> = Vec::new();
    if rs.rows.len() == 0 {
        lines.push("No results.".to_owned());
        return lines;
    }
    let mut shown: Vec<Vec<String>> = Vec::new();
    let mut r: usize = 0;
    while r < rs.rows.len()
        invariant
            r <= rs.rows.len(),
            shown.len() == r,
            forall|k: int| 0 <= k < r ==> (#[trigger] shown@[k]).deep_view() == rs@.shown_row(k),
        decreases rs.rows.len() - r,
    {
        shown.push(rs.shown_row(r));
        r += 1;
    }
    let widths = widths_of(rs, &shown);
    let ghost spec_widths = column_widths(rs@);
    lines.push(table_line_of(&rs.columns, &widths, Ghost(spec_widths)));
    lines.push(rule_line_of(&widths, Ghost(spec_widths)));
    let mut r: usize = 0;
    while r < shown.len()
        invariant
            r <= shown.len(),
            rs.wf(),
            shown.len() == rs.rows.len(),
            forall|k: int| 0 <= k < shown.len() ==> (#[trigger] shown@[k]).deep_view() == rs@.shown_row(k),
            spec_widths == column_widths(rs@),
            spec_widths.len() == widths.len(),
            widths.len() == rs.columns.len(),
            forall|c: int| 0 <= c < widths.len() ==> widths@[c] == #[trigger] spec_widths[c],
            lines.len() == r + 2,
            lines@[0]@ == table_line(rs@.columns, spec_widths),
            lines@[1]@ == rule_line(spec_widths),
            forall|k: int| 0 <= k < r ==> (#[trigger] lines@[k + 2])@ == table_line(rs@.shown_row(k), spec_widths),
        decreases shown.len() - r,
    {
        lines.push(table_line_of(&shown[r], &widths, Ghost(spec_widths)));
        r += 1;
    }
    assert(lines.deep_view() =~= table_lines(rs@)) by {
        assert forall|k: int| 0 <= k < lines.len() implies lines.deep_view()[k] == table_lines(rs@)[k] by {
            if k >= 2 {
                assert(lines@[(k - 2) + 2]@ == table_line(rs@.shown_row(k - 2), spec_widths));
            }
        }
    }
    lines
}

} // verus!
