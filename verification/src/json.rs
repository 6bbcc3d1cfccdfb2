//! Rendering a result set as JSON lines: one object for each row.
//!
//! A cell is written by what its text looks like, not by its type: a text
//! that reads as a number is written as a number.

use vstd::prelude::*;
use crate::number::{decimal, decimal_chars, parse_integer, parsed_integer};
use crate::result::{Cell, CellView, ResultSet, ResultSetView};
use crate::text::{chars_of, join, joined, push_str, same_text, string_of};
use crate::encode::named_cells;

verus! {

/// The digit for a number below sixteen, with small letters above nine.
pub open spec fn hex_digit(n: int) -> char {
    if n == 0 {
        '0'
    } else if n == 1 {
        '1'
    } else if n == 2 {
        '2'
    } else if n == 3 {
        '3'
    } else if n == 4 {
        '4'
    } else if n == 5 {
        '5'
    } else if n == 6 {
        '6'
    } else if n == 7 {
        '7'
    } else if n == 8 {
        '8'
    } else if n == 9 {
        '9'
    } else if n == 10 {
        'a'
    } else if n == 11 {
        'b'
    } else if n == 12 {
        'c'
    } else if n == 13 {
        'd'
    } else if n == 14 {
        'e'
    } else {
        'f'
    }
}

/// One character as it stands inside a JSON string: a quote and a backslash
/// with a backslash before them; backspace, tab, line feed, form feed and
/// carriage return by their letter; every other character below the space by
/// its number in four hexadecimal digits; and every other character as it is.
pub open spec fn json_char(c: char) -> Seq<char> {
    if c == '"' {
        seq!['\\', '"']
    } else if c == '\\' {
        seq!['\\', '\\']
    } else if c == '\u{8}' {
        seq!['\\', 'b']
    } else if c == '\t' {
        seq!['\\', 't']
    } else if c == '\n' {
        seq!['\\', 'n']
    } else if c == '\u{c}' {
        seq!['\\', 'f']
    } else if c == '\r' {
        seq!['\\', 'r']
    } else if (c as u32) < 0x20 {
        seq!['\\', 'u', '0', '0', hex_digit((c as u32) as int / 16), hex_digit((c as u32) as int % 16)]
    } else {
        seq![c]
    }
}

/// The characters of `s` as they stand inside a JSON string.
pub open spec fn json_chars(s: Seq<char>) -> Seq<char>
    decreases s.len(),
{
    if s.len() == 0 {
        Seq::empty()
    } else {
        json_chars(s.drop_last()) + json_char(s.last())
    }
}

/// The JSON string literal for `s`: its characters as they stand inside a
/// JSON string, between quotes.
pub open spec fn json_string_text(s: Seq<char>) -> Seq<char> {
    seq!['"'] + json_chars(s) + seq!['"']
}

/// The JSON number for the finite real number that `s` denotes, as
/// `serde_json` writes it; `None` where `s` denotes no real number, or an
/// infinite one, or none at all.
pub uninterp spec fn json_real_text(s: Seq<char>) -> Option<Seq<char>>;

/// Writes `s` as a JSON string literal.
///
/// Trusted: wraps `serde_json::Value::String` and its `Display`, which prints
/// the compact JSON form of the string: the string between quotes, with the
/// escapes that [`json_char`] states.
#[verifier::external_body]
fn json_string(s: &str) -> (out: String)
    ensures
        out@ == json_string_text(s@),
{
    serde_json::Value::String(s.to_owned()).to_string()
}

/// Reads `s` as a real number and writes it as a JSON number.
///
/// Trusted: wraps `serde_json::Number::from_f64`, fed with what std's `parse`
/// makes of `s`, and the number's `Display`. A text that does not parse, and
/// a number that is not finite, give `None`. The result depends on `s` alone.
#[verifier::external_body]
fn json_real(s: &str) -> (out: Option<String>)
    ensures
        out.deep_view() == json_real_text(s@),
{
    s.parse().ok().and_then(serde_json::Number::from_f64).map(|n| n.to_string())
}

/// The JSON value for a text, given what the text reads as: a signed 64-bit
/// integer first, then a finite real number, then one of the literals `true`,
/// `false` and `null`; any other text is a JSON string.
pub open spec fn scalar_from(text: Seq<char>, as_real: Option<Seq<char>>, quoted: Seq<char>) -> Seq<
    char,
> {
    if let Some(n) = parsed_integer(text) {
        decimal(n)
    } else if let Some(number) = as_real {
        number
    } else if text == "true"@ || text == "false"@ || text == "null"@ {
        text
    } else {
        quoted
    }
}

/// The JSON value for a text.
pub open spec fn json_scalar(text: Seq<char>) -> Seq<char> {
    scalar_from(text, json_real_text(text), json_string_text(text))
}

/// The JSON value for a cell: `null` for a null cell, else the value for the
/// cell's text.
pub open spec fn json_value(cell: CellView) -> Seq<char> {
    match cell.text() {
        None => "null"@,
        Some(text) => json_scalar(text),
    }
}

/// One member of a row's object.
pub open spec fn json_member(key: Seq<char>, cell: CellView) -> Seq<char> {
    json_string_text(key) + ":"@ + json_value(cell)
}

/// The object for row `r`: its members in column order, with commas between
/// them, in braces.
pub open spec fn json_line(rs: ResultSetView, r: int) -> Seq<char> {
    "{"@ + joined(
        Seq::new(named_cells(rs, r), |c: int| json_member(rs.columns[c], rs.rows[r][c])),
        ","@,
    ) + "}"@
}

/// One object for each row.
pub open spec fn json_lines(rs: ResultSetView) -> Seq<Seq<char>> {
    Seq::new(rs.rows.len(), |r: int| json_line(rs, r))
}

/// An integer cell is written as that integer, and a null cell as `null`.
pub proof fn integer_stays_integer(n: i64)
    ensures
        json_value(CellView::Integer(n as int)) == decimal(n as int),
        json_value(CellView::Null) == "null"@,
{
    crate::number::written_integer_is_read(n as int);
}

/// Chooses the JSON value for `text`, given its form as a real number, if it
/// has one, and its form as a string.
pub fn choose_scalar(text: &str, as_real: Option<String>, quoted: String) -> (out: String)
    ensures
        out@ == scalar_from(text@, as_real.deep_view(), quoted@),
{
    let chars = chars_of(text);
    match parse_integer(&chars) {
        Some(n) => {
            let digits = decimal_chars(n);
            string_of(&digits)
        },
        None => match as_real {
            Some(number) => number,
            None => {
                if same_text(text, "true") || same_text(text, "false") || same_text(text, "null") {
                    text.to_owned()
                } else {
                    quoted
                }
            },
        },
    }
}

/// Writes a cell as a JSON value.
pub fn json_value_of(cell: &Cell) -> (out: String)
    ensures
        out@ == json_value(cell@),
{
    match cell.text() {
        None => "null".to_owned(),
        Some(text) => {
            let as_real = json_real(text.as_str());
            let quoted = json_string(text.as_str());
            choose_scalar(text.as_str(), as_real, quoted)
        },
    }
}

fn json_member_of(key: &str, cell: &Cell) -> (out: String)
    ensures
        out@ == json_member(key@, cell@),
{
    let name = json_string(key);
    let mut out: Vec<char> = chars_of(name.as_str());
    push_str(&mut out, ":");
    let value = json_value_of(cell);
    push_str(&mut out, value.as_str());
    string_of(&out)
}

/// Renders `rs` as JSON lines.
pub fn encode_jsonl(rs: &ResultSet) -> (lines: Vec<String>)
    ensures
        lines.deep_view() == json_lines(rs@),
{
    let mut lines: Vec<String> = Vec::new();
    let mut r: usize = 0;
    while r < rs.rows.len()
        invariant
            r <= rs.rows.len(),
            lines.len() == r,
            forall|k: int| 0 <= k < r ==> (#[trigger] lines@[k])@ == json_line(rs@, k),
        decreases rs.rows.len() - r,
    {
        let n: usize = if rs.rows[r].len() <= rs.columns.len() {
            rs.rows[r].len()
        } else {
            rs.columns.len()
        };
        let mut members: Vec<String> = Vec::new();
        let mut c: usize = 0;
        while c < n
            invariant
                c <= n,
                r < rs.rows.len(),
                n <= rs.columns.len(),
                n <= rs.rows@[r as int].len(),
                members.len() == c,
                forall|k: int| 0 <= k < c ==> (#[trigger] members@[k])@ == json_member(
                    rs@.columns[k],
                    rs@.rows[r as int][k],
                ),
            decreases n - c,
        {
            members.push(json_member_of(rs.columns[c].as_str(), &rs.rows[r][c]));
            c += 1;
        }
        assert(members.deep_view() =~= Seq::new(
            named_cells(rs@, r as int),
            |c: int| json_member(rs@.columns[c], rs@.rows[r as int][c]),
        ));
        let inner = join(&members, ",");
        let mut out: Vec<char> = chars_of("{");
        push_str(&mut out, inner.as_str());
        push_str(&mut out, "}");
        lines.push(string_of(&out));
        r += 1;
    }
    lines
}

} // verus!
