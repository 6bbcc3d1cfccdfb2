use fedquery::encode::{encode_csv, encode_logfmt, encode_table, OutputFormat};
use fedquery::json::{choose_scalar, encode_jsonl, json_value_of};
use fedquery::query::encode;
use fedquery::result::{Cell, ResultSet};

fn text(s: &str) -> Cell {
    Cell::Text(s.to_string())
}

fn people() -> ResultSet {
    ResultSet {
        columns: vec!["name".to_string(), "age".to_string(), "score".to_string()],
        rows: vec![
            vec![text("Alice"), Cell::Integer(30), Cell::Real("1.5".to_string())],
            vec![text("Bob \"B\""), Cell::Null, Cell::Blob],
        ],
    }
}

fn no_rows() -> ResultSet {
    ResultSet { columns: vec!["a".to_string(), "b".to_string()], rows: vec![] }
}

#[test]
fn csv_has_header_then_rows() {
    assert_eq!(encode_csv(&people()), vec!["name,age,score", "Alice,30,1.5", "Bob \"B\",NULL,[BLOB]"]);
}

#[test]
fn csv_does_not_quote_embedded_commas() {
    let rs = ResultSet { columns: vec!["a,b".to_string()], rows: vec![vec![text("x,y")]] };
    assert_eq!(encode_csv(&rs), vec!["a,b", "x,y"]);
}

#[test]
fn csv_of_no_rows_is_the_header() {
    assert_eq!(encode_csv(&no_rows()), vec!["a,b"]);
}

#[test]
fn csv_twice_is_the_same() {
    let rs = people();
    let first = encode_csv(&rs);
    let second = encode_csv(&rs);
    assert_eq!(first.join("\n").into_bytes(), second.join("\n").into_bytes());
}

#[test]
fn logfmt_escapes_quotes() {
    assert_eq!(
        encode_logfmt(&people()),
        vec![
            "name=\"Alice\" age=\"30\" score=\"1.5\"",
            "name=\"Bob \\\"B\\\"\" age=\"NULL\" score=\"[BLOB]\"",
        ]
    );
}

#[test]
fn logfmt_keeps_trailing_spaces_of_a_value() {
    let rs = ResultSet { columns: vec!["k".to_string()], rows: vec![vec![text("v  ")]] };
    assert_eq!(encode_logfmt(&rs), vec!["k=\"v  \""]);
}

#[test]
fn logfmt_and_jsonl_of_no_rows_are_empty() {
    assert!(encode_logfmt(&no_rows()).is_empty());
    assert!(encode_jsonl(&no_rows()).is_empty());
}

#[test]
fn table_is_aligned() {
    assert_eq!(
        encode_table(&people()),
        vec![
            "name     age   score   ",
            "-----------------------",
            "Alice    30    1.5     ",
            "Bob \"B\"  NULL  [BLOB]  ",
        ]
    );
}

#[test]
fn table_of_no_rows_says_so() {
    assert_eq!(encode_table(&no_rows()), vec!["No results."]);
}

#[test]
fn table_width_counts_characters() {
    let rs = ResultSet { columns: vec!["n".to_string()], rows: vec![vec![text("héé")], vec![text("ab")]] };
    assert_eq!(encode_table(&rs), vec!["n    ", "-----", "héé  ", "ab   "]);
}

#[test]
fn table_header_can_be_the_widest() {
    let rs = ResultSet { columns: vec!["quantity".to_string()], rows: vec![vec![Cell::Integer(-7)]] };
    assert_eq!(encode_table(&rs), vec!["quantity  ", "----------", "-7        "]);
}

#[test]
fn jsonl_reads_numbers_back() {
    assert_eq!(
        encode_jsonl(&people()),
        vec![
            "{\"name\":\"Alice\",\"age\":30,\"score\":1.5}",
            "{\"name\":\"Bob \\\"B\\\"\",\"age\":null,\"score\":\"[BLOB]\"}",
        ]
    );
}

#[test]
fn jsonl_keeps_column_order() {
    let rs = ResultSet {
        columns: vec!["z".to_string(), "a".to_string()],
        rows: vec![vec![Cell::Integer(1), Cell::Integer(2)]],
    };
    assert_eq!(encode_jsonl(&rs), vec!["{\"z\":1,\"a\":2}"]);
}

#[test]
fn json_value_by_the_look_of_the_text() {
    assert_eq!(json_value_of(&text("007")), "7");
    assert_eq!(json_value_of(&text("+5")), "5");
    assert_eq!(json_value_of(&text("-0")), "0");
    assert_eq!(json_value_of(&text("1.50")), "1.5");
    assert_eq!(json_value_of(&text("1e5")), "100000.0");
    assert_eq!(json_value_of(&text("9223372036854775807")), "9223372036854775807");
    assert_eq!(json_value_of(&text("9223372036854775808")), "9.223372036854776e+18");
    assert_eq!(json_value_of(&text("true")), "true");
    assert_eq!(json_value_of(&text("false")), "false");
    assert_eq!(json_value_of(&text("null")), "null");
    assert_eq!(json_value_of(&text("True")), "\"True\"");
    assert_eq!(json_value_of(&text("inf")), "\"inf\"");
    assert_eq!(json_value_of(&text("NaN")), "\"NaN\"");
    assert_eq!(json_value_of(&text("")), "\"\"");
    assert_eq!(json_value_of(&text("a\"b\n")), "\"a\\\"b\\n\"");
    assert_eq!(json_value_of(&Cell::Null), "null");
    assert_eq!(json_value_of(&Cell::Blob), "\"[BLOB]\"");
    assert_eq!(json_value_of(&Cell::Integer(-12)), "-12");
    assert_eq!(json_value_of(&Cell::Real("2.5".to_string())), "2.5");
}

#[test]
fn scalar_is_chosen_in_order() {
    assert_eq!(choose_scalar("12", Some("12.0".to_string()), "\"12\"".to_string()), "12");
    assert_eq!(choose_scalar("1.5", Some("1.5".to_string()), "\"1.5\"".to_string()), "1.5");
    assert_eq!(choose_scalar("true", None, "\"true\"".to_string()), "true");
    assert_eq!(choose_scalar("yes", None, "\"yes\"".to_string()), "\"yes\"");
}

#[test]
fn format_names() {
    assert_eq!(OutputFormat::from_name("table"), Some(OutputFormat::Table));
    assert_eq!(OutputFormat::from_name("csv"), Some(OutputFormat::Csv));
    assert_eq!(OutputFormat::from_name("jsonl"), Some(OutputFormat::Jsonl));
    assert_eq!(OutputFormat::from_name("logfmt"), Some(OutputFormat::Logfmt));
    assert_eq!(OutputFormat::from_name("json"), None);
    assert_eq!(OutputFormat::from_name(""), None);
}

#[test]
fn encode_goes_by_the_format() {
    let rs = people();
    assert_eq!(encode(OutputFormat::Csv, &rs), encode_csv(&rs));
    assert_eq!(encode(OutputFormat::Table, &rs), encode_table(&rs));
    assert_eq!(encode(OutputFormat::Jsonl, &rs), encode_jsonl(&rs));
    assert_eq!(encode(OutputFormat::Logfmt, &rs), encode_logfmt(&rs));
}

#[test]
fn cells_as_shown() {
    assert_eq!(Cell::Null.shown(), "NULL");
    assert_eq!(Cell::Null.text(), None);
    assert_eq!(Cell::Integer(i64::MIN).shown(), "-9223372036854775808");
    assert_eq!(Cell::Blob.shown(), "[BLOB]");
    assert_eq!(text("x").text(), Some("x".to_string()));
}

#[test]
fn result_set_must_be_rectangular() {
    assert!(ResultSet::new(vec!["a".to_string()], vec![vec![Cell::Null]]).is_some());
    assert!(ResultSet::new(vec!["a".to_string()], vec![vec![Cell::Null, Cell::Null]]).is_none());
    assert!(ResultSet::new(vec!["a".to_string()], vec![vec![]]).is_none());
    assert!(ResultSet::new(vec![], vec![]).is_some());
}

fn escaped_by_hand(s: &str) -> String {
    let mut out = String::from("\"");
    for c in s.chars() {
        match c {
            '"' => out.push_str("\\\""),
            '\\' => out.push_str("\\\\"),
            '\u{8}' => out.push_str("\\b"),
            '\t' => out.push_str("\\t"),
            '\n' => out.push_str("\\n"),
            '\u{c}' => out.push_str("\\f"),
            '\r' => out.push_str("\\r"),
            c if (c as u32) < 0x20 => out.push_str(&format!("\\u00{:x}{:x}", (c as u32) / 16, (c as u32) % 16)),
            c => out.push(c),
        }
    }
    out.push('"');
    out
}

#[test]
fn json_strings_are_escaped_as_stated() {
    for code in 0u32..0x300 {
        let c = char::from_u32(code).unwrap();
        let text = format!("a{}z", c);
        assert_eq!(json_value_of(&Cell::Text(text.clone())), escaped_by_hand(&text), "{:?}", c);
    }
    for text in ["", "\u{7f}", "\u{1f}\u{20}", "é\u{2028}\u{fffd}😀", "\\\"\\", "/"] {
        assert_eq!(json_value_of(&Cell::Text(text.to_string())), escaped_by_hand(text), "{:?}", text);
    }
    assert_eq!(json_value_of(&Cell::Text("\u{1}\u{1b}".to_string())), "\"\\u0001\\u001b\"");
}
