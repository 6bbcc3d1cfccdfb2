use fedquery::failure::Failure;
use fedquery::loader::{resolve, resolve_file, FileKind};
use fedquery::source::{needs_stdin_probe, process_file_arguments, Argument, InputEnvironment, StdinTable};

fn arg(token: &str, exists: bool) -> Argument {
    Argument { token: token.to_string(), exists }
}

fn table(name: &str) -> StdinTable {
    StdinTable { name: name.to_string(), source: "stdin".to_string() }
}

const TERMINAL: InputEnvironment = InputEnvironment { is_terminal: true, has_data: false };
const PIPED: InputEnvironment = InputEnvironment { is_terminal: false, has_data: true };
const PIPED_EMPTY: InputEnvironment = InputEnvironment { is_terminal: false, has_data: false };

#[test]
fn files_and_stdin_tables_are_sorted() {
    let args = vec![arg("a.csv", true), arg("stdin", true), arg("b.db", true), arg("stdin:orders", false)];
    let sorted = process_file_arguments(&args, TERMINAL).unwrap();
    assert_eq!(sorted.files, vec!["a.csv", "b.db"]);
    assert_eq!(sorted.stdin_tables, vec![table("stdin"), table("orders")]);
}

#[test]
fn several_stdin_tables_are_legal() {
    let args = vec![arg("stdin:a", false), arg("stdin:b", false), arg("stdin:a", false)];
    let sorted = process_file_arguments(&args, PIPED).unwrap();
    assert!(sorted.files.is_empty());
    assert_eq!(sorted.stdin_tables, vec![table("a"), table("b"), table("a")]);
}

#[test]
fn empty_stdin_name_is_invalid() {
    let out = process_file_arguments(&vec![arg("stdin:", false)], TERMINAL);
    assert_eq!(
        out,
        Err(Failure::InvalidArgument("Invalid stdin table specification: empty name after 'stdin:'".to_string()))
    );
}

#[test]
fn missing_file_is_reported_with_its_path() {
    let out = process_file_arguments(&vec![arg("a.csv", true), arg("gone.csv", false)], TERMINAL);
    assert_eq!(out, Err(Failure::FileNotFound("gone.csv".to_string())));
    assert_eq!(out.unwrap_err().message(), "File not found: gone.csv");
}

#[test]
fn first_bad_argument_decides() {
    let out = process_file_arguments(&vec![arg("gone.csv", false), arg("stdin:", false)], TERMINAL);
    assert_eq!(out, Err(Failure::FileNotFound("gone.csv".to_string())));
    let out = process_file_arguments(&vec![arg("stdin:", false), arg("gone.csv", false)], TERMINAL);
    assert!(matches!(out, Err(Failure::InvalidArgument(_))));
}

#[test]
fn stdin_like_names_are_files() {
    let sorted = process_file_arguments(&vec![arg("stdin.csv", true), arg("Stdin", true)], TERMINAL).unwrap();
    assert_eq!(sorted.files, vec!["stdin.csv", "Stdin"]);
    assert!(sorted.stdin_tables.is_empty());
}

#[test]
fn piped_data_without_arguments_is_table_stdin() {
    let sorted = process_file_arguments(&vec![], PIPED).unwrap();
    assert!(sorted.files.is_empty());
    assert_eq!(sorted.stdin_tables, vec![table("stdin")]);
}

#[test]
fn no_default_table_without_data_or_on_a_terminal() {
    let sorted = process_file_arguments(&vec![], PIPED_EMPTY).unwrap();
    assert!(sorted.files.is_empty() && sorted.stdin_tables.is_empty());
    let sorted = process_file_arguments(&vec![], TERMINAL).unwrap();
    assert!(sorted.files.is_empty() && sorted.stdin_tables.is_empty());
    let on_terminal_with_data = InputEnvironment { is_terminal: true, has_data: true };
    let sorted = process_file_arguments(&vec![], on_terminal_with_data).unwrap();
    assert!(sorted.stdin_tables.is_empty());
}

#[test]
fn no_default_table_beside_files() {
    let sorted = process_file_arguments(&vec![arg("a.csv", true)], PIPED).unwrap();
    assert_eq!(sorted.files, vec!["a.csv"]);
    assert!(sorted.stdin_tables.is_empty());
}

#[test]
fn probe_only_without_arguments_off_a_terminal() {
    assert!(needs_stdin_probe(0, false));
    assert!(!needs_stdin_probe(0, true));
    assert!(!needs_stdin_probe(1, false));
}

#[test]
fn files_are_resolved_by_stem_and_extension() {
    let people = resolve("dir/people.csv").unwrap();
    assert_eq!(people.table, "people");
    assert_eq!(people.kind, FileKind::Delimited);
    assert_eq!(people.extension, Some("csv".to_string()));
    assert_eq!(people.path, "dir/people.csv");
    assert_eq!(resolve("data.db").unwrap().kind, FileKind::Database);
    assert_eq!(resolve("data.sqlite").unwrap().kind, FileKind::Database);
    assert_eq!(resolve("data.sqlite").unwrap().table, "data");
    assert_eq!(resolve("data.DB").unwrap().kind, FileKind::Delimited);
    assert_eq!(resolve("data.sqlite3").unwrap().kind, FileKind::Delimited);
    assert_eq!(resolve("noext").unwrap().kind, FileKind::Delimited);
    assert_eq!(resolve("noext").unwrap().table, "noext");
    assert_eq!(resolve("a.b.csv").unwrap().table, "a.b");
}

#[test]
fn a_path_without_a_file_name_is_invalid() {
    assert_eq!(resolve(".."), Err(Failure::InvalidArgument("Not the path of a file: ..".to_string())));
    assert!(matches!(resolve_file("x", None, None), Err(Failure::InvalidArgument(_))));
}

#[test]
fn resolution_from_given_parts() {
    let source = resolve_file("p/q.db", Some("q".to_string()), Some("db".to_string())).unwrap();
    assert_eq!(source.kind, FileKind::Database);
    assert_eq!(source.table, "q");
    let source = resolve_file("p/q.txt", Some("q".to_string()), Some("txt".to_string())).unwrap();
    assert_eq!(source.kind, FileKind::Delimited);
}
