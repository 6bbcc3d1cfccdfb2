use fedquery::plan::{load_failure_is_fatal, plan, query_source, stdin_query, QuerySource, Request, Step};

fn request() -> Request {
    Request {
        schema: false,
        saving: false,
        query: None,
        trailing_query: None,
        files: 1,
        stdin_tables: 0,
        is_terminal: true,
        has_arguments: true,
    }
}

fn q(s: &str) -> Option<String> {
    Some(s.to_string())
}

#[test]
fn empty_query_alone_fails() {
    let steps = plan(&request(), q(""), false);
    assert_eq!(steps, vec![Step::Fail(vec!["Error: Empty query provided via command line argument.".to_string()])]);
    let steps = plan(&request(), q("  \n"), false);
    assert_eq!(steps, vec![Step::Fail(vec!["Error: Empty query provided via command line argument.".to_string()])]);
}

#[test]
fn empty_query_from_stdin_alone_fails() {
    let steps = plan(&request(), q(""), true);
    assert_eq!(steps, vec![Step::Fail(vec!["Error: Received empty query from stdin.".to_string()])]);
}

#[test]
fn empty_query_beside_schema_is_a_warning() {
    let steps = plan(&Request { schema: true, ..request() }, q(""), false);
    assert_eq!(
        steps,
        vec![
            Step::ShowSchemas,
            Step::Warn(
                "Warning: Empty query provided via command line argument. Other actions (schema/output) will proceed."
                    .to_string()
            ),
        ]
    );
}

#[test]
fn empty_query_beside_saving_is_a_warning() {
    let steps = plan(&Request { saving: true, ..request() }, q(" "), true);
    assert_eq!(
        steps,
        vec![
            Step::Warn(
                "Warning: Received empty query from stdin. Other actions (schema/output) will proceed.".to_string()
            ),
            Step::SaveDatabase,
        ]
    );
}

#[test]
fn a_query_is_run() {
    assert_eq!(plan(&request(), q("from t"), false), vec![Step::RunQuery("from t".to_string())]);
}

#[test]
fn everything_in_order() {
    let steps = plan(&Request { schema: true, saving: true, ..request() }, q("from t"), false);
    assert_eq!(steps, vec![Step::ShowSchemas, Step::RunQuery("from t".to_string()), Step::SaveDatabase]);
}

#[test]
fn sources_without_an_action_show_their_schemas() {
    assert_eq!(plan(&request(), None, false), vec![Step::ShowSchemas]);
    let on_stdin = Request { files: 0, stdin_tables: 2, ..request() };
    assert_eq!(plan(&on_stdin, None, false), vec![Step::ShowSchemas]);
}

#[test]
fn nothing_to_do_is_an_error() {
    let bare = Request { files: 0, ..request() };
    let complaint = Step::Fail(vec![
        "Error: No action performed. Specify a query, --schema, --output-db, or provide input files to see their schema by default."
            .to_string(),
        "Run with --help for usage information.".to_string(),
    ]);
    assert_eq!(plan(&bare, None, false), vec![complaint.clone()]);
    let silent = Request { has_arguments: false, ..bare.clone() };
    assert_eq!(plan(&silent, None, true), vec![complaint]);
    assert_eq!(plan(&silent, None, false), vec![]);
}

#[test]
fn the_query_option_goes_first() {
    let both = Request { query: q("a"), trailing_query: q("b"), ..request() };
    assert_eq!(query_source(&both), QuerySource::Given("a".to_string()));
    let trailing = Request { trailing_query: q("b"), ..request() };
    assert_eq!(query_source(&trailing), QuerySource::Given("b".to_string()));
}

#[test]
fn the_query_is_read_from_stdin_only_if_nothing_else_reads_it() {
    assert_eq!(query_source(&request()), QuerySource::Absent);
    let piped = Request { is_terminal: false, ..request() };
    assert_eq!(query_source(&piped), QuerySource::Stdin);
    let data_on_stdin = Request { is_terminal: false, stdin_tables: 1, ..request() };
    assert_eq!(query_source(&data_on_stdin), QuerySource::Absent);
}

#[test]
fn a_blank_stdin_holds_no_query() {
    assert_eq!(stdin_query("".to_string()), None);
    assert_eq!(stdin_query(" \n\t".to_string()), None);
    assert_eq!(stdin_query(" from t\n".to_string()), q(" from t\n"));
}

#[test]
fn load_failures_are_fatal_with_sources() {
    assert!(load_failure_is_fatal(false, 0, 0));
    assert!(load_failure_is_fatal(true, 1, 0));
    assert!(load_failure_is_fatal(true, 0, 1));
    assert!(!load_failure_is_fatal(true, 0, 0));
}
