//! What a run does, decided from its options before anything is done: which
//! query it takes, and which steps it performs in which order.

use vstd::prelude::*;
use crate::text::{blank, is_blank};

verus! {

/// The options and circumstances of a run.
#[derive(Clone, Debug, PartialEq, Eq)]
pub struct Request {
    /// The schemas are asked for.
    pub schema: bool,
    /// The store is to be saved as a database file.
    pub saving: bool,
    /// The query given with the query option.
    pub query: Option<String>,
    /// The query given after the delimiter.
    pub trailing_query: Option<String>,
    /// The number of files among the sources.
    pub files: usize,
    /// The number of tables to read from standard input.
    pub stdin_tables: usize,
    /// Whether standard input is an interactive terminal.
    pub is_terminal: bool,
    /// Whether the command line held anything beside the program's name.
    pub has_arguments: bool,
}

/// The mathematical value of a [`Request`].
pub struct RequestView {
    pub schema: bool,
    pub saving: bool,
    pub query: Option<Seq<char>>,
    pub trailing_query: Option<Seq<char>>,
    pub files: nat,
    pub stdin_tables: nat,
    pub is_terminal: bool,
    pub has_arguments: bool,
}

impl View for Request {
    type V = RequestView;

    open spec fn view(&self) -> RequestView {
        RequestView {
            schema: self.schema,
            saving: self.saving,
            query: self.query.deep_view(),
            trailing_query: self.trailing_query.deep_view(),
            files: self.files as nat,
            stdin_tables: self.stdin_tables as nat,
            is_terminal: self.is_terminal,
            has_arguments: self.has_arguments,
        }
    }
}

/// Where the query of a run comes from.
#[derive(Clone, Debug, PartialEq, Eq)]
pub enum QuerySource {
    /// It was given on the command line.
    Given(String),
    /// It is to be read from standard input.
    Stdin,
    /// There is none.
    Absent,
}

/// The mathematical value of a [`QuerySource`].
pub enum QuerySourceView {
    Given(Seq<char>),
    Stdin,
    Absent,
}

impl View for QuerySource {
    type V = QuerySourceView;

    open spec fn view(&self) -> QuerySourceView {
        match *self {
            QuerySource::Given(q) => QuerySourceView::Given(q@),
            QuerySource::Stdin => QuerySourceView::Stdin,
            QuerySource::Absent => QuerySourceView::Absent,
        }
    }
}

/// Where the query comes from: the query option goes before the query after
/// the delimiter; with neither, the query is read from standard input if that
/// is no terminal and no table is read from it.
pub open spec fn query_source_of(request: RequestView) -> QuerySourceView {
    match request.query {
        Some(q) => QuerySourceView::Given(q),
        None => match request.trailing_query {
            Some(q) => QuerySourceView::Given(q),
            None => if request.stdin_tables == 0 && !request.is_terminal {
                QuerySourceView::Stdin
            } else {
                QuerySourceView::Absent
            },
        },
    }
}

/// Tells where the query of a run comes from.
pub fn query_source(request: &Request) -> (source: QuerySource)
    ensures
        source@ == query_source_of(request@),
{
    match &request.query {
        Some(q) => QuerySource::Given(q.clone()),
        None => match &request.trailing_query {
            Some(q) => QuerySource::Given(q.clone()),
            None => if request.stdin_tables == 0 && !request.is_terminal {
                QuerySource::Stdin
            } else {
                QuerySource::Absent
            },
        },
    }
}

/// The query that standard input held: all that was read, unless that is
/// blank.
pub fn stdin_query(read: String) -> (query: Option<String>)
    ensures
        query.deep_view() == if is_blank(read@) {
            None
        } else {
            Some(read@)
        },
{
    if blank(read.as_str()) {
        None
    } else {
        Some(read)
    }
}

/// Whether a failure to load the sources ends the run: it does, unless the
/// run has no source at all and is to save the store.
pub fn load_failure_is_fatal(saving: bool, files: usize, stdin_tables: usize) -> (fatal: bool)
    ensures
        fatal == (!saving || files > 0 || stdin_tables > 0),
{
    !saving || files > 0 || stdin_tables > 0
}

/// One step of a run.
#[derive(Clone, Debug, PartialEq, Eq)]
pub enum Step {
    /// Print the schemas of the tables in the store.
    ShowSchemas,
    /// Compile and run the query, and print what it gives.
    RunQuery(String),
    /// Save the store as a database file.
    SaveDatabase,
    /// Print a warning on the error stream and go on.
    Warn(String),
    /// Print the lines on the error stream and end the run with exit code 1.
    Fail(Vec<String>),
}

/// The mathematical value of a [`Step`].
pub enum StepView {
    ShowSchemas,
    RunQuery(Seq<char>),
    SaveDatabase,
    Warn(Seq<char>),
    Fail(Seq<Seq<char>>),
}

impl View for Step {
    type V = StepView;

    open spec fn view(&self) -> StepView {
        match *self {
            Step::ShowSchemas => StepView::ShowSchemas,
            Step::RunQuery(q) => StepView::RunQuery(q@),
            Step::SaveDatabase => StepView::SaveDatabase,
            Step::Warn(m) => StepView::Warn(m@),
            Step::Fail(lines) => StepView::Fail(lines.deep_view()),
        }
    }
}

impl DeepView for Step {
    type V = StepView;

    open spec fn deep_view(&self) -> StepView {
        self@
    }
}

/// The complaint about an empty query.
pub open spec fn empty_query_error(from_stdin: bool) -> Seq<char> {
    if from_stdin {
        "Error: Received empty query from stdin."@
    } else {
        "Error: Empty query provided via command line argument."@
    }
}

/// The warning about an empty query.
pub open spec fn empty_query_warning(from_stdin: bool) -> Seq<char> {
    if from_stdin {
        "Warning: Received empty query from stdin. Other actions (schema/output) will proceed."@
    } else {
        "Warning: Empty query provided via command line argument. Other actions (schema/output) will proceed."@
    }
}

/// The complaint about a run that does nothing.
pub open spec fn no_action_error() -> Seq<Seq<char>> {
    seq![
        "Error: No action performed. Specify a query, --schema, --output-db, or provide input files to see their schema by default."@,
        "Run with --help for usage information."@,
    ]
}

/// The step that the schema option gives.
pub open spec fn schema_steps(request: RequestView) -> Seq<StepView> {
    if request.schema {
        seq![StepView::ShowSchemas]
    } else {
        Seq::empty()
    }
}

/// Whether an empty query ends the run: it does where nothing else was asked
/// for.
pub open spec fn empty_query_is_fatal(request: RequestView) -> bool {
    !request.saving && !request.schema
}

/// The step that the query gives: a query that is not blank is run; a blank
/// one is an error where nothing else was asked for, and a warning else.
pub open spec fn query_steps(request: RequestView, query: Option<Seq<char>>, from_stdin: bool) -> Seq<
    StepView,
> {
    match query {
        None => Seq::empty(),
        Some(q) => if !is_blank(q) {
            seq![StepView::RunQuery(q)]
        } else if empty_query_is_fatal(request) {
            seq![StepView::Fail(seq![empty_query_error(from_stdin)])]
        } else {
            seq![StepView::Warn(empty_query_warning(from_stdin))]
        },
    }
}

/// Whether the run stops at its query: the query is blank, and nothing else
/// was asked for.
pub open spec fn stops_at_query(request: RequestView, query: Option<Seq<char>>) -> bool {
    query matches Some(q) && is_blank(q) && empty_query_is_fatal(request)
}

/// Whether the options ask for something to be done.
pub open spec fn acts(request: RequestView, query: Option<Seq<char>>) -> bool {
    request.schema || request.saving || (query matches Some(q) && !is_blank(q))
}

/// What is left to do after the query: save the store if that was asked for;
/// where nothing was asked for, show the schemas of the sources, and where
/// there is no source either, complain, unless the run had neither arguments
/// nor a query to read.
pub open spec fn closing_steps(request: RequestView, query: Option<Seq<char>>, from_stdin: bool) -> Seq<
    StepView,
> {
    if request.saving {
        seq![StepView::SaveDatabase]
    } else if acts(request, query) {
        Seq::empty()
    } else if request.files > 0 || request.stdin_tables > 0 {
        seq![StepView::ShowSchemas]
    } else if request.has_arguments || from_stdin {
        seq![StepView::Fail(no_action_error())]
    } else {
        Seq::empty()
    }
}

/// The steps of a run, in order: the schemas if asked for, then the query,
/// then what is left; a run that stops at its query does nothing after it.
pub open spec fn planned(request: RequestView, query: Option<Seq<char>>, from_stdin: bool) -> Seq<StepView> {
    schema_steps(request) + query_steps(request, query, from_stdin) + if stops_at_query(request, query) {
        Seq::empty()
    } else {
        closing_steps(request, query, from_stdin)
    }
}

/// A step that ends the run is the last step of its plan.
pub proof fn failing_is_last(request: RequestView, query: Option<Seq<char>>, from_stdin: bool, i: int)
    requires
        0 <= i < planned(request, query, from_stdin).len(),
        planned(request, query, from_stdin)[i] is Fail,
    ensures
        i == planned(request, query, from_stdin).len() - 1,
{
}

/// A query that is not blank is run once, and a run never fails for want of
/// an action then.
pub proof fn a_query_is_run_once(request: RequestView, query: Seq<char>, from_stdin: bool)
    requires
        !is_blank(query),
    ensures
        planned(request, Some(query), from_stdin) == schema_steps(request) + seq![StepView::RunQuery(query)] + if request.saving {
            seq![StepView::SaveDatabase]
        } else {
            Seq::empty()
        },
{
}

/// Plans a run: `query` is the query that the run takes, if it takes one,
/// and `from_stdin` tells whether standard input was read for it.
pub fn plan(request: &Request, query: Option<String>, from_stdin: bool) -> (steps: Vec<Step>)
    ensures
        steps.deep_view() == planned(request@, query.deep_view(), from_stdin),
{
    let mut steps: Vec<Step> = Vec::new();
    let mut acted: bool = request.schema || request.saving;
    if request.schema {
        steps.push(Step::ShowSchemas);
    }
    match query {
        None => {},
        Some(text) => {
            if !blank(text.as_str()) {
                steps.push(Step::RunQuery(text));
                acted = true;
            } else if !request.saving && !request.schema {
                let complaint = if from_stdin {
                    "Error: Received empty query from stdin."
                } else {
                    "Error: Empty query provided via command line argument."
                };
                let mut lines: Vec<String> = Vec::new();
                lines.push(complaint.to_owned());
                assert(lines.deep_view() =~= seq![empty_query_error(from_stdin)]);
                steps.push(Step::Fail(lines));
                return steps;
            } else {
                let warning = if from_stdin {
                    "Warning: Received empty query from stdin. Other actions (schema/output) will proceed."
                } else {
                    "Warning: Empty query provided via command line argument. Other actions (schema/output) will proceed."
                };
                steps.push(Step::Warn(warning.to_owned()));
            }
        },
    }
    if request.saving {
        steps.push(Step::SaveDatabase);
    } else if !acted {
        if request.files > 0 || request.stdin_tables > 0 {
            steps.push(Step::ShowSchemas);
        } else if request.has_arguments || from_stdin {
            let mut lines: Vec<String> = Vec::new();
            lines.push(
                "Error: No action performed. Specify a query, --schema, --output-db, or provide input files to see their schema by default.".to_owned(),
            );
            lines.push("Run with --help for usage information.".to_owned());
            assert(lines.deep_view() =~= no_action_error());
            steps.push(Step::Fail(lines));
        }
    }
    steps
}

} // verus!
