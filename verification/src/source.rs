//! Sorting the arguments of a run into files and standard-input tables, and
//! resolving each file to the way it is loaded.

use vstd::prelude::*;
use crate::failure::{Failure, FailureView};
use crate::text::{chars_of, has_prefix, same_text, starts_with, string_of, tail_from};

verus! {

/// One argument that names a source, with what the file system says of it.
#[derive(Clone, Debug, PartialEq, Eq)]
pub struct Argument {
    /// The argument as it was written.
    pub token: String,
    /// Whether a file of that path exists.
    pub exists: bool,
}

/// The mathematical value of an [`Argument`].
pub struct ArgumentView {
    pub token: Seq<char>,
    pub exists: bool,
}

impl View for Argument {
    type V = ArgumentView;

    open spec fn view(&self) -> ArgumentView {
        ArgumentView { token: self.token@, exists: self.exists }
    }
}

impl DeepView for Argument {
    type V = ArgumentView;

    open spec fn deep_view(&self) -> ArgumentView {
        self@
    }
}

/// A table that is read from standard input.
#[derive(Clone, Debug, PartialEq, Eq)]
pub struct StdinTable {
    /// The name of the table.
    pub name: String,
    /// The stream that the table is read from; always `stdin`.
    pub source: String,
}

/// The mathematical value of a [`StdinTable`].
pub struct StdinTableView {
    pub name: Seq<char>,
    pub source: Seq<char>,
}

impl View for StdinTable {
    type V = StdinTableView;

    open spec fn view(&self) -> StdinTableView {
        StdinTableView { name: self.name@, source: self.source@ }
    }
}

impl DeepView for StdinTable {
    type V = StdinTableView;

    open spec fn deep_view(&self) -> StdinTableView {
        self@
    }
}

/// The sources of a run, sorted: the paths of the files, and the tables to
/// read from standard input, each in the order of the arguments.
#[derive(Clone, Debug, PartialEq, Eq)]
pub struct Classified {
    pub files: Vec<String>,
    pub stdin_tables: Vec<StdinTable>,
}

/// The mathematical value of a [`Classified`].
pub struct ClassifiedView {
    pub files: Seq<Seq<char>>,
    pub stdin_tables: Seq<StdinTableView>,
}

impl View for Classified {
    type V = ClassifiedView;

    open spec fn view(&self) -> ClassifiedView {
        ClassifiedView { files: self.files.deep_view(), stdin_tables: self.stdin_tables.deep_view() }
    }
}

/// What the process knows of its standard input.
#[derive(Clone, Copy, Debug, PartialEq, Eq, Structural)]
pub struct InputEnvironment {
    /// Whether standard input is an interactive terminal.
    pub is_terminal: bool,
    /// Whether standard input holds at least one byte. Of no account where
    /// [`needs_probe`] says that nobody asks.
    pub has_data: bool,
}

/// What an argument stands for.
pub enum TokenKind {
    /// A table of this name, read from standard input.
    Stdin(Seq<char>),
    /// `stdin:` with no name after it.
    EmptyName,
    /// The path of a file.
    Path,
}

/// What the argument `token` stands for: `stdin` is the table `stdin` on
/// standard input, `stdin:` and a name is the table of that name on standard
/// input, and anything else is the path of a file.
pub open spec fn token_kind(token: Seq<char>) -> TokenKind {
    if token == "stdin"@ {
        TokenKind::Stdin("stdin"@)
    } else if starts_with(token, "stdin:"@) {
        if token.len() > "stdin:"@.len() {
            TokenKind::Stdin(token.skip("stdin:"@.len() as int))
        } else {
            TokenKind::EmptyName
        }
    } else {
        TokenKind::Path
    }
}

/// The table `name` on standard input.
pub open spec fn stdin_table(name: Seq<char>) -> StdinTableView {
    StdinTableView { name, source: "stdin"@ }
}

/// The complaint about `stdin:` without a name.
pub open spec fn empty_name_complaint() -> Seq<char> {
    "Invalid stdin table specification: empty name after 'stdin:'"@
}

/// The arguments sorted, in their order; the first argument that is
/// `stdin:` without a name, or the path of a file that does not exist, fails
/// the whole.
pub open spec fn classified(args: Seq<ArgumentView>) -> Result<ClassifiedView, FailureView>
    decreases args.len(),
{
    if args.len() == 0 {
        Ok(ClassifiedView { files: Seq::empty(), stdin_tables: Seq::empty() })
    } else {
        match classified(args.drop_last()) {
            Err(e) => Err(e),
            Ok(sorted) => match token_kind(args.last().token) {
                TokenKind::Stdin(name) => Ok(
                    ClassifiedView { files: sorted.files, stdin_tables: sorted.stdin_tables.push(stdin_table(name)) },
                ),
                TokenKind::EmptyName => Err(FailureView::InvalidArgument(empty_name_complaint())),
                TokenKind::Path => if args.last().exists {
                    Ok(
                        ClassifiedView {
                            files: sorted.files.push(args.last().token),
                            stdin_tables: sorted.stdin_tables,
                        },
                    )
                } else {
                    Err(FailureView::FileNotFound(args.last().token))
                },
            },
        }
    }
}

/// Whether standard input is to be probed for data: no argument names a
/// source, and standard input is no terminal.
pub open spec fn needs_probe(arguments: nat, is_terminal: bool) -> bool {
    arguments == 0 && !is_terminal
}

/// The sources of a run: the arguments sorted; and where there is no argument
/// and standard input is no terminal and holds data, the table `stdin` on
/// standard input.
pub open spec fn sources_of(args: Seq<ArgumentView>, env: InputEnvironment) -> Result<
    ClassifiedView,
    FailureView,
> {
    if needs_probe(args.len(), env.is_terminal) && env.has_data {
        Ok(ClassifiedView { files: Seq::empty(), stdin_tables: seq![stdin_table("stdin"@)] })
    } else {
        classified(args)
    }
}

/// Whether standard input is to be probed for data before the sources are
/// sorted.
pub fn needs_stdin_probe(arguments: usize, is_terminal: bool) -> (yes: bool)
    ensures
        yes == needs_probe(arguments as nat, is_terminal),
{
    arguments == 0 && !is_terminal
}

/// Sorts the arguments into files and standard-input tables.
pub fn process_file_arguments(args: &Vec<Argument>, env: InputEnvironment) -> (out: Result<Classified, Failure>)
    ensures
        match out {
            Ok(sorted) => sources_of(args.deep_view(), env) == Ok::<ClassifiedView, FailureView>(sorted@),
            Err(e) => sources_of(args.deep_view(), env) == Err::<ClassifiedView, FailureView>(e@),
        },
{
    let mut files: Vec<String> = Vec::new();
    let mut stdin_tables: Vec<StdinTable> = Vec::new();
    let marker = chars_of("stdin:");
    proof {
        reveal_strlit("stdin:");
        assert(files.deep_view() =~= Seq::<Seq<char>>::empty());
        assert(stdin_tables.deep_view() =~= Seq::<StdinTableView>::empty());
    }
    let mut i: usize = 0;
    while i < args.len()
        invariant
            i <= args.len(),
            marker@ == "stdin:"@,
            classified(args.deep_view().take(i as int)) == Ok::<ClassifiedView, FailureView>(
                ClassifiedView { files: files.deep_view(), stdin_tables: stdin_tables.deep_view() },
            ),
        decreases args.len() - i,
    {
        let ghost prefix = args.deep_view().take(i + 1);
        assert(prefix.drop_last() == args.deep_view().take(i as int));
        let ghost old_files = files.deep_view();
        let ghost old_tables = stdin_tables.deep_view();
        let token = chars_of(args[i].token.as_str());
        if same_text(args[i].token.as_str(), "stdin") {
            stdin_tables.push(StdinTable { name: "stdin".to_owned(), source: "stdin".to_owned() });
            assert(stdin_tables.deep_view() =~= old_tables.push(stdin_table("stdin"@)));
        } else if has_prefix(&token, &marker) {
            if token.len() > marker.len() {
                let name = tail_from(&token, marker.len());
                stdin_tables.push(StdinTable { name: string_of(&name), source: "stdin".to_owned() });
                assert(stdin_tables.deep_view() =~= old_tables.push(
                    stdin_table(args@[i as int]@.token.skip("stdin:"@.len() as int)),
                ));
            } else {
                proof {
                    classified_fails_on(args.deep_view(), i + 1);
                }
                return Err(
                    Failure::InvalidArgument(
                        "Invalid stdin table specification: empty name after 'stdin:'".to_owned(),
                    ),
                );
            }
        } else if args[i].exists {
            files.push(args[i].token.clone());
            assert(files.deep_view() =~= old_files.push(args@[i as int]@.token));
        } else {
            proof {
                classified_fails_on(args.deep_view(), i + 1);
            }
            return Err(Failure::FileNotFound(args[i].token.clone()));
        }
        i += 1;
    }
    assert(args.deep_view().take(args.len() as int) == args.deep_view());
    if needs_stdin_probe(args.len(), env.is_terminal) && env.has_data {
        stdin_tables.push(StdinTable { name: "stdin".to_owned(), source: "stdin".to_owned() });
        assert(stdin_tables.deep_view() =~= seq![stdin_table("stdin"@)]);
    }
    Ok(Classified { files, stdin_tables })
}

/// Where the arguments can be sorted, each of them is among the files or
/// among the tables of standard input, and nothing else is.
pub proof fn every_argument_is_sorted(args: Seq<ArgumentView>)
    requires
        classified(args) is Ok,
    ensures
        classified(args)->Ok_0.files.len() + classified(args)->Ok_0.stdin_tables.len() == args.len(),
    decreases args.len(),
{
    if args.len() > 0 {
        every_argument_is_sorted(args.drop_last());
    }
}

/// A failure on a prefix of the arguments is the failure on all of them.
pub proof fn classified_fails_on(args: Seq<ArgumentView>, n: int)
    requires
        0 <= n <= args.len(),
        classified(args.take(n)) is Err,
    ensures
        classified(args) == classified(args.take(n)),
    decreases args.len() - n,
{
    if n == args.len() {
        assert(args.take(n) == args);
    } else {
        assert(args.take(n + 1).drop_last() == args.take(n));
        classified_fails_on(args, n + 1);
    }
}

} // verus!
