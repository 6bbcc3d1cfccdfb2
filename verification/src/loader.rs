//! Loading the sources of a run into the store, in the order of the
//! arguments: first the files, then the tables of standard input.

use vstd::prelude::*;
use crate::failure::{Failure, FailureView};
use crate::frame::{delimited_text, FrameView, SAMPLE_ROWS};
use crate::source::{StdinTable, StdinTableView};
use crate::store::{
    attach_result, attach_statement, delimited_result, failed, load_statements, record_of, FederatedStore,
    StatementView, StoreView, TableRecordView,
};
use crate::text::{chars_of, push_str, same_text, string_of};

verus! {

/// How a file is brought into the store.
#[derive(Clone, Copy, Debug, PartialEq, Eq, Structural)]
pub enum FileKind {
    /// A database file of the engine: it is attached.
    Database,
    /// Delimited text: a table is created from it.
    Delimited,
}

/// A file, resolved: how it is loaded, and under which name.
#[derive(Clone, Debug, PartialEq, Eq)]
pub struct FileSource {
    pub path: String,
    /// The name of the table, or of the namespace of an attached database:
    /// the stem of the file's name.
    pub table: String,
    pub kind: FileKind,
    /// The extension of the file's name, if it has one.
    pub extension: Option<String>,
}

/// The mathematical value of a [`FileSource`].
pub struct FileSourceView {
    pub path: Seq<char>,
    pub table: Seq<char>,
    pub kind: FileKind,
    pub extension: Option<Seq<char>>,
}

impl View for FileSource {
    type V = FileSourceView;

    open spec fn view(&self) -> FileSourceView {
        FileSourceView {
            path: self.path@,
            table: self.table@,
            kind: self.kind,
            extension: self.extension.deep_view(),
        }
    }
}

impl DeepView for FileSource {
    type V = FileSourceView;

    open spec fn deep_view(&self) -> FileSourceView {
        self@
    }
}

/// The stem of the file name that a path ends in, if it ends in one.
///
/// Trusted: wraps std's `Path::file_stem`, with `OsStr::to_string_lossy` for
/// the conversion. Nothing is claimed of the result: the syntax of paths is
/// the platform's.
#[verifier::external_body]
fn path_stem(path: &str) -> (stem: Option<String>) {
    std::path::Path::new(path).file_stem().map(|s| s.to_string_lossy().into_owned())
}

/// The extension of the file name that a path ends in, if it has one.
///
/// Trusted: wraps std's `Path::extension`, with `OsStr::to_string_lossy` for
/// the conversion. Nothing is claimed of the result: the syntax of paths is
/// the platform's.
#[verifier::external_body]
fn path_extension(path: &str) -> (extension: Option<String>) {
    std::path::Path::new(path).extension().map(|s| s.to_string_lossy().into_owned())
}

/// Whether a file with this extension is a database file of the engine.
pub open spec fn is_database(extension: Option<Seq<char>>) -> bool {
    extension == Some("sqlite"@) || extension == Some("db"@)
}

/// The complaint about a path that ends in no file name.
pub open spec fn no_name_complaint(path: Seq<char>) -> Seq<char> {
    "Not the path of a file: "@ + path
}

/// A file resolved from its path and from the stem and extension of its
/// name: the stem names the table, and the extension tells a database file
/// from delimited text. A path that ends in no file name is rejected.
pub open spec fn resolved(path: Seq<char>, stem: Option<Seq<char>>, extension: Option<Seq<char>>) -> Result<
    FileSourceView,
    FailureView,
> {
    match stem {
        None => Err(FailureView::InvalidArgument(no_name_complaint(path))),
        Some(table) => Ok(
            FileSourceView {
                path,
                table,
                kind: if is_database(extension) {
                    FileKind::Database
                } else {
                    FileKind::Delimited
                },
                extension,
            },
        ),
    }
}

/// Resolves a file from its path and from the stem and extension of its name.
pub fn resolve_file(path: &str, stem: Option<String>, extension: Option<String>) -> (out: Result<
    FileSource,
    Failure,
>)
    ensures
        match out {
            Ok(source) => resolved(path@, stem.deep_view(), extension.deep_view()) == Ok::<
                FileSourceView,
                FailureView,
            >(source@),
            Err(e) => resolved(path@, stem.deep_view(), extension.deep_view()) == Err::<
                FileSourceView,
                FailureView,
            >(e@),
        },
{
    match stem {
        None => {
            let mut complaint = chars_of("Not the path of a file: ");
            push_str(&mut complaint, path);
            Err(Failure::InvalidArgument(string_of(&complaint)))
        },
        Some(table) => {
            let database = match &extension {
                Some(e) => same_text(e.as_str(), "sqlite") || same_text(e.as_str(), "db"),
                None => false,
            };
            let kind = if database {
                FileKind::Database
            } else {
                FileKind::Delimited
            };
            Ok(FileSource { path: path.to_owned(), table, kind, extension })
        },
    }
}

/// Resolves a file from its path: takes the stem and the extension of the
/// file name from the path, as the platform reads paths, and resolves the
/// file from them.
pub fn resolve(path: &str) -> (out: Result<FileSource, Failure>)
    ensures
        exists|stem: Option<Seq<char>>, extension: Option<Seq<char>>|
            match out {
                Ok(source) => #[trigger] resolved(path@, stem, extension) == Ok::<FileSourceView, FailureView>(
                    source@,
                ),
                Err(e) => #[trigger] resolved(path@, stem, extension) == Err::<FileSourceView, FailureView>(e@),
            },
{
    let stem = path_stem(path);
    let extension = path_extension(path);
    resolve_file(path, stem, extension)
}

/// A file as it is handed to the loader.
#[derive(Clone, Debug, PartialEq, Eq)]
pub enum FileInput {
    /// A database file, to be attached under `namespace`.
    Database { path: String, namespace: String },
    /// Delimited text that was read from `path`, to be loaded into `table`.
    Delimited { path: String, table: String, contents: Vec<u8> },
    /// A file that could not be read.
    Unreadable { path: String, complaint: String },
    /// A path that could not be resolved to a file.
    Invalid { path: String, complaint: String },
}

/// The mathematical value of a [`FileInput`].
pub enum FileInputView {
    Database { path: Seq<char>, namespace: Seq<char> },
    Delimited { path: Seq<char>, table: Seq<char>, contents: Seq<u8> },
    Unreadable { path: Seq<char>, complaint: Seq<char> },
    Invalid { path: Seq<char>, complaint: Seq<char> },
}

impl View for FileInput {
    type V = FileInputView;

    open spec fn view(&self) -> FileInputView {
        match *self {
            FileInput::Database { path, namespace } => FileInputView::Database {
                path: path@,
                namespace: namespace@,
            },
            FileInput::Delimited { path, table, contents } => FileInputView::Delimited {
                path: path@,
                table: table@,
                contents: contents@,
            },
            FileInput::Unreadable { path, complaint } => FileInputView::Unreadable {
                path: path@,
                complaint: complaint@,
            },
            FileInput::Invalid { path, complaint } => FileInputView::Invalid { path: path@, complaint: complaint@ },
        }
    }
}

impl DeepView for FileInput {
    type V = FileInputView;

    open spec fn deep_view(&self) -> FileInputView {
        self@
    }
}

/// What the reader makes of a stream under the sample size of this library.
pub open spec fn table_read(data: Seq<u8>) -> Option<FrameView> {
    delimited_text(data, SAMPLE_ROWS as nat)
}

/// The tables that one file gives: one table for a file of delimited text
/// that the reader accepts, and none for any other file.
pub open spec fn file_tables(file: FileInputView) -> Seq<TableRecordView> {
    match file {
        FileInputView::Delimited { table, contents, .. } => match table_read(contents) {
            Some(frame) => seq![record_of(table, frame)],
            None => Seq::empty(),
        },
        _ => Seq::empty(),
    }
}

/// The namespaces that one file gives: one for a database file, and none for
/// any other file.
pub open spec fn file_namespaces(file: FileInputView) -> Seq<Seq<char>> {
    match file {
        FileInputView::Database { namespace, .. } => seq![namespace],
        _ => Seq::empty(),
    }
}

/// The statements that the engine accepts when one file is loaded: the one
/// that attaches a database file, and those that load the table that the
/// reader makes of a file of delimited text.
pub open spec fn file_statements(file: FileInputView) -> Seq<StatementView> {
    match file {
        FileInputView::Database { path, namespace } => seq![attach_statement(path, namespace)],
        FileInputView::Delimited { table, contents, .. } => match table_read(contents) {
            Some(frame) => load_statements(table, frame),
            None => Seq::empty(),
        },
        FileInputView::Unreadable { .. } => Seq::empty(),
        FileInputView::Invalid { .. } => Seq::empty(),
    }
}

/// The tables that the files give, in the order of the files.
pub open spec fn tables_of(files: Seq<FileInputView>) -> Seq<TableRecordView>
    decreases files.len(),
{
    if files.len() == 0 {
        Seq::empty()
    } else {
        tables_of(files.drop_last()) + file_tables(files.last())
    }
}

/// The namespaces that the files give, in the order of the files.
pub open spec fn namespaces_of(files: Seq<FileInputView>) -> Seq<Seq<char>>
    decreases files.len(),
{
    if files.len() == 0 {
        Seq::empty()
    } else {
        namespaces_of(files.drop_last()) + file_namespaces(files.last())
    }
}

/// The statements that the engine accepts when the files are loaded, in the
/// order of the files.
pub open spec fn statements_of(files: Seq<FileInputView>) -> Seq<StatementView>
    decreases files.len(),
{
    if files.len() == 0 {
        Seq::empty()
    } else {
        statements_of(files.drop_last()) + file_statements(files.last())
    }
}

/// The store after the files were loaded into it, one after the other.
#[verifier::opaque]
pub open spec fn after(before: StoreView, files: Seq<FileInputView>) -> StoreView {
    StoreView {
        tables: before.tables + tables_of(files),
        attached: before.attached + namespaces_of(files),
        accepted: before.accepted + statements_of(files),
    }
}

/// What loading one file does to a store, and how it can fail: a database
/// file is attached as [`attach_result`] says, and delimited text is loaded
/// as [`delimited_result`] says. A file that could not be read is an
/// `IoError` with the complaint of the read, and a path that could not be
/// resolved an `InvalidArgument` with the complaint of that; the store stays
/// as it is then.
#[verifier::opaque]
pub open spec fn file_result(
    before: StoreView,
    after: StoreView,
    file: FileInputView,
    failure: Option<FailureView>,
) -> bool {
    match file {
        FileInputView::Database { path, namespace } => attach_result(before, after, path, namespace, failure),
        FileInputView::Delimited { table, contents, .. } => delimited_result(before, after, table, contents, failure),
        FileInputView::Unreadable { complaint, .. } => failure == Some(FailureView::IoError(complaint)) && after
            == before,
        FileInputView::Invalid { complaint, .. } => failure == Some(FailureView::InvalidArgument(complaint))
            && after == before,
    }
}

/// The tables of standard input as sources: delimited text, the same bytes
/// under each name, in the order of the names.
pub open spec fn stream_files(names: Seq<StdinTableView>, data: Seq<u8>) -> Seq<FileInputView> {
    Seq::new(
        names.len(),
        |j: int| FileInputView::Delimited { path: names[j].source, table: names[j].name, contents: data },
    )
}

/// The tables that one stream gives under several names: for each name the
/// same columns and the same number of rows.
pub open spec fn stream_tables(names: Seq<StdinTableView>, data: Seq<u8>) -> Seq<TableRecordView> {
    match table_read(data) {
        Some(frame) => Seq::new(names.len(), |i: int| record_of(names[i].name, frame)),
        None => Seq::empty(),
    }
}

/// Whether the tables of standard input are loaded: there are some, standard
/// input is no terminal, and it held data.
pub open spec fn reads_stdin(names: Seq<StdinTableView>, is_terminal: bool, data: Seq<u8>) -> bool {
    names.len() > 0 && !is_terminal && data.len() > 0
}

/// Whether tables were asked of standard input and nothing was piped.
pub open spec fn lacks_data(names: Seq<StdinTableView>, is_terminal: bool, data: Seq<u8>) -> bool {
    names.len() > 0 && !is_terminal && data.len() == 0
}

/// The sources of a run in the order in which they are loaded: the files,
/// and after them the tables of standard input, if that is read.
pub open spec fn sources(
    files: Seq<FileInputView>,
    names: Seq<StdinTableView>,
    is_terminal: bool,
    data: Seq<u8>,
) -> Seq<FileInputView> {
    files + if reads_stdin(names, is_terminal, data) {
        stream_files(names, data)
    } else {
        Seq::empty()
    }
}

/// Whether the first `k` sources were loaded, each into the store that the
/// sources before it had left.
#[verifier::opaque]
pub open spec fn loaded(before: StoreView, sources: Seq<FileInputView>, k: int) -> bool {
    forall|i: int|
        0 <= i < k ==> file_result(
            after(before, sources.take(i)),
            after(before, sources.take(i + 1)),
            #[trigger] sources[i],
            None,
        )
}

/// Whether a load stopped at source `k` with the failure `e`: the sources
/// before it were loaded, and then either source `k` failed with `e` and
/// left the store as `stopped` says of it, or there was no source left and
/// `e` tells that standard input lacked the data that was asked of it.
#[verifier::opaque]
pub open spec fn stopped(
    before: StoreView,
    after_it: StoreView,
    sources: Seq<FileInputView>,
    lacking: bool,
    k: int,
    e: FailureView,
) -> bool {
    &&& 0 <= k <= sources.len()
    &&& loaded(before, sources, k)
    &&& if k == sources.len() {
        lacking && e is MissingStdinData && after_it == after(before, sources)
    } else {
        file_result(after(before, sources.take(k)), after_it, sources[k], Some(e))
    }
}

/// Whether standard input is to be read for the tables that were asked of
/// it: there are such tables, and standard input is no terminal.
pub fn needs_stdin_data(stdin_tables: usize, is_terminal: bool) -> (yes: bool)
    ensures
        yes == (stdin_tables > 0 && !is_terminal),
{
    stdin_tables > 0 && !is_terminal
}

/// What a load has to report beside its success.
#[derive(Clone, Copy, Debug, PartialEq, Eq, Structural)]
pub struct LoadReport {
    /// Tables of standard input were asked for, but standard input is a
    /// terminal: they were left out.
    pub stdin_pending: bool,
}

/// Loads one file into the store: attaches a database file, and creates a
/// table from delimited text; what happens is what [`file_result`] says.
pub fn load_file(store: &mut FederatedStore, file: &FileInput) -> (out: Result<(), Failure>)
    requires
        old(store).wf(),
    ensures
        final(store).wf(),
        final(store).engine() == old(store).engine(),
        file_result(old(store).state(), final(store).state(), file@, failed(out)),
{
    proof {
        reveal(file_result);
    }
    match file {
        FileInput::Database { path, namespace } => store.attach(path.as_str(), namespace.as_str()),
        FileInput::Delimited { path, table, contents } => store.load_delimited(table.as_str(), contents.as_slice()),
        FileInput::Unreadable { path, complaint } => Err(Failure::IoError(complaint.clone())),
        FileInput::Invalid { path, complaint } => Err(Failure::InvalidArgument(complaint.clone())),
    }
}

/// Before any source is loaded the store is as it was, and no source counts
/// as loaded.
pub proof fn none_loaded(before: StoreView, sources: Seq<FileInputView>)
    ensures
        after(before, sources.take(0)) == before,
        loaded(before, sources, 0),
{
    reveal(after);
    reveal(loaded);
    assert(sources.take(0) =~= Seq::<FileInputView>::empty());
    let now = after(before, sources.take(0));
    assert(now.tables =~= before.tables);
    assert(now.attached =~= before.attached);
    assert(now.accepted =~= before.accepted);
}

/// A source that was loaded leaves the store that all sources up to it give.
pub proof fn leaves_what_it_gives(before: StoreView, sources: Seq<FileInputView>, i: int, left: StoreView)
    requires
        0 <= i < sources.len(),
        file_result(after(before, sources.take(i)), left, sources[i], None),
    ensures
        left == after(before, sources.take(i + 1)),
{
    reveal(after);
    reveal(file_result);
    let upto = sources.take(i + 1);
    assert(upto.drop_last() =~= sources.take(i));
    assert(upto.last() == sources[i]);
    let now = after(before, upto);
    assert(left.tables =~= now.tables);
    assert(left.attached =~= now.attached);
    assert(left.accepted =~= now.accepted);
}

/// A source that was loaded after the sources before it counts as loaded
/// with them.
pub proof fn one_more_loaded(before: StoreView, sources: Seq<FileInputView>, i: int, left: StoreView)
    requires
        0 <= i < sources.len(),
        loaded(before, sources, i),
        file_result(after(before, sources.take(i)), left, sources[i], None),
    ensures
        left == after(before, sources.take(i + 1)),
        loaded(before, sources, i + 1),
{
    leaves_what_it_gives(before, sources, i, left);
    reveal(loaded);
}

/// A load that fails at a source has stopped there.
pub proof fn stopped_at_source(
    before: StoreView,
    after_it: StoreView,
    sources: Seq<FileInputView>,
    lacking: bool,
    k: int,
    e: FailureView,
)
    requires
        0 <= k < sources.len(),
        loaded(before, sources, k),
        file_result(after(before, sources.take(k)), after_it, sources[k], Some(e)),
    ensures
        stopped(before, after_it, sources, lacking, k, e),
{
    reveal(stopped);
}

/// A load that lacks the data of standard input has stopped after the last
/// source.
pub proof fn stopped_for_want_of_data(before: StoreView, sources: Seq<FileInputView>, e: FailureView)
    requires
        loaded(before, sources, sources.len() as int),
        e is MissingStdinData,
    ensures
        stopped(before, after(before, sources), sources, true, sources.len() as int, e),
{
    reveal(stopped);
}

/// Delimited text that is loaded under a name is a source that is loaded.
pub proof fn delimited_is_a_source(
    before: StoreView,
    after_it: StoreView,
    path: Seq<char>,
    table: Seq<char>,
    data: Seq<u8>,
    failure: Option<FailureView>,
)
    requires
        delimited_result(before, after_it, table, data, failure),
    ensures
        file_result(before, after_it, FileInputView::Delimited { path, table, contents: data }, failure),
{
    reveal(file_result);
}

/// Loads every source of a run: the files in their order, then one table for
/// each name on standard input, all from the same bytes.
///
/// The first source that fails ends the load with its failure, and nothing
/// after it is loaded. Tables of standard input with nothing piped are a
/// [`Failure::MissingStdinData`] once the files are loaded, unless standard
/// input is a terminal: then they are left out, and the report says so.
#[verifier::loop_isolation(false)]
pub fn load_all_data(
    store: &mut FederatedStore,
    files: &Vec<FileInput>,
    stdin_tables: &Vec<StdinTable>,
    is_terminal: bool,
    stdin_data: &[u8],
) -> (out: Result<LoadReport, Failure>)
    requires
        old(store).wf(),
    ensures
        final(store).wf(),
        final(store).engine() == old(store).engine(),
        files.len() == 0 && (stdin_tables.len() == 0 || is_terminal) ==> out is Ok && final(store).state() == old(
            store,
        ).state(),
        files.len() == 0 && lacks_data(stdin_tables.deep_view(), is_terminal, stdin_data@) ==> (out matches Err(e)
            && e is MissingStdinData) && final(store).state() == old(store).state(),
        match out {
            Ok(report) => {
                let all = sources(files.deep_view(), stdin_tables.deep_view(), is_terminal, stdin_data@);
                &&& !lacks_data(stdin_tables.deep_view(), is_terminal, stdin_data@)
                &&& loaded(old(store).state(), all, all.len() as int)
                &&& final(store).state() == after(old(store).state(), all)
                &&& report.stdin_pending == (stdin_tables.len() > 0 && is_terminal)
            },
            Err(e) => exists|k: int| #[trigger]
                stopped(
                    old(store).state(),
                    final(store).state(),
                    sources(files.deep_view(), stdin_tables.deep_view(), is_terminal, stdin_data@),
                    lacks_data(stdin_tables.deep_view(), is_terminal, stdin_data@),
                    k,
                    e@,
                ),
        },
{
    let ghost start = store.state();
    let ghost names = stdin_tables.deep_view();
    let ghost all = sources(files.deep_view(), names, is_terminal, stdin_data@);
    let ghost lacking = lacks_data(names, is_terminal, stdin_data@);
    proof {
        none_loaded(start, all);
    }
    let mut i: usize = 0;
    while i < files.len()
        invariant
            i <= files.len(),
            store.wf(),
            store.engine() == old(store).engine(),
            loaded(start, all, i as int),
            store.state() == after(start, all.take(i as int)),
        decreases files.len() - i,
    {
        assert(all[i as int] == files@[i as int]@);
        match load_file(store, &files[i]) {
            Ok(()) => {
                proof {
                    one_more_loaded(start, all, i as int, store.state());
                }
            },
            Err(e) => {
                proof {
                    stopped_at_source(start, store.state(), all, lacking, i as int, e@);
                }
                return Err(e);
            },
        }
        i += 1;
    }
    if stdin_tables.len() == 0 || is_terminal {
        assert(all.take(files.len() as int) =~= all);
        return Ok(LoadReport { stdin_pending: stdin_tables.len() > 0 });
    }
    if stdin_data.len() == 0 {
        assert(all.take(files.len() as int) =~= all);
        let e = Failure::MissingStdinData;
        proof {
            stopped_for_want_of_data(start, all, e@);
        }
        return Err(e);
    }
    let mut j: usize = 0;
    while j < stdin_tables.len()
        invariant
            j <= stdin_tables.len(),
            store.wf(),
            store.engine() == old(store).engine(),
            loaded(start, all, files.len() + j),
            store.state() == after(start, all.take(files.len() + j)),
        decreases stdin_tables.len() - j,
    {
        assert(all[files.len() + j] == stream_files(names, stdin_data@)[j as int]);
        assert(names[j as int] == stdin_tables@[j as int]@);
        let ghost prev = store.state();
        let loading = store.load_delimited(stdin_tables[j].name.as_str(), stdin_data);
        proof {
            delimited_is_a_source(
                prev,
                store.state(),
                names[j as int].source,
                names[j as int].name,
                stdin_data@,
                failed(loading),
            );
        }
        match loading {
            Ok(()) => {
                proof {
                    one_more_loaded(start, all, files.len() + j, store.state());
                }
            },
            Err(e) => {
                proof {
                    stopped_at_source(start, store.state(), all, lacking, files.len() + j, e@);
                }
                return Err(e);
            },
        }
        j += 1;
    }
    assert(all.take(files.len() + stdin_tables.len()) =~= all);
    Ok(LoadReport { stdin_pending: false })
}

/// One stream under several names gives one table for each name, with the
/// record that the stream gives under that name.
pub proof fn stream_gives_its_tables(names: Seq<StdinTableView>, data: Seq<u8>)
    requires
        table_read(data) is Some,
    ensures
        tables_of(stream_files(names, data)) == stream_tables(names, data),
    decreases names.len(),
{
    if names.len() > 0 {
        stream_gives_its_tables(names.drop_last(), data);
        assert(stream_files(names, data).drop_last() =~= stream_files(names.drop_last(), data));
        assert(tables_of(stream_files(names, data)) =~= stream_tables(names, data));
    } else {
        assert(tables_of(stream_files(names, data)) =~= stream_tables(names, data));
    }
}

/// One stream, loaded under two names, gives two tables with the same
/// columns and the same number of rows.
pub proof fn same_stream_same_shape(names: Seq<StdinTableView>, data: Seq<u8>, a: int, b: int)
    requires
        table_read(data) is Some,
        0 <= a < names.len(),
        0 <= b < names.len(),
    ensures
        tables_of(stream_files(names, data)).len() == names.len(),
        tables_of(stream_files(names, data))[a].name == names[a].name,
        tables_of(stream_files(names, data))[b].name == names[b].name,
        tables_of(stream_files(names, data))[a].columns == tables_of(stream_files(names, data))[b].columns,
        tables_of(stream_files(names, data))[a].rows == tables_of(stream_files(names, data))[b].rows,
{
    stream_gives_its_tables(names, data);
}

} // verus!
