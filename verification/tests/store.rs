use fedquery::catalog::{
    columns_from, render_schemas, schema_warnings, show_schemas, table_names_from, table_names_sql,
    ColumnListing, TableListing,
};
use fedquery::encode::OutputFormat;
use fedquery::failure::Failure;
use fedquery::frame::{read_failure, read_frame, Frame};
use fedquery::loader::{load_all_data, load_file, needs_stdin_data, resolve, FileInput, LoadReport};
use fedquery::query::{compile_query, names_query_file, run_query};
use fedquery::result::{Cell, ResultSet};
use fedquery::schema::{
    bind, coerce, inferred_type, storage_class, to_sql_value, Column, ColumnKind, InferredType, SourceValue, SqlValue,
    StorageClass,
};
use fedquery::source::StdinTable;
use fedquery::sql::{attach_sql, create_table_sql, insert_sql, table_info_sql};
use fedquery::store::{all_text, copy_columns, FederatedStore};

const PEOPLE: &[u8] = b"name,age\nAlice,30\nBob,25";

fn column(name: &str, inferred: InferredType) -> Column {
    Column { name: name.to_string(), inferred }
}

fn table(name: &str) -> StdinTable {
    StdinTable { name: name.to_string(), source: "stdin".to_string() }
}

fn count(store: &FederatedStore, table: &str) -> Cell {
    store.query(&format!("SELECT COUNT(*) FROM '{}'", table)).unwrap().rows[0][0].clone()
}

#[test]
fn people_frame() {
    let frame = read_frame(b"name,age\nAlice,30\nBob,25\n").unwrap();
    assert_eq!(frame.columns, vec![column("name", InferredType::Text), column("age", InferredType::Integer)]);
    assert_eq!(
        frame.rows,
        vec![
            vec![SourceValue::Text("Alice".to_string()), SourceValue::Int64(30)],
            vec![SourceValue::Text("Bob".to_string()), SourceValue::Int64(25)],
        ]
    );
}

#[test]
fn header_gives_the_columns_in_order() {
    let frame = read_frame(b"h1,h2,h3,h4\n1,2,3,4\n").unwrap();
    let names: Vec<&str> = frame.columns.iter().map(|c| c.name.as_str()).collect();
    assert_eq!(names, vec!["h1", "h2", "h3", "h4"]);
    let mut store = FederatedStore::open().unwrap();
    store.load_frame("t", &frame).unwrap();
    assert_eq!(store.records()[0].columns.len(), 4);
    let listed = store.list_tables().unwrap();
    let listed_names: Vec<&str> = listed[0].columns.iter().map(|c| c.name.as_str()).collect();
    assert_eq!(listed_names, vec!["h1", "h2", "h3", "h4"]);
}

#[test]
fn every_kind_of_cell() {
    let frame = read_frame(b"a,b,c,d,e\n1,1.5,true,x,\n2,2,false,,\n").unwrap();
    let kinds: Vec<InferredType> = frame.columns.iter().map(|c| c.inferred).collect();
    assert_eq!(
        kinds,
        vec![InferredType::Integer, InferredType::Real, InferredType::Boolean, InferredType::Text, InferredType::Text]
    );
    assert_eq!(
        frame.rows[0],
        vec![
            SourceValue::Int64(1),
            SourceValue::Real("1.5".to_string()),
            SourceValue::Boolean(true),
            SourceValue::Text("x".to_string()),
            SourceValue::Null,
        ]
    );
    assert_eq!(frame.rows[1][1], SourceValue::Real("2".to_string()));
    assert_eq!(frame.rows[1][3], SourceValue::Null);
}

#[test]
fn integers_in_the_sample_give_integer_storage() {
    let frame = read_frame(b"n\n1\n2\n3\n").unwrap();
    assert_eq!(frame.columns[0].inferred, InferredType::Integer);
    assert_eq!(storage_class(frame.columns[0].inferred), StorageClass::Integer);
}

#[test]
fn one_text_in_the_sample_gives_text() {
    let mut data = String::from("n\n1\nx\n");
    for i in 0..300 {
        data.push_str(&format!("{}\n", i));
    }
    let frame = read_frame(data.as_bytes()).unwrap();
    assert_eq!(frame.columns[0].inferred, InferredType::Text);
    assert_eq!(storage_class(frame.columns[0].inferred), StorageClass::Text);
    assert_eq!(frame.rows.len(), 302);
    assert_eq!(frame.rows[301], vec![SourceValue::Text("299".to_string())]);
}

#[test]
fn a_misfit_after_the_sample_is_null() {
    let mut data = String::from("n,m\n");
    for i in 0..150 {
        data.push_str(&format!("{},{}\n", i, i));
    }
    data.push_str("abc,7\n8,9\n");
    let frame = read_frame(data.as_bytes()).unwrap();
    assert_eq!(frame.columns[0].inferred, InferredType::Integer);
    assert_eq!(frame.rows.len(), 152);
    assert_eq!(frame.rows[150], vec![SourceValue::Null, SourceValue::Int64(7)]);
    assert_eq!(frame.rows[151], vec![SourceValue::Int64(8), SourceValue::Int64(9)]);
}

#[test]
fn empty_cells_do_not_change_the_type() {
    let frame = read_frame(b"n\n1\n\n3\n").unwrap();
    assert_eq!(frame.columns[0].inferred, InferredType::Integer);
    assert_eq!(frame.rows[1], vec![SourceValue::Null]);
}

#[test]
fn no_data_is_a_schema_error() {
    assert!(matches!(read_frame(b""), Err(Failure::SchemaError(_))));
    assert!(matches!(read_frame(b"\n"), Err(Failure::SchemaError(_))));
}

#[test]
fn too_many_fields_is_a_parse_error() {
    assert!(matches!(read_frame(b"a,b\n1,2,3\n"), Err(Failure::ParseError(_))));
}

#[test]
fn header_alone_is_an_empty_table() {
    let frame = read_frame(b"a,b\n").unwrap();
    assert_eq!(frame.columns.len(), 2);
    assert!(frame.rows.is_empty());
}

#[test]
fn reader_complaints_are_sorted() {
    assert_eq!(read_failure(true, "x".to_string()), Failure::SchemaError("x".to_string()));
    assert_eq!(read_failure(false, "x".to_string()), Failure::ParseError("x".to_string()));
}

#[test]
fn type_mapping() {
    assert_eq!(storage_class(InferredType::Integer), StorageClass::Integer);
    assert_eq!(storage_class(InferredType::Real), StorageClass::Real);
    assert_eq!(storage_class(InferredType::Text), StorageClass::Text);
    assert_eq!(storage_class(InferredType::Boolean), StorageClass::Integer);
    assert_eq!(storage_class(InferredType::Blob), StorageClass::Blob);
    assert_eq!(storage_class(InferredType::Other), StorageClass::Text);
    assert_eq!(StorageClass::Integer.name(), "INTEGER");
    assert_eq!(StorageClass::Real.name(), "REAL");
    assert_eq!(StorageClass::Text.name(), "TEXT");
    assert_eq!(StorageClass::Blob.name(), "BLOB");
}

#[test]
fn reader_types_are_sorted() {
    for kind in [
        ColumnKind::Int8, ColumnKind::Int16, ColumnKind::Int32, ColumnKind::Int64,
        ColumnKind::UInt8, ColumnKind::UInt16, ColumnKind::UInt32, ColumnKind::UInt64,
    ] {
        assert_eq!(inferred_type(kind), InferredType::Integer);
        assert_eq!(storage_class(inferred_type(kind)).name(), "INTEGER");
    }
    for kind in [ColumnKind::Float32, ColumnKind::Float64, ColumnKind::Decimal] {
        assert_eq!(storage_class(inferred_type(kind)).name(), "REAL");
    }
    for kind in [ColumnKind::Date, ColumnKind::Datetime, ColumnKind::Time, ColumnKind::String, ColumnKind::List, ColumnKind::Other] {
        assert_eq!(storage_class(inferred_type(kind)).name(), "TEXT");
    }
    assert_eq!(inferred_type(ColumnKind::Boolean), InferredType::Boolean);
    assert_eq!(storage_class(inferred_type(ColumnKind::Boolean)).name(), "INTEGER");
    assert_eq!(inferred_type(ColumnKind::String), InferredType::Text);
    assert_eq!(inferred_type(ColumnKind::Binary), InferredType::Blob);
    assert_eq!(storage_class(inferred_type(ColumnKind::Binary)).name(), "BLOB");
}

#[test]
fn stored_values() {
    assert_eq!(to_sql_value(&SourceValue::Null), SqlValue::Null);
    assert_eq!(to_sql_value(&SourceValue::Int64(-3)), SqlValue::Integer(-3));
    assert_eq!(to_sql_value(&SourceValue::Int8(-3)), SqlValue::Integer(-3));
    assert_eq!(to_sql_value(&SourceValue::Int16(i16::MIN)), SqlValue::Integer(-32768));
    assert_eq!(to_sql_value(&SourceValue::Int32(7)), SqlValue::Integer(7));
    assert_eq!(to_sql_value(&SourceValue::UInt8(255)), SqlValue::Integer(255));
    assert_eq!(to_sql_value(&SourceValue::UInt16(65535)), SqlValue::Integer(65535));
    assert_eq!(to_sql_value(&SourceValue::UInt32(u32::MAX)), SqlValue::Integer(4294967295));
    assert_eq!(to_sql_value(&SourceValue::UInt64(5)), SqlValue::Integer(5));
    assert_eq!(to_sql_value(&SourceValue::UInt64(i64::MAX as u64)), SqlValue::Integer(i64::MAX));
    assert_eq!(to_sql_value(&SourceValue::UInt64(i64::MAX as u64 + 1)), SqlValue::Null);
    assert_eq!(to_sql_value(&SourceValue::UInt64(u64::MAX)), SqlValue::Null);
    assert_eq!(to_sql_value(&SourceValue::Real("2.5".to_string())), SqlValue::Real("2.5".to_string()));
    assert_eq!(to_sql_value(&SourceValue::Boolean(true)), SqlValue::Integer(1));
    assert_eq!(to_sql_value(&SourceValue::Boolean(false)), SqlValue::Integer(0));
    assert_eq!(to_sql_value(&SourceValue::Text("t".to_string())), SqlValue::Text("t".to_string()));
    assert_eq!(to_sql_value(&SourceValue::Other("2024-01-01".to_string())), SqlValue::Text("2024-01-01".to_string()));
}

#[test]
fn statement_texts() {
    let columns = vec![column("name", InferredType::Text), column("ok", InferredType::Boolean), column("x", InferredType::Real)];
    assert_eq!(create_table_sql("people", &columns), "CREATE TABLE 'people' ('name' TEXT, 'ok' INTEGER, 'x' REAL)");
    assert_eq!(create_table_sql("t", &vec![]), "CREATE TABLE 't' ()");
    assert_eq!(insert_sql("people", 3), "INSERT INTO 'people' VALUES (?, ?, ?)");
    assert_eq!(insert_sql("people", 1), "INSERT INTO 'people' VALUES (?)");
    assert_eq!(insert_sql("people", 0), "INSERT INTO 'people' VALUES ()");
    assert_eq!(attach_sql("dir/data.db", "data"), "ATTACH DATABASE 'dir/data.db' AS 'data'");
    assert_eq!(table_info_sql("it's"), "PRAGMA table_info('it''s')");
    assert_eq!(copy_columns(&columns), columns);
    assert_eq!(create_table_sql("it's", &vec![column("o'k", InferredType::Text)]), "CREATE TABLE 'it''s' ('o''k' TEXT)");
    assert_eq!(insert_sql("t' (x) --", 1), "INSERT INTO 't'' (x) --' VALUES (?)");
    assert_eq!(attach_sql("a'b.db", "n's"), "ATTACH DATABASE 'a''b.db' AS 'n''s'");
}

#[test]
fn people_older_than_26() {
    let mut store = FederatedStore::open().unwrap();
    store.load_delimited("people", PEOPLE).unwrap();
    let lines = run_query(&store, "from people | filter age > 26 | select {name}", OutputFormat::Csv, false).unwrap();
    assert_eq!(lines, vec!["name", "Alice"]);
}

#[test]
fn show_sql_gives_the_sql_only() {
    let store = FederatedStore::open().unwrap();
    let lines = run_query(&store, "from people | select {name}", OutputFormat::Csv, true).unwrap();
    assert_eq!(lines.len(), 1);
    assert_eq!(lines[0], compile_query("from people | select {name}").unwrap());
    assert!(lines[0].contains("SELECT"));
    assert!(lines[0].contains("people"));
    assert_ne!(lines[0], "from people | select {name}");
}

#[test]
fn a_bad_query_is_a_compile_error() {
    assert!(matches!(compile_query("from people | filter"), Err(Failure::CompileError(_))));
    let store = FederatedStore::open().unwrap();
    assert!(matches!(run_query(&store, "from people | filter", OutputFormat::Table, false), Err(Failure::CompileError(_))));
}

#[test]
fn a_missing_table_is_an_execution_error() {
    let store = FederatedStore::open().unwrap();
    let out = run_query(&store, "from nowhere | select {a}", OutputFormat::Table, false);
    assert!(matches!(out, Err(Failure::ExecutionError(_))));
    assert!(matches!(store.query("select"), Err(Failure::ExecutionError(_))));
}

#[test]
fn query_files_end_in_prql() {
    assert!(names_query_file("q.prql"));
    assert!(names_query_file(".prql"));
    assert!(!names_query_file("q.sql"));
    assert!(!names_query_file("prql"));
    assert!(!names_query_file("from t"));
}

#[test]
fn loading_keeps_the_number_of_rows() {
    let mut data = String::from("id,label\n");
    for i in 0..250 {
        data.push_str(&format!("{},row{}\n", i, i));
    }
    let mut store = FederatedStore::open().unwrap();
    store.load_delimited("big", data.as_bytes()).unwrap();
    assert_eq!(store.records()[0].rows, 250);
    let all = store.query("SELECT * FROM big").unwrap();
    assert_eq!(all.rows.len(), 250);
    assert_eq!(all.columns, vec!["id", "label"]);
    assert_eq!(all.rows[249], vec![Cell::Integer(249), Cell::Text("row249".to_string())]);
}

#[test]
fn values_arrive_in_their_storage_class() {
    let mut store = FederatedStore::open().unwrap();
    store.load_delimited("t", b"i,r,b,s\n1,1.5,true,x\n,,,\n").unwrap();
    let rs = store.query("SELECT i, r, b, s, typeof(r) FROM t").unwrap();
    assert_eq!(
        rs.rows[0],
        vec![Cell::Integer(1), Cell::Real("1.5".to_string()), Cell::Integer(1), Cell::Text("x".to_string()), Cell::Text("real".to_string())]
    );
    assert_eq!(rs.rows[1][0], Cell::Null);
    assert_eq!(rs.rows[1][1], Cell::Null);
    assert_eq!(rs.rows[1][3], Cell::Null);
}

#[test]
fn every_cell_kind_comes_back() {
    let store = FederatedStore::open().unwrap();
    let rs = store.query("SELECT 1 AS i, 2.5 AS r, 'x' AS t, x'00ff' AS b, NULL AS n, CAST(x'ff41' AS TEXT) AS bad").unwrap();
    assert_eq!(rs.columns, vec!["i", "r", "t", "b", "n", "bad"]);
    assert_eq!(
        rs.rows,
        vec![vec![
            Cell::Integer(1),
            Cell::Real("2.5".to_string()),
            Cell::Text("x".to_string()),
            Cell::Blob,
            Cell::Null,
            Cell::Text("\u{fffd}A".to_string()),
        ]]
    );
}

#[test]
fn a_table_name_is_taken_once() {
    let mut store = FederatedStore::open().unwrap();
    store.load_delimited("people", PEOPLE).unwrap();
    assert_eq!(store.load_delimited("people", PEOPLE), Err(Failure::DuplicateTable("people".to_string())));
    assert_eq!(Failure::DuplicateTable("people".to_string()).message(), "Table already exists: people");
    assert_eq!(store.records().len(), 1);
    assert!(store.has_table("people"));
    assert!(store.has_table("People"));
    assert!(!store.has_table("peoples"));
    assert_eq!(store.load_delimited("PEOPLE", PEOPLE), Err(Failure::DuplicateTable("PEOPLE".to_string())));
    assert_eq!(count(&store, "people"), Cell::Integer(2));
}

#[test]
fn names_with_quotes_are_names_only() {
    let mut store = FederatedStore::open().unwrap();
    store.load_delimited("t' (x) --", b"a'b,c\n1,2\n").unwrap();
    let listed = store.list_tables().unwrap();
    assert_eq!(listed.len(), 1);
    assert_eq!(listed[0].name, "t' (x) --");
    let names: Vec<&str> = listed[0].columns.iter().map(|c| c.name.as_str()).collect();
    assert_eq!(names, vec!["a'b", "c"]);
    assert_eq!(store.records()[0].name, "t' (x) --");
    assert_eq!(store.query("SELECT COUNT(*) FROM 't'' (x) --'").unwrap().rows[0][0], Cell::Integer(1));
}

#[test]
fn a_frame_without_columns_is_a_schema_error() {
    let mut store = FederatedStore::open().unwrap();
    let frame = Frame { columns: vec![], rows: vec![] };
    assert!(matches!(store.load_frame("t", &frame), Err(Failure::SchemaError(_))));
    assert!(store.records().is_empty());
}

#[test]
fn the_engine_can_reject_a_load() {
    let mut store = FederatedStore::open().unwrap();
    let frame = Frame { columns: vec![column("a", InferredType::Integer), column("a", InferredType::Integer)], rows: vec![] };
    assert!(matches!(store.load_frame("t", &frame), Err(Failure::ExecutionError(_))));
    assert!(store.records().is_empty());
}

#[test]
fn attaching_a_missing_database_is_up_to_the_engine() {
    let mut store = FederatedStore::open().unwrap();
    let out = store.attach("/nonexistent-dir-for-this-test/data.db", "data");
    assert!(matches!(out, Err(Failure::ExecutionError(_))));
    assert!(store.namespaces().is_empty());
    assert!(!store.has_namespace("data"));
}

#[test]
fn two_names_on_one_stream_give_equal_tables() {
    let mut store = FederatedStore::open().unwrap();
    let names = vec![table("a"), table("b")];
    let report = load_all_data(&mut store, &vec![], &names, false, PEOPLE).unwrap();
    assert_eq!(report, LoadReport { stdin_pending: false });
    let records = store.records();
    assert_eq!(records.len(), 2);
    assert_eq!(records[0].name, "a");
    assert_eq!(records[1].name, "b");
    assert_eq!(records[0].columns, records[1].columns);
    assert_eq!(records[0].rows, records[1].rows);
    assert_eq!(count(&store, "a"), Cell::Integer(2));
    assert_eq!(count(&store, "b"), Cell::Integer(2));
    let listed = store.list_tables().unwrap();
    assert_eq!(listed[0].columns, listed[1].columns);
}

#[test]
fn stdin_is_read_for_its_tables_off_a_terminal() {
    assert!(needs_stdin_data(1, false));
    assert!(!needs_stdin_data(1, true));
    assert!(!needs_stdin_data(0, false));
}

#[test]
fn missing_piped_data_is_an_error() {
    let mut store = FederatedStore::open().unwrap();
    let out = load_all_data(&mut store, &vec![], &vec![table("a")], false, b"");
    assert_eq!(out, Err(Failure::MissingStdinData));
    assert_eq!(Failure::MissingStdinData.message(), "Stdin tables specified, but no data received from stdin");
}

#[test]
fn on_a_terminal_stdin_tables_are_left_out() {
    let mut store = FederatedStore::open().unwrap();
    let out = load_all_data(&mut store, &vec![], &vec![table("a")], true, b"");
    assert_eq!(out, Ok(LoadReport { stdin_pending: true }));
    assert!(store.records().is_empty());
}

#[test]
fn files_are_loaded_in_order() {
    let mut store = FederatedStore::open().unwrap();
    let files = vec![
        FileInput::Delimited { path: "x/people.csv".to_string(), table: "people".to_string(), contents: PEOPLE.to_vec() },
        FileInput::Delimited { path: "pets.csv".to_string(), table: "pets".to_string(), contents: b"pet\ncat\n".to_vec() },
    ];
    let report = load_all_data(&mut store, &files, &vec![table("extra")], false, b"v\n1\n2\n3\n").unwrap();
    assert!(!report.stdin_pending);
    let names: Vec<&str> = store.records().iter().map(|r| r.name.as_str()).collect();
    assert_eq!(names, vec!["people", "pets", "extra"]);
    assert_eq!(store.records()[2].rows, 3);
}

#[test]
fn an_unreadable_file_is_an_io_error() {
    let mut store = FederatedStore::open().unwrap();
    let file = FileInput::Unreadable { path: "p.csv".to_string(), complaint: "permission denied".to_string() };
    assert_eq!(load_file(&mut store, &file), Err(Failure::IoError("permission denied".to_string())));
    let files = vec![
        FileInput::Delimited { path: "people.csv".to_string(), table: "people".to_string(), contents: PEOPLE.to_vec() },
        file,
        FileInput::Delimited { path: "pets.csv".to_string(), table: "pets".to_string(), contents: b"pet\ncat\n".to_vec() },
    ];
    let mut store = FederatedStore::open().unwrap();
    assert!(matches!(load_all_data(&mut store, &files, &vec![], true, b""), Err(Failure::IoError(_))));
    assert_eq!(store.records().len(), 1);
}

#[test]
fn schema_of_a_two_column_file() {
    let mut store = FederatedStore::open().unwrap();
    store.load_delimited("people", b"age,name\n30,Alice\n25,Bob").unwrap();
    let shown = show_schemas(&store).unwrap();
    assert_eq!(shown.lines, vec!["Table: people", "Columns:", "  age (INTEGER)", "  name (TEXT)", ""]);
    assert!(shown.lines.iter().all(|line| !line.contains("No tables found")));
    assert!(shown.warnings.is_empty());
}

#[test]
fn schema_of_an_empty_store() {
    let store = FederatedStore::open().unwrap();
    let shown = show_schemas(&store).unwrap();
    assert_eq!(shown.lines, vec!["No tables found in the database."]);
}

#[test]
fn tables_are_listed_by_name() {
    let mut store = FederatedStore::open().unwrap();
    store.load_delimited("zebra", b"z\n1\n").unwrap();
    store.load_delimited("apple", b"a\nx\n").unwrap();
    let listed = store.list_tables().unwrap();
    let names: Vec<&str> = listed.iter().map(|t| t.name.as_str()).collect();
    assert_eq!(names, vec!["apple", "zebra"]);
    assert_eq!(listed[0].columns, vec![ColumnListing { name: "a".to_string(), declared: "TEXT".to_string() }]);
    assert_eq!(listed[0].unreadable, 0);
}

#[test]
fn listings_as_text() {
    let bare = TableListing { name: "bare".to_string(), columns: vec![], unreadable: 0 };
    assert_eq!(render_schemas(&vec![bare.clone()]), vec!["Table: bare", "Columns:", "  (No columns found or error reading columns)", ""]);
    assert_eq!(render_schemas(&vec![]), vec!["No tables found in the database."]);
}

#[test]
fn unreadable_columns_are_warned_of() {
    let odd = TableListing { name: "odd".to_string(), columns: vec![], unreadable: 2 };
    let fine = TableListing { name: "fine".to_string(), columns: vec![], unreadable: 0 };
    assert_eq!(
        schema_warnings(&vec![fine, odd]),
        vec!["Error reading schema for column in table odd", "Error reading schema for column in table odd"]
    );
    assert!(schema_warnings(&vec![]).is_empty());
    assert!(table_names_sql().starts_with("SELECT name FROM sqlite_master"));
}

#[test]
fn engine_answers_are_read() {
    let names = ResultSet { columns: vec!["name".to_string()], rows: vec![vec![Cell::Text("t".to_string())]] };
    assert_eq!(table_names_from(&names), Ok(vec!["t".to_string()]));
    let odd = ResultSet { columns: vec!["name".to_string()], rows: vec![vec![Cell::Integer(1)]] };
    assert!(matches!(table_names_from(&odd), Err(Failure::ExecutionError(_))));
    let info = ResultSet {
        columns: vec!["cid".to_string(), "name".to_string(), "type".to_string()],
        rows: vec![
            vec![Cell::Integer(0), Cell::Text("a".to_string()), Cell::Text("INTEGER".to_string())],
            vec![Cell::Integer(1), Cell::Null, Cell::Text("TEXT".to_string())],
            vec![Cell::Integer(2), Cell::Text("c".to_string()), Cell::Text("".to_string())],
        ],
    };
    let (columns, unreadable) = columns_from(&info);
    assert_eq!(
        columns,
        vec![
            ColumnListing { name: "a".to_string(), declared: "INTEGER".to_string() },
            ColumnListing { name: "c".to_string(), declared: "".to_string() },
        ]
    );
    assert_eq!(unreadable, 1);
}

#[test]
fn failure_messages() {
    assert_eq!(Failure::InvalidArgument("bad".to_string()).message(), "bad");
    assert_eq!(Failure::FileNotFound("a.csv".to_string()).message(), "File not found: a.csv");
    assert_eq!(Failure::ParseError("p".to_string()).message(), "p");
    assert_eq!(Failure::SchemaError("s".to_string()).message(), "s");
    assert_eq!(Failure::CompileError("c".to_string()).message(), "c");
    assert_eq!(Failure::ExecutionError("e".to_string()).message(), "e");
    assert_eq!(Failure::IoError("io".to_string()).message(), "io");
}

#[test]
fn a_namespace_is_taken_once() {
    let mut store = FederatedStore::open().unwrap();
    assert_eq!(store.attach(":memory:", "aux"), Ok(()));
    assert_eq!(store.namespaces(), &vec!["aux".to_string()]);
    assert!(store.has_namespace("aux"));
    assert!(store.has_namespace("AUX"));
    assert_eq!(store.attach(":memory:", "Aux"), Err(Failure::DuplicateTable("Aux".to_string())));
    assert_eq!(store.attach(":memory:", "aux"), Err(Failure::DuplicateTable("aux".to_string())));
    assert_eq!(store.namespaces().len(), 1);
    let rs = store.query("SELECT COUNT(*) FROM aux.sqlite_master").unwrap();
    assert_eq!(rs.rows, vec![vec![Cell::Integer(0)]]);
    let conn = store.into_connection();
    conn.execute("CREATE TABLE aux.pets (pet TEXT)", []).unwrap();
}

#[test]
fn database_files_are_attached_under_their_stem() {
    let mut store = FederatedStore::open().unwrap();
    let files = vec![
        FileInput::Database { path: ":memory:".to_string(), namespace: "first".to_string() },
        FileInput::Delimited { path: "people.csv".to_string(), table: "people".to_string(), contents: PEOPLE.to_vec() },
        FileInput::Database { path: ":memory:".to_string(), namespace: "second".to_string() },
    ];
    load_all_data(&mut store, &files, &vec![], true, b"").unwrap();
    assert_eq!(store.namespaces(), &vec!["first".to_string(), "second".to_string()]);
    assert_eq!(store.records().len(), 1);
    assert_eq!(store.records()[0].name, "people");
}

#[test]
fn the_listing_is_the_engines() {
    let mut store = FederatedStore::open().unwrap();
    let frame = Frame {
        columns: vec![column("x", InferredType::Integer), column("y", InferredType::Other)],
        rows: vec![],
    };
    store.load_frame("extra", &frame).unwrap();
    let listed = store.list_tables().unwrap();
    assert_eq!(listed.len(), 1);
    assert_eq!(listed[0].name, "extra");
    assert_eq!(
        listed[0].columns,
        vec![
            ColumnListing { name: "x".to_string(), declared: "INTEGER".to_string() },
            ColumnListing { name: "y".to_string(), declared: "TEXT".to_string() },
        ]
    );
}

#[test]
fn a_statement_without_columns_is_no_query() {
    let store = FederatedStore::open().unwrap();
    let refused = Err(Failure::ExecutionError("the statement gives no columns: it is no query".to_string()));
    assert_eq!(store.query("CREATE TABLE t (x)"), refused);
    assert_eq!(store.query("ATTACH DATABASE ':memory:' AS other"), refused);
    assert!(store.list_tables().unwrap().is_empty());
    assert!(matches!(store.query("SELECT * FROM other.sqlite_master"), Err(Failure::ExecutionError(_))));
    assert!(matches!(store.query("SELECT * FROM t"), Err(Failure::ExecutionError(_))));
}

#[test]
fn text_that_was_no_utf8_is_told() {
    let fine = ResultSet {
        columns: vec!["name".to_string(), "sql".to_string()],
        rows: vec![vec![Cell::Text("t".to_string()), Cell::Text("CREATE TABLE t (a)".to_string())], vec![Cell::Null, Cell::Blob]],
    };
    assert!(!all_text(&fine));
    let plain = ResultSet {
        columns: vec!["name".to_string(), "sql".to_string()],
        rows: vec![vec![Cell::Text("t".to_string()), Cell::Text("CREATE TABLE t (a)".to_string())], vec![Cell::Text("i".to_string()), Cell::Null]],
    };
    assert!(all_text(&plain));
    let number = ResultSet { columns: vec!["sql".to_string()], rows: vec![vec![Cell::Integer(1)]] };
    assert!(!all_text(&number));
    let broken = ResultSet {
        columns: vec!["name".to_string(), "sql".to_string()],
        rows: vec![vec![Cell::Text("t".to_string()), Cell::Text("CREATE TABLE t (a\u{fffd})".to_string())]],
    };
    assert!(!all_text(&broken));
    assert!(all_text(&ResultSet { columns: vec![], rows: vec![] }));
}

#[test]
fn a_file_that_is_no_database_is_refused_when_it_is_attached() {
    let mut store = FederatedStore::open().unwrap();
    let out = store.attach("/nonexistent-dir-for-this-test/none.db", "gone");
    assert!(matches!(out, Err(Failure::ExecutionError(_))));
    assert!(store.namespaces().is_empty());
    store.attach(":memory:", "gone").unwrap();
    assert_eq!(store.namespaces(), &vec!["gone".to_string()]);
}

#[test]
fn two_files_of_one_stem_collide() {
    let mut store = FederatedStore::open().unwrap();
    let files = vec![
        FileInput::Delimited { path: "d1/x.csv".to_string(), table: "x".to_string(), contents: b"a\n1\n2\n".to_vec() },
        FileInput::Delimited { path: "d2/x.csv".to_string(), table: "x".to_string(), contents: b"b,c\n7,8\n".to_vec() },
        FileInput::Delimited { path: "y.csv".to_string(), table: "y".to_string(), contents: b"y\n1\n".to_vec() },
    ];
    let out = load_all_data(&mut store, &files, &vec![table("late")], false, PEOPLE);
    assert_eq!(out, Err(Failure::DuplicateTable("x".to_string())));
    assert_eq!(store.records().len(), 1);
    assert_eq!(store.records()[0].columns.len(), 1);
    assert_eq!(store.records()[0].rows, 2);
    assert_eq!(store.query("SELECT a FROM x").unwrap().rows, vec![vec![Cell::Integer(1)], vec![Cell::Integer(2)]]);
    assert!(matches!(store.query("SELECT * FROM y"), Err(Failure::ExecutionError(_))));
    assert!(matches!(store.query("SELECT * FROM late"), Err(Failure::ExecutionError(_))));
}

#[test]
fn nothing_to_load_is_no_failure() {
    let mut store = FederatedStore::open().unwrap();
    assert_eq!(load_all_data(&mut store, &vec![], &vec![], false, b"unread"), Ok(LoadReport { stdin_pending: false }));
    assert_eq!(load_all_data(&mut store, &vec![], &vec![], true, b""), Ok(LoadReport { stdin_pending: false }));
    assert!(store.records().is_empty());
}

#[test]
fn a_file_that_the_reader_rejects_ends_the_load() {
    let mut store = FederatedStore::open().unwrap();
    let files = vec![
        FileInput::Delimited { path: "bad.csv".to_string(), table: "bad".to_string(), contents: b"a,b\n1,2,3\n".to_vec() },
        FileInput::Delimited { path: "y.csv".to_string(), table: "y".to_string(), contents: b"y\n1\n".to_vec() },
    ];
    assert!(matches!(load_all_data(&mut store, &files, &vec![], true, b""), Err(Failure::ParseError(_))));
    assert!(store.records().is_empty());
}

#[test]
fn rows_come_in_the_order_of_the_engine() {
    let mut store = FederatedStore::open().unwrap();
    store.load_delimited("t", b"n\n3\n1\n2\n").unwrap();
    let rs = store.query("SELECT n FROM t ORDER BY n DESC").unwrap();
    assert_eq!(rs.rows, vec![vec![Cell::Integer(3)], vec![Cell::Integer(2)], vec![Cell::Integer(1)]]);
    let lines = run_query(&store, "from t", OutputFormat::Csv, false).unwrap();
    assert_eq!(lines, vec!["n", "3", "1", "2"]);
}

#[test]
fn values_are_coerced_to_the_class_of_their_column() {
    let text = |t: &str| SqlValue::Text(t.to_string());
    let real = |t: &str| SqlValue::Real(t.to_string());
    assert_eq!(coerce(SqlValue::Integer(5), StorageClass::Integer), SqlValue::Integer(5));
    assert_eq!(coerce(text("42"), StorageClass::Integer), SqlValue::Integer(42));
    assert_eq!(coerce(text("-7"), StorageClass::Integer), SqlValue::Integer(-7));
    assert_eq!(coerce(text("abc"), StorageClass::Integer), SqlValue::Null);
    assert_eq!(coerce(text("18446744073709551615"), StorageClass::Integer), SqlValue::Null);
    assert_eq!(coerce(text(""), StorageClass::Integer), SqlValue::Null);
    assert_eq!(coerce(real("1.5"), StorageClass::Integer), SqlValue::Null);
    assert_eq!(coerce(real("1.5"), StorageClass::Real), real("1.5"));
    assert_eq!(coerce(real("not a number"), StorageClass::Real), SqlValue::Null);
    assert_eq!(coerce(SqlValue::Integer(3), StorageClass::Real), real("3"));
    assert_eq!(coerce(text("2.5e3"), StorageClass::Real), real("2.5e3"));
    assert_eq!(coerce(text("x"), StorageClass::Real), SqlValue::Null);
    assert_eq!(coerce(SqlValue::Integer(-3), StorageClass::Text), text("-3"));
    assert_eq!(coerce(real("1.5"), StorageClass::Text), text("1.5"));
    assert_eq!(coerce(text("t"), StorageClass::Text), text("t"));
    assert_eq!(coerce(text("t"), StorageClass::Blob), text("t"));
    assert_eq!(coerce(SqlValue::Integer(1), StorageClass::Blob), SqlValue::Integer(1));
    for class in [StorageClass::Integer, StorageClass::Real, StorageClass::Text, StorageClass::Blob] {
        assert_eq!(coerce(SqlValue::Null, class), SqlValue::Null);
    }
    assert_eq!(bind(&SourceValue::Boolean(true), StorageClass::Integer), SqlValue::Integer(1));
    assert_eq!(bind(&SourceValue::UInt64(u64::MAX), StorageClass::Integer), SqlValue::Null);
    assert_eq!(bind(&SourceValue::UInt32(9), StorageClass::Integer), SqlValue::Integer(9));
    assert_eq!(bind(&SourceValue::Other("12".to_string()), StorageClass::Integer), SqlValue::Integer(12));
    assert_eq!(bind(&SourceValue::Text("x".to_string()), StorageClass::Integer), SqlValue::Null);
}

#[test]
fn a_misfit_in_a_column_is_stored_as_null() {
    let mut store = FederatedStore::open().unwrap();
    let frame = Frame {
        columns: vec![column("n", InferredType::Integer), column("r", InferredType::Real), column("t", InferredType::Text)],
        rows: vec![
            vec![SourceValue::Text("x".to_string()), SourceValue::Text("y".to_string()), SourceValue::Int64(5)],
            vec![SourceValue::Text("7".to_string()), SourceValue::Int64(2), SourceValue::Real("1.5".to_string())],
            vec![SourceValue::UInt64(u64::MAX), SourceValue::Real("0.25".to_string()), SourceValue::Null],
        ],
    };
    store.load_frame("t", &frame).unwrap();
    let rs = store.query("SELECT n, typeof(n), r, typeof(r), t, typeof(t) FROM t").unwrap();
    let text = |t: &str| Cell::Text(t.to_string());
    assert_eq!(rs.rows[0], vec![Cell::Null, text("null"), Cell::Null, text("null"), text("5"), text("text")]);
    assert_eq!(
        rs.rows[1],
        vec![Cell::Integer(7), text("integer"), Cell::Real("2".to_string()), text("real"), text("1.5"), text("text")]
    );
    assert_eq!(
        rs.rows[2],
        vec![Cell::Null, text("null"), Cell::Real("0.25".to_string()), text("real"), Cell::Null, text("null")]
    );
}

#[test]
fn a_path_that_names_no_file_fails_in_its_turn() {
    let mut store = FederatedStore::open().unwrap();
    let files = vec![
        FileInput::Delimited { path: "bad.csv".to_string(), table: "bad".to_string(), contents: b"a,b\n1,2,3\n".to_vec() },
        FileInput::Invalid { path: "..".to_string(), complaint: "Not the path of a file: ..".to_string() },
    ];
    assert!(matches!(load_all_data(&mut store, &files, &vec![], true, b""), Err(Failure::ParseError(_))));
    let files = vec![
        FileInput::Invalid { path: "..".to_string(), complaint: "Not the path of a file: ..".to_string() },
        FileInput::Delimited { path: "people.csv".to_string(), table: "people".to_string(), contents: PEOPLE.to_vec() },
    ];
    assert_eq!(
        load_all_data(&mut store, &files, &vec![], true, b""),
        Err(Failure::InvalidArgument("Not the path of a file: ..".to_string()))
    );
    assert!(store.records().is_empty());
}

#[test]
fn failures_carry_the_complaint_that_came_back() {
    let store = FederatedStore::open().unwrap();
    match compile_query("from people | filter") {
        Err(Failure::CompileError(text)) => assert!(!text.is_empty()),
        other => panic!("{:?}", other),
    }
    match store.query("SELECT * FROM nowhere") {
        Err(Failure::ExecutionError(text)) => assert!(text.contains("nowhere")),
        other => panic!("{:?}", other),
    }
    match read_frame(b"a,b\n1,2,3\n") {
        Err(Failure::ParseError(text)) => assert!(text.contains("more fields")),
        other => panic!("{:?}", other),
    }
    assert_eq!(read_frame(b"").unwrap_err(), Failure::SchemaError("no data: empty CSV".to_string()));
}
