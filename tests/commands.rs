use datarepl::command::{
    Compression, ConnectOpts, DatasetConn, DescribeOpts, FileOpts, HeadOpts, ListOpts, ReplCommand,
    SchemaOpts, SqlOpts, DEFAULT_HEAD_ROWS,
};
use datarepl::query::{decimal_string, head_query, list_query, schema_query, select_all_query};
use datarepl::request::Request;

fn query_of(r: Request) -> String {
    match r {
        Request::Query(q) => q,
        _ => panic!("expected a query request"),
    }
}

#[test]
fn head_without_count_asks_for_five_rows() {
    let h = HeadOpts::new("t".to_string(), None);
    assert_eq!(h.rows(), 5);
    assert_eq!(DEFAULT_HEAD_ROWS, 5);
    assert_eq!(query_of(h.request()), "SELECT * FROM t LIMIT 5");
}

#[test]
fn head_with_count_uses_it() {
    let h = HeadOpts::new("t".to_string(), Some(10));
    assert_eq!(h.rows(), 10);
    let q = query_of(ReplCommand::Head(h).request());
    assert_eq!(q, "SELECT * FROM t LIMIT 10");
}

#[test]
fn head_with_zero_rows() {
    let h = HeadOpts::new("sales".to_string(), Some(0));
    assert_eq!(query_of(h.request()), "SELECT * FROM sales LIMIT 0");
}

#[test]
fn schema_request_describes_the_dataset() {
    let s = SchemaOpts::new("t".to_string());
    assert_eq!(s.name, "t");
    assert_eq!(query_of(ReplCommand::Schema(s).request()), "DESCRIBE t");
}

#[test]
fn schema_of_missing_table_is_still_a_request() {
    let s = SchemaOpts::new("missing_table".to_string());
    assert_eq!(query_of(s.request()), "DESCRIBE missing_table");
}

#[test]
fn list_request_reads_the_catalog() {
    let q = query_of(ReplCommand::List(ListOpts).request());
    assert_eq!(
        q,
        "select table_name, table_type from information_schema.tables where table_schema = 'public'"
    );
    assert_eq!(list_query(), q);
}

#[test]
fn describe_request_selects_all_rows() {
    let d = DescribeOpts::new("t".to_string());
    match ReplCommand::Describe(d).request() {
        Request::Describe(q) => assert_eq!(q, "select * from t"),
        _ => panic!("expected a describe request"),
    }
}

#[test]
fn sql_request_passes_the_text_through() {
    let s = SqlOpts::new("select 1".to_string());
    assert_eq!(s.query, "select 1");
    assert_eq!(query_of(ReplCommand::Sql(s).request()), "select 1");
}

#[test]
fn postgres_connect_is_a_notice() {
    let c = ConnectOpts::new(DatasetConn::Postgres("postgres://localhost".to_string()), "pg".to_string());
    match ReplCommand::Connect(c).request() {
        Request::Notice(t) => assert_eq!(t, "Postgres connection is not supported yet"),
        _ => panic!("expected a notice"),
    }
}

#[test]
fn csv_connect_registers_with_options() {
    let f = FileOpts::new("data/t.csv.gz".to_string(), ".csv.gz".to_string(), Compression::Gzip);
    let c = ConnectOpts::new(DatasetConn::Csv(f), "t".to_string());
    match ReplCommand::Connect(c).request() {
        Request::RegisterCsv(name, f) => {
            assert_eq!(name, "t");
            assert_eq!(f.filename, "data/t.csv.gz");
            assert_eq!(f.ext, ".csv.gz");
            assert_eq!(f.compression, Compression::Gzip);
        }
        _ => panic!("expected a csv registration"),
    }
}

#[test]
fn parquet_and_ndjson_connect_register() {
    let c = ConnectOpts::new(DatasetConn::Parquet("t.parquet".to_string()), "p".to_string());
    match c.request() {
        Request::RegisterParquet(name, path) => {
            assert_eq!(name, "p");
            assert_eq!(path, "t.parquet");
        }
        _ => panic!("expected a parquet registration"),
    }
    let f = FileOpts::new("t.json".to_string(), ".json".to_string(), Compression::Uncompressed);
    let c = ConnectOpts::new(DatasetConn::NdJson(f), "j".to_string());
    match c.request() {
        Request::RegisterNdJson(name, f) => {
            assert_eq!(name, "j");
            assert_eq!(f.filename, "t.json");
            assert_eq!(f.compression, Compression::Uncompressed);
        }
        _ => panic!("expected a json registration"),
    }
}

#[test]
fn decimal_rendering() {
    assert_eq!(decimal_string(0), "0");
    assert_eq!(decimal_string(7), "7");
    assert_eq!(decimal_string(10), "10");
    assert_eq!(decimal_string(12345), "12345");
    assert_eq!(decimal_string(usize::MAX), usize::MAX.to_string());
}

#[test]
fn query_texts() {
    assert_eq!(schema_query("a"), "DESCRIBE a");
    assert_eq!(select_all_query("a"), "select * from a");
    assert_eq!(head_query("a", 3), "SELECT * FROM a LIMIT 3");
}
