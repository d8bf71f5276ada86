use rust_parser::db::duplicate_check;
use rust_parser::db::presence_of_count;
use rust_parser::db::Session;
use rust_parser::db::SqlitePool;
use rust_parser::PipelineError;

fn unique_db_path(tag: &str) -> String {
    let nanos = std::time::SystemTime::now()
        .duration_since(std::time::UNIX_EPOCH)
        .unwrap()
        .as_nanos();
    format!("/tmp/rust_parser_{}_{}.db", tag, nanos)
}

#[test]
fn operations_before_init_fail_fast() {
    let mut session = Session::new();
    assert_eq!(session.check_file_exists("any"), Err(PipelineError::Configuration));
    assert_eq!(
        session.insert_file_data(
            "id".to_string(),
            "n".to_string(),
            1,
            "d".to_string(),
            "c".to_string()
        ),
        Err(PipelineError::Configuration)
    );
    let bytes: Vec<u8> = b"x".to_vec();
    assert_eq!(
        session.parse_and_store_file(
            "f.txt",
            &bytes,
            None,
            "id".to_string(),
            "n".to_string(),
            1,
            "d".to_string()
        ),
        Err(PipelineError::Configuration)
    );
}

#[test]
fn second_init_fails_without_replacing_pool() {
    let path = unique_db_path("reinit");
    let mut session = Session::new();
    assert_eq!(session.init_database(path.clone()), Ok(()));
    assert_eq!(session.init_database(path), Err(PipelineError::Configuration));
}

#[test]
fn init_at_unusable_path_is_store_error() {
    let mut session = Session::new();
    let r = session.init_database("/nonexistent_dir_for_store/x.db".to_string());
    assert_eq!(r, Err(PipelineError::Store));
    // The session stays uninitialized and can be initialized later.
    assert_eq!(session.check_file_exists("id"), Err(PipelineError::Configuration));
}

#[test]
fn exists_false_then_true_after_insert() {
    let path = unique_db_path("exists");
    let mut session = Session::new();
    session.init_database(path).unwrap();
    assert_eq!(session.check_file_exists("doc-1"), Ok(false));
    session
        .insert_file_data(
            "doc-1".to_string(),
            "one.txt".to_string(),
            7,
            "2021-01-01".to_string(),
            "hello".to_string(),
        )
        .unwrap();
    assert_eq!(session.check_file_exists("doc-1"), Ok(true));
    assert_eq!(session.check_file_exists("doc-2"), Ok(false));
}

#[test]
fn duplicate_store_keeps_first_record() {
    let path = unique_db_path("dup");
    let mut session = Session::new();
    session.init_database(path.clone()).unwrap();
    let first: Vec<u8> = b"first content".to_vec();
    let second: Vec<u8> = b"second content".to_vec();
    session
        .parse_and_store_file(
            "a.txt",
            &first,
            None,
            "doc".to_string(),
            "a.txt".to_string(),
            13,
            "2021-01-01".to_string(),
        )
        .unwrap();
    let r = session.parse_and_store_file(
        "a.txt",
        &second,
        None,
        "doc".to_string(),
        "a.txt".to_string(),
        14,
        "2021-01-02".to_string(),
    );
    assert_eq!(r, Err(PipelineError::Duplicate));
    // The stored content is still the first call's extraction.
    let conn = rusqlite::Connection::open(path).unwrap();
    let content: String = conn
        .query_row("SELECT content FROM files WHERE file_id = ?1", ("doc",), |row| row.get(0))
        .unwrap();
    assert_eq!(content, "first content");
    let count: i64 = conn
        .query_row("SELECT COUNT(*) FROM files WHERE file_id = ?1", ("doc",), |row| row.get(0))
        .unwrap();
    assert_eq!(count, 1);
}

#[test]
fn extraction_failure_stores_nothing() {
    let path = unique_db_path("extfail");
    let mut session = Session::new();
    session.init_database(path).unwrap();
    let bad_pdf: Vec<u8> = b"not a pdf".to_vec();
    let r = session.parse_and_store_file(
        "broken.pdf",
        &bad_pdf,
        None,
        "pdf-1".to_string(),
        "broken.pdf".to_string(),
        9,
        "2021-01-01".to_string(),
    );
    assert_eq!(r, Err(PipelineError::Io));
    assert_eq!(session.check_file_exists("pdf-1"), Ok(false));
}

#[test]
fn pool_never_grows_past_its_bound() {
    let path = unique_db_path("pool");
    let mut pool = SqlitePool::new(path, 2).unwrap();
    assert_eq!(pool.idle_count(), 2);
    let c1 = pool.get_connection().unwrap();
    let c2 = pool.get_connection().unwrap();
    // The pool is empty; a third checkout opens a fresh connection.
    let c3 = pool.get_connection().unwrap();
    assert_eq!(pool.idle_count(), 0);
    pool.return_connection(c1);
    pool.return_connection(c2);
    // Releasing past the bound does not grow the idle queue.
    pool.return_connection(c3);
    assert_eq!(pool.idle_count(), 2);
}

#[test]
fn session_pool_is_replenished_after_operations() {
    let path = unique_db_path("replenish");
    let mut session = Session::new();
    session.init_database(path).unwrap();
    assert_eq!(session.pool.as_ref().unwrap().idle_count(), 5);
    session.check_file_exists("a").unwrap();
    session.check_file_exists("b").unwrap();
    assert_eq!(session.pool.as_ref().unwrap().idle_count(), 5);
}

#[test]
fn ingestion_decision_helpers() {
    assert!(!presence_of_count(0));
    assert!(!presence_of_count(-1));
    assert!(presence_of_count(3));
    assert_eq!(duplicate_check(true), Err(PipelineError::Duplicate));
    assert_eq!(duplicate_check(false), Ok(()));
}
