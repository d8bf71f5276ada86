//! The persistent store: a bounded pool of SQLite connections and the
//! ingestion path into a full-text index. Pool state is explicit — a
//! `Session` is created once, initialized exactly once, and passed by
//! handle into every operation that needs storage.

use std::collections::VecDeque;

use vstd::prelude::*;

use crate::PipelineError;

verus! {

/// The number of connections a session's pool is created with.
pub const DEFAULT_MAX_CONNECTIONS: usize = 5;

#[verifier::external_type_specification]
#[verifier::external_body]
pub struct ExConnection(rusqlite::Connection);

#[verifier::external_type_specification]
#[verifier::external_body]
pub struct ExSqliteError(rusqlite::Error);

/// Relies on `rusqlite::Connection::open`: opens a database at the
/// given path; the outcome depends on the filesystem.
#[verifier::external_body]
fn open_connection(path: &str) -> (r: Result<rusqlite::Connection, rusqlite::Error>) {
    rusqlite::Connection::open(path)
}

/// Relies on `rusqlite::Connection::execute` with no parameters; the
/// outcome depends on the database.
#[verifier::external_body]
fn run_sql(conn: &rusqlite::Connection, sql: &str) -> (r: Result<usize, rusqlite::Error>) {
    conn.execute(sql, [])
}

/// One record of the full-text index: the identifier, display name,
/// size, upload timestamp and extracted plain-text body.
pub struct FileRecord {
    pub file_id: String,
    pub original_name: String,
    pub size: i64,
    pub upload_date: String,
    pub content: String,
}

/// Relies on `rusqlite::Connection::execute`, binding the record's
/// five fields as the statement's parameters in order; the outcome
/// depends on the database.
#[verifier::external_body]
fn run_sql_record(conn: &rusqlite::Connection, sql: &str, rec: &FileRecord) -> (r: Result<
    usize,
    rusqlite::Error,
>) {
    conn.execute(
        sql,
        (&rec.file_id, &rec.original_name, rec.size, &rec.upload_date, &rec.content),
    )
}

/// Relies on `rusqlite::Connection::query_row` with one parameter; the
/// closure only reads column 0 of the returned row. The outcome
/// depends on the database.
#[verifier::external_body]
fn query_count(conn: &rusqlite::Connection, sql: &str, key: &str) -> (r: Result<
    i64,
    rusqlite::Error,
>) {
    conn.query_row(sql, (key,), |row| row.get(0))
}

/// A bounded pool of reusable SQLite connections. The pool owns the
/// idle connections; a caller checks one out for the duration of one
/// operation and always hands it back.
pub struct SqlitePool {
    pub connections: VecDeque<rusqlite::Connection>,
    pub db_path: String,
    pub max_connections: usize,
}

impl SqlitePool {
    /// The pool never holds more idle connections than its bound.
    pub open spec fn wf(&self) -> bool {
        self.connections@.len() <= self.max_connections
    }

    /// Creates a pool, eagerly opening `max_connections` connections
    /// to the store at `db_path`.
    pub fn new(db_path: String, max_connections: usize) -> (r: Result<SqlitePool, PipelineError>)
        ensures
            r is Ok ==> r->Ok_0.wf() && r->Ok_0.max_connections == max_connections
                && r->Ok_0.connections@.len() == max_connections && r->Ok_0.db_path@ == db_path@,
            max_connections == 0 ==> r is Ok,
            r is Err ==> r->Err_0 == PipelineError::Store,
    {
        let mut connections: VecDeque<rusqlite::Connection> = VecDeque::new();
        let mut i: usize = 0;
        while i < max_connections
            invariant
                i <= max_connections,
                connections@.len() == i,
            decreases max_connections - i,
        {
            match open_connection(db_path.as_str()) {
                Ok(c) => connections.push_back(c),
                Err(_) => {
                    return Err(PipelineError::Store);
                },
            }
            i += 1;
        }
        Ok(SqlitePool { connections, db_path, max_connections })
    }

    /// Pops the connection at the front of the idle queue if one is
    /// available, else opens a new one on demand; the pool itself
    /// never grows here.
    pub fn get_connection(&mut self) -> (r: Result<rusqlite::Connection, PipelineError>)
        ensures
            final(self).max_connections == old(self).max_connections,
            final(self).db_path == old(self).db_path,
            old(self).connections@.len() > 0 ==> r is Ok && r->Ok_0 == old(self).connections@[0]
                && final(self).connections@ == old(self).connections@.drop_first(),
            old(self).connections@.len() == 0 ==> final(self).connections@ == old(
                self,
            ).connections@,
            old(self).wf() ==> final(self).wf(),
            r is Err ==> r->Err_0 == PipelineError::Store,
    {
        match self.connections.pop_front() {
            Some(c) => Ok(c),
            None => {
                match open_connection(self.db_path.as_str()) {
                    Ok(c) => Ok(c),
                    Err(_) => Err(PipelineError::Store),
                }
            },
        }
    }

    /// Hands a connection back: it is queued at the back only while
    /// the pool is below its bound, and dropped otherwise, so the
    /// number of idle connections never exceeds `max_connections`.
    pub fn return_connection(&mut self, conn: rusqlite::Connection)
        ensures
            final(self).max_connections == old(self).max_connections,
            final(self).db_path == old(self).db_path,
            old(self).connections@.len() < old(self).max_connections ==> final(self).connections@
                == old(self).connections@.push(conn),
            old(self).connections@.len() >= old(self).max_connections ==> final(self).connections@
                == old(self).connections@,
            old(self).wf() ==> final(self).wf(),
    {
        if self.connections.len() < self.max_connections {
            self.connections.push_back(conn);
        }
    }

    /// The number of idle connections currently held.
    pub fn idle_count(&self) -> (r: usize)
        ensures
            r == self.connections@.len(),
    {
        self.connections.len()
    }
}

/// Whether the store's count of matching rows indicates presence.
pub fn presence_of_count(count: i64) -> (r: bool)
    ensures
        r == (count > 0),
{
    count > 0
}

/// Turns the existence lookup's answer into the ingestion step's
/// result: a present identifier is rejected as a duplicate before any
/// extraction or write is attempted.
pub fn duplicate_check(exists: bool) -> (r: Result<(), PipelineError>)
    ensures
        r is Err <==> exists,
        r is Err ==> r->Err_0 == PipelineError::Duplicate,
{
    if exists {
        Err(PipelineError::Duplicate)
    } else {
        Ok(())
    }
}

/// Builds the indexed record from the ingestion arguments, field by
/// field, so the five values reaching the store are exactly the
/// caller's.
pub fn make_record(
    file_id: String,
    original_name: String,
    size: i64,
    upload_date: String,
    content: String,
) -> (r: FileRecord)
    ensures
        r.file_id == file_id,
        r.original_name == original_name,
        r.size == size,
        r.upload_date == upload_date,
        r.content == content,
{
    FileRecord { file_id, original_name, size, upload_date, content }
}

/// The explicit context for store access: holds the pool once
/// initialized. Operations called before initialization fail fast with
/// a configuration error; a second initialization fails without
/// replacing the pool.
pub struct Session {
    pub pool: Option<SqlitePool>,
}

impl Session {
    pub open spec fn wf(&self) -> bool {
        self.pool is Some ==> self.pool->0.wf()
    }

    /// A fresh, uninitialized session.
    pub fn new() -> (r: Session)
        ensures
            r.pool is None,
            r.wf(),
    {
        Session { pool: None }
    }

    /// Opens the pool and store at `db_path` and applies the one
    /// idempotent schema statement. Fails with a configuration error,
    /// changing nothing, when the session is already initialized.
    pub fn init_db_pool(&mut self, db_path: String) -> (r: Result<(), PipelineError>)
        requires
            old(self).wf(),
        ensures
            final(self).wf(),
            old(self).pool is Some ==> r is Err && r->Err_0 == PipelineError::Configuration
                && *final(self) == *old(self),
            r is Ok ==> final(self).pool is Some && final(self).pool->0.max_connections
                == DEFAULT_MAX_CONNECTIONS && final(self).pool->0.connections@.len()
                == DEFAULT_MAX_CONNECTIONS && final(self).pool->0.db_path@ == db_path@,
            old(self).pool is None && r is Err ==> final(self).pool is None,
            r is Err && r->Err_0 == PipelineError::Configuration ==> old(self).pool is Some,
            r is Err ==> r->Err_0 == PipelineError::Configuration || r->Err_0
                == PipelineError::Store,
    {
        if self.pool.is_some() {
            return Err(PipelineError::Configuration);
        }
        let mut pool = match SqlitePool::new(db_path, DEFAULT_MAX_CONNECTIONS) {
            Ok(p) => p,
            Err(e) => {
                return Err(e);
            },
        };
        let conn = match pool.get_connection() {
            Ok(c) => c,
            Err(e) => {
                return Err(e);
            },
        };
        let res = run_sql(
            &conn,
            "CREATE VIRTUAL TABLE IF NOT EXISTS files USING fts5(\n                file_id UNINDEXED,\n                original_name,\n                size UNINDEXED,\n                upload_date UNINDEXED,\n                content,\n                tokenize='unicode61'\n            )",
        );
        pool.return_connection(conn);
        match res {
            Ok(_) => {
                self.pool = Some(pool);
                Ok(())
            },
            Err(_) => Err(PipelineError::Store),
        }
    }

    /// Initializes the session's store; the public face of
    /// `init_db_pool`.
    pub fn init_database(&mut self, db_path: String) -> (r: Result<(), PipelineError>)
        requires
            old(self).wf(),
        ensures
            final(self).wf(),
            old(self).pool is Some ==> r is Err && r->Err_0 == PipelineError::Configuration
                && *final(self) == *old(self),
            r is Ok ==> final(self).pool is Some,
            r is Err && r->Err_0 == PipelineError::Configuration ==> old(self).pool is Some,
            r is Err ==> r->Err_0 == PipelineError::Configuration || r->Err_0
                == PipelineError::Store,
    {
        self.init_db_pool(db_path)
    }

    /// Whether `file_id` is present in the index. The connection used
    /// is returned to the pool before any result — success or error —
    /// is surfaced.
    pub fn file_exists(&mut self, file_id: &str) -> (r: Result<bool, PipelineError>)
        requires
            old(self).wf(),
        ensures
            final(self).wf(),
            old(self).pool is None ==> r is Err && r->Err_0 == PipelineError::Configuration
                && *final(self) == *old(self),
            final(self).pool is Some <==> old(self).pool is Some,
            old(self).pool is Some ==> final(self).pool->0.max_connections == old(
                self,
            ).pool->0.max_connections && final(self).pool->0.db_path == old(
                self,
            ).pool->0.db_path,
            old(self).pool is Some && old(self).pool->0.connections@.len() > 0 ==> final(self).pool->0.connections@.len() == old(self).pool->0.connections@.len(),
            old(self).pool is Some && old(self).pool->0.connections@.len() == 0 && old(
                self,
            ).pool->0.max_connections > 0 && r is Ok ==> final(self).pool->0.connections@.len()
                == 1,
            r is Err && r->Err_0 == PipelineError::Configuration ==> old(self).pool is None,
            r is Err ==> r->Err_0 == PipelineError::Configuration || r->Err_0
                == PipelineError::Store,
    {
        let pool = match &mut self.pool {
            Some(p) => p,
            None => {
                return Err(PipelineError::Configuration);
            },
        };
        let conn = match pool.get_connection() {
            Ok(c) => c,
            Err(e) => {
                return Err(e);
            },
        };
        let res = query_count(&conn, "SELECT COUNT(*) FROM files WHERE file_id = ?1", file_id);
        pool.return_connection(conn);
        match res {
            Ok(count) => Ok(presence_of_count(count)),
            Err(_) => Err(PipelineError::Store),
        }
    }

    /// The pool-backed existence lookup exposed at the boundary.
    pub fn check_file_exists(&mut self, file_id: &str) -> (r: Result<bool, PipelineError>)
        requires
            old(self).wf(),
        ensures
            final(self).wf(),
            old(self).pool is None ==> r is Err && r->Err_0 == PipelineError::Configuration
                && *final(self) == *old(self),
            final(self).pool is Some <==> old(self).pool is Some,
            old(self).pool is Some && old(self).pool->0.connections@.len() > 0 ==> final(self).pool->0.connections@.len() == old(self).pool->0.connections@.len(),
            old(self).pool is Some && old(self).pool->0.connections@.len() == 0 && old(
                self,
            ).pool->0.max_connections > 0 && r is Ok ==> final(self).pool->0.connections@.len()
                == 1,
            r is Err && r->Err_0 == PipelineError::Configuration ==> old(self).pool is None,
            r is Err ==> r->Err_0 == PipelineError::Configuration || r->Err_0
                == PipelineError::Store,
    {
        self.file_exists(file_id)
    }

    /// Inserts one extracted document as a new indexed record. The
    /// connection used is returned to the pool before any result is
    /// surfaced.
    pub fn insert_file_data(
        &mut self,
        file_id: String,
        original_name: String,
        size: i64,
        upload_date: String,
        content: String,
    ) -> (r: Result<(), PipelineError>)
        requires
            old(self).wf(),
        ensures
            final(self).wf(),
            old(self).pool is None ==> r is Err && r->Err_0 == PipelineError::Configuration
                && *final(self) == *old(self),
            final(self).pool is Some <==> old(self).pool is Some,
            old(self).pool is Some ==> final(self).pool->0.max_connections == old(
                self,
            ).pool->0.max_connections && final(self).pool->0.db_path == old(
                self,
            ).pool->0.db_path,
            old(self).pool is Some && old(self).pool->0.connections@.len() > 0 ==> final(self).pool->0.connections@.len() == old(self).pool->0.connections@.len(),
            old(self).pool is Some && old(self).pool->0.connections@.len() == 0 && old(
                self,
            ).pool->0.max_connections > 0 && r is Ok ==> final(self).pool->0.connections@.len()
                == 1,
            r is Err && r->Err_0 == PipelineError::Configuration ==> old(self).pool is None,
            r is Err ==> r->Err_0 == PipelineError::Configuration || r->Err_0
                == PipelineError::Store,
    {
        let pool = match &mut self.pool {
            Some(p) => p,
            None => {
                return Err(PipelineError::Configuration);
            },
        };
        let conn = match pool.get_connection() {
            Ok(c) => c,
            Err(e) => {
                return Err(e);
            },
        };
        let rec = make_record(file_id, original_name, size, upload_date, content);
        let res = run_sql_record(
            &conn,
            "INSERT INTO files (file_id, original_name, size, upload_date, content) VALUES (?1, ?2, ?3, ?4, ?5)",
            &rec,
        );
        pool.return_connection(conn);
        match res {
            Ok(_) => Ok(()),
            Err(_) => Err(PipelineError::Store),
        }
    }

    /// The ingestion state machine: existence check, then extraction,
    /// then insert. A present identifier short-circuits to a duplicate
    /// error before any extraction; an extraction failure aborts
    /// before any write.
    pub fn parse_and_store_file(
        &mut self,
        file_path: &str,
        bytes: &Vec<u8>,
        pdf_extracted: Option<String>,
        file_id: String,
        original_name: String,
        size: i64,
        upload_date: String,
    ) -> (r: Result<(), PipelineError>)
        requires
            old(self).wf(),
        ensures
            final(self).wf(),
            old(self).pool is None ==> r is Err && r->Err_0 == PipelineError::Configuration
                && *final(self) == *old(self),
            final(self).pool is Some <==> old(self).pool is Some,
            old(self).pool is Some ==> final(self).pool->0.max_connections == old(
                self,
            ).pool->0.max_connections && final(self).pool->0.db_path == old(
                self,
            ).pool->0.db_path,
            old(self).pool is Some && old(self).pool->0.connections@.len() > 0 ==> final(self).pool->0.connections@.len() == old(self).pool->0.connections@.len(),
            old(self).pool is Some && old(self).pool->0.connections@.len() == 0 && old(
                self,
            ).pool->0.max_connections > 0 && r is Ok ==> final(self).pool->0.connections@.len()
                == 1,
            r is Err && r->Err_0 == PipelineError::Configuration ==> old(self).pool is None,
            r is Err ==> r->Err_0 == PipelineError::Configuration || r->Err_0
                == PipelineError::Store || r->Err_0 == PipelineError::Duplicate || r->Err_0
                == PipelineError::Io,
            r is Err && r->Err_0 == PipelineError::Io ==> crate::format_of(
                crate::ext_key(file_path@),
            ) is Pdf,
    {
        let exists = match self.file_exists(file_id.as_str()) {
            Ok(e) => e,
            Err(e) => {
                return Err(e);
            },
        };
        match duplicate_check(exists) {
            Ok(_) => {},
            Err(e) => {
                return Err(e);
            },
        }
        let content = match crate::parse_file(file_path, bytes, pdf_extracted) {
            Ok(c) => c,
            Err(e) => {
                return Err(e);
            },
        };
        self.insert_file_data(file_id, original_name, size, upload_date, content)
    }
}

} // verus!
