//! Connection settings and the schema of the store.

use vstd::prelude::*;
use crate::error::KbError;
use crate::sql::{begin, commit, execute_batch, query, rollback, SqlValue};

verus! {

/// The version of the schema that `SCHEMA` creates.
pub const SCHEMA_VERSION: i64 = 3;

/// The tables of the store. Links are keyed by their ordered pair of pages:
/// at most one relation joins a given source to a given target.
pub const SCHEMA: &'static str = "
CREATE TABLE IF NOT EXISTS schema_meta (version INTEGER NOT NULL);
CREATE TABLE IF NOT EXISTS spaces (
    id TEXT PRIMARY KEY,
    slug TEXT NOT NULL UNIQUE,
    name TEXT NOT NULL,
    description TEXT NOT NULL DEFAULT '',
    created_at TEXT NOT NULL,
    updated_at TEXT NOT NULL DEFAULT ''
);
CREATE TABLE IF NOT EXISTS pages (
    id TEXT PRIMARY KEY,
    space_id TEXT NOT NULL REFERENCES spaces(id),
    parent_id TEXT REFERENCES pages(id) ON DELETE SET NULL,
    title TEXT NOT NULL,
    page_type TEXT NOT NULL,
    content TEXT NOT NULL DEFAULT '',
    sections TEXT,
    created_by_user TEXT NOT NULL,
    created_by_agent TEXT NOT NULL,
    created_at TEXT NOT NULL,
    updated_at TEXT NOT NULL,
    version INTEGER NOT NULL DEFAULT 1
);
CREATE INDEX IF NOT EXISTS idx_pages_space ON pages(space_id);
CREATE INDEX IF NOT EXISTS idx_pages_parent ON pages(parent_id);
CREATE TABLE IF NOT EXISTS labels (
    page_id TEXT NOT NULL REFERENCES pages(id) ON DELETE CASCADE,
    label TEXT NOT NULL,
    UNIQUE (page_id, label)
);
CREATE TABLE IF NOT EXISTS links (
    source_id TEXT NOT NULL REFERENCES pages(id) ON DELETE CASCADE,
    target_id TEXT NOT NULL REFERENCES pages(id) ON DELETE CASCADE,
    relation TEXT NOT NULL,
    created_at TEXT NOT NULL,
    updated_at TEXT NOT NULL DEFAULT '',
    PRIMARY KEY (source_id, target_id)
);
CREATE VIRTUAL TABLE IF NOT EXISTS pages_fts USING fts5(
    title, content, content='pages', content_rowid='rowid'
);
CREATE TRIGGER IF NOT EXISTS pages_fts_insert AFTER INSERT ON pages BEGIN
    INSERT INTO pages_fts(rowid, title, content) VALUES (new.rowid, new.title, new.content);
END;
CREATE TRIGGER IF NOT EXISTS pages_fts_delete AFTER DELETE ON pages BEGIN
    INSERT INTO pages_fts(pages_fts, rowid, title, content)
        VALUES ('delete', old.rowid, old.title, old.content);
END;
CREATE TRIGGER IF NOT EXISTS pages_fts_update AFTER UPDATE ON pages BEGIN
    INSERT INTO pages_fts(pages_fts, rowid, title, content)
        VALUES ('delete', old.rowid, old.title, old.content);
    INSERT INTO pages_fts(rowid, title, content) VALUES (new.rowid, new.title, new.content);
END;
INSERT INTO schema_meta (version) VALUES (3);
";

/// Settings for several processes sharing one store: write-ahead logging so
/// readers never wait for a writer, enforced foreign keys (which carry the
/// cascades), and a bounded wait of five seconds for a contended write lock.
pub const CONNECTION_SETTINGS: &'static str =
    "PRAGMA journal_mode = WAL; PRAGMA foreign_keys = ON; PRAGMA busy_timeout = 5000;";

/// Applies the connection settings.
pub fn configure(conn: &rusqlite::Connection) -> (r: Result<(), KbError>)
    ensures
        r is Err ==> r->Err_0 is Db,
{
    execute_batch(conn, CONNECTION_SETTINGS)
}

/// The schema version recorded in the store: 0 for a fresh store.
fn current_schema_version(conn: &rusqlite::Connection) -> (r: i64) {
    let args: Vec<SqlValue> = Vec::new();
    match query(conn, "SELECT version FROM schema_meta LIMIT 1", &args) {
        Ok(rows) => {
            if rows.len() > 0 && rows[0].len() > 0 {
                match &rows[0][0] {
                    SqlValue::Int(v) => *v,
                    _ => 0,
                }
            } else {
                0
            }
        },
        Err(_) => 0,
    }
}

/// Brings the store to the latest schema; a store already there is left as it
/// is. The schema is created in one transaction, rolled back on failure.
pub fn run_migrations(conn: &mut rusqlite::Connection) -> (r: Result<(), KbError>)
    ensures
        r is Err ==> r->Err_0 is Db,
{
    let c: &rusqlite::Connection = conn;
    if current_schema_version(c) >= SCHEMA_VERSION {
        return Ok(());
    }
    begin(c)?;
    match execute_batch(c, SCHEMA) {
        Ok(()) => commit(c),
        Err(e) => {
            rollback(c);
            Err(e)
        },
    }
}

} // verus!
