//! The schema-migration registry handed to the external database plugin at
//! startup.

use vstd::prelude::*;
use vstd::string::StringExecFns;

verus! {

/// Direction of a schema migration: `Up` applies it, `Down` reverts it.
#[derive(Clone, Copy, PartialEq, Eq, Structural, Debug)]
pub enum MigrationKind {
    Up,
    Down,
}

/// One versioned unit of schema change. The external database plugin tracks
/// which versions were already applied to the store and applies only the
/// remainder, in order, exactly once.
pub struct Migration {
    pub version: i64,
    pub description: String,
    pub sql: String,
    pub kind: MigrationKind,
}

/// A registry is well formed when versions are positive and strictly
/// increasing: the plugin applies migrations in version order, exactly once
/// each, so no version may repeat and later entries may not carry smaller
/// versions.
pub open spec fn registry_well_formed(ms: Seq<Migration>) -> bool {
    &&& forall|i: int| 0 <= i < ms.len() ==> #[trigger] ms[i].version >= 1
    &&& forall|i: int, j: int|
        0 <= i < j < ms.len() ==> #[trigger] ms[i].version < #[trigger] ms[j].version
}

/// The embedded schema text of the initial migration.
pub open spec fn initial_migration_sql() -> Seq<char> {
    "CREATE TABLE IF NOT EXISTS chats (\n    id INTEGER PRIMARY KEY AUTOINCREMENT,\n    title TEXT NOT NULL,\n    created_at TEXT NOT NULL DEFAULT (datetime('now'))\n);\nCREATE TABLE IF NOT EXISTS messages (\n    id INTEGER PRIMARY KEY AUTOINCREMENT,\n    chat_id INTEGER NOT NULL REFERENCES chats(id) ON DELETE CASCADE,\n    role TEXT NOT NULL,\n    content TEXT NOT NULL,\n    created_at TEXT NOT NULL DEFAULT (datetime('now'))\n);"@
}

/// Builds the ordered list of migration descriptors: exactly one entry, with
/// version 1, a non-empty description, the non-empty initial schema text, and
/// the apply direction. Pure and deterministic; construction cannot fail.
pub fn get_migrations() -> (ms: Vec<Migration>)
    ensures
        ms@.len() == 1,
        ms@[0].version == 1,
        ms@[0].description@ == "Initial migration"@,
        ms@[0].description@.len() > 0,
        ms@[0].sql@ == initial_migration_sql(),
        ms@[0].sql@.len() > 0,
        ms@[0].kind == MigrationKind::Up,
        registry_well_formed(ms@),
{
    proof {
        reveal_strlit("Initial migration");
        reveal_strlit(
            "CREATE TABLE IF NOT EXISTS chats (\n    id INTEGER PRIMARY KEY AUTOINCREMENT,\n    title TEXT NOT NULL,\n    created_at TEXT NOT NULL DEFAULT (datetime('now'))\n);\nCREATE TABLE IF NOT EXISTS messages (\n    id INTEGER PRIMARY KEY AUTOINCREMENT,\n    chat_id INTEGER NOT NULL REFERENCES chats(id) ON DELETE CASCADE,\n    role TEXT NOT NULL,\n    content TEXT NOT NULL,\n    created_at TEXT NOT NULL DEFAULT (datetime('now'))\n);",
        );
    }
    let initial = Migration {
        version: 1,
        description: String::from_str("Initial migration"),
        sql: String::from_str(
            "CREATE TABLE IF NOT EXISTS chats (\n    id INTEGER PRIMARY KEY AUTOINCREMENT,\n    title TEXT NOT NULL,\n    created_at TEXT NOT NULL DEFAULT (datetime('now'))\n);\nCREATE TABLE IF NOT EXISTS messages (\n    id INTEGER PRIMARY KEY AUTOINCREMENT,\n    chat_id INTEGER NOT NULL REFERENCES chats(id) ON DELETE CASCADE,\n    role TEXT NOT NULL,\n    content TEXT NOT NULL,\n    created_at TEXT NOT NULL DEFAULT (datetime('now'))\n);",
        ),
        kind: MigrationKind::Up,
    };
    let mut ms: Vec<Migration> = Vec::new();
    ms.push(initial);
    ms
}

/// The logical address of the SQLite-backed store that the registry's
/// migrations apply to.
pub fn database_url() -> (url: &'static str)
    ensures
        url@ == "sqlite:ollama-chat.db"@,
{
    "sqlite:ollama-chat.db"
}

} // verus!
