//! The fixed startup configuration: the logical database identifier and the
//! migration list that the database plugin is handed at bootstrap.

use vstd::prelude::*;
use vstd::string::StringExecFns;
use crate::migration::{Migration, MigrationKind, wf_migration_list};

verus! {

/// The text of the first schema migration: the statements that create the
/// initial tables of the training database.
pub open spec fn initial_schema_text() -> Seq<char> {
    "CREATE TABLE IF NOT EXISTS exercises (id INTEGER PRIMARY KEY AUTOINCREMENT, name TEXT NOT NULL, muscle_group TEXT);\nCREATE TABLE IF NOT EXISTS workouts (id INTEGER PRIMARY KEY AUTOINCREMENT, performed_on TEXT NOT NULL);\nCREATE TABLE IF NOT EXISTS workout_sets (id INTEGER PRIMARY KEY AUTOINCREMENT, workout_id INTEGER NOT NULL REFERENCES workouts(id), exercise_id INTEGER NOT NULL REFERENCES exercises(id), reps INTEGER NOT NULL, weight_kg INTEGER);\n"@
}

/// The SQL applied by the first migration, as executable text.
pub fn initial_schema_sql() -> (r: String)
    ensures
        r@ == initial_schema_text(),
{
    String::from_str(
        "CREATE TABLE IF NOT EXISTS exercises (id INTEGER PRIMARY KEY AUTOINCREMENT, name TEXT NOT NULL, muscle_group TEXT);\nCREATE TABLE IF NOT EXISTS workouts (id INTEGER PRIMARY KEY AUTOINCREMENT, performed_on TEXT NOT NULL);\nCREATE TABLE IF NOT EXISTS workout_sets (id INTEGER PRIMARY KEY AUTOINCREMENT, workout_id INTEGER NOT NULL REFERENCES workouts(id), exercise_id INTEGER NOT NULL REFERENCES exercises(id), reps INTEGER NOT NULL, weight_kg INTEGER);\n",
    )
}

/// The logical identifier of the application's database: a SQLite file
/// beside the application, named for the training data it holds.
pub fn database_url() -> (r: String)
    ensures
        r@ == "sqlite:training_database.db"@,
{
    String::from_str("sqlite:training_database.db")
}

/// The migration list handed to the database plugin at bootstrap: exactly
/// one forward migration, version 1, labelled "create_initial_tables",
/// carrying the initial schema text. The list is well formed, so the
/// external runner sees unique, ascending versions.
pub fn initial_migrations() -> (r: Vec<Migration>)
    ensures
        r@.len() == 1,
        r@[0].version == 1,
        r@[0].kind == MigrationKind::Up,
        r@[0].description@ == "create_initial_tables"@,
        r@[0].sql@ == initial_schema_text(),
        wf_migration_list(r@),
{
    let m = Migration {
        version: 1,
        description: String::from_str("create_initial_tables"),
        sql: initial_schema_sql(),
        kind: MigrationKind::Up,
    };
    let mut r: Vec<Migration> = Vec::new();
    r.push(m);
    r
}

} // verus!
