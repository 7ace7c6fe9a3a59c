use training_shell::config::{database_url, initial_migrations, initial_schema_sql};
use training_shell::migration::MigrationKind;

#[test]
fn initial_migration_values() {
    let ms = initial_migrations();
    assert_eq!(ms.len(), 1);
    assert_eq!(ms[0].version, 1);
    assert_eq!(ms[0].description, "create_initial_tables");
    assert_eq!(ms[0].kind, MigrationKind::Up);
    assert_eq!(ms[0].sql, initial_schema_sql());
}

#[test]
fn initial_schema_creates_tables() {
    let sql = initial_schema_sql();
    assert!(sql.starts_with("CREATE TABLE IF NOT EXISTS exercises"));
    assert!(sql.contains("CREATE TABLE IF NOT EXISTS workouts"));
    assert!(sql.contains("CREATE TABLE IF NOT EXISTS workout_sets"));
}

#[test]
fn database_url_names_sqlite_file() {
    assert_eq!(database_url(), "sqlite:training_database.db");
}
