use save_slots::manager::{initialize_metadata_db, open_configured_connection, slot_migrations};
use save_slots::types::SaveManagerError;

fn fresh_file(prefix: &str) -> String {
    format!("/tmp/{}_{}.db", prefix, uuid::Uuid::new_v4())
}

#[test]
fn configured_connection_uses_write_ahead_log() {
    let path = fresh_file("save_slots_wal");
    let conn = open_configured_connection(&path).unwrap();
    let mode: String = conn.query_row("PRAGMA journal_mode", [], |row| row.get(0)).unwrap();
    assert_eq!(mode.to_lowercase(), "wal");
}

#[test]
fn configured_connection_fails_on_missing_directory() {
    let path = format!("/tmp/{}/absent/x.db", uuid::Uuid::new_v4());
    assert!(matches!(open_configured_connection(&path), Err(SaveManagerError::Database(_))));
}

#[test]
fn catalog_initialization_is_idempotent() {
    let path = fresh_file("save_slots_catalog");
    initialize_metadata_db(&path).unwrap();
    let conn = rusqlite::Connection::open(&path).unwrap();
    conn.execute(
        "INSERT INTO save_slots (id, name, file_path) VALUES ('a', 'Run 1', '/tmp/a.db')",
        [],
    )
    .unwrap();
    initialize_metadata_db(&path).unwrap();
    let count: i64 = conn.query_row("SELECT COUNT(*) FROM save_slots", [], |row| row.get(0)).unwrap();
    assert_eq!(count, 1);
    let stamped: String = conn
        .query_row("SELECT last_played FROM save_slots WHERE id = 'a'", [], |row| row.get(0))
        .unwrap();
    assert_eq!(stamped.len(), 19);
}

#[test]
fn slot_schema_has_one_step_with_both_tables() {
    let steps = slot_migrations();
    assert_eq!(steps.len(), 1);
    assert!(steps[0].contains("CREATE TABLE IF NOT EXISTS player_stats"));
    assert!(steps[0].contains("CREATE TABLE IF NOT EXISTS inventory"));
}
