use save_slots::manager::{
    check_most_recent_first, load_step_error, player_data_statements, slot_insert_params,
    slot_key_params, text_le_exec, transaction_end, LoadStep, TxEnd, INVENTORY_CLEAR_SQL,
    INVENTORY_INSERT_SQL, STATS_UPSERT_SQL,
};
use save_slots::store::SqlValue;
use save_slots::types::{PlayerData, SaveManagerError, SaveSlotMetadata};

fn text(v: &SqlValue) -> String {
    match v {
        SqlValue::Text(t) => t.clone(),
        SqlValue::Integer(i) => panic!("expected text, got {}", i),
    }
}

fn integer(v: &SqlValue) -> i64 {
    match v {
        SqlValue::Integer(i) => *i,
        SqlValue::Text(t) => panic!("expected integer, got {}", t),
    }
}

#[test]
fn insert_params_are_the_record_fields_in_column_order() {
    let slot = SaveSlotMetadata {
        id: "i".to_string(),
        name: "Run 1".to_string(),
        last_played: "2024-01-01 00:00:00".to_string(),
        file_path: "/s/i.db".to_string(),
    };
    let params = slot_insert_params(&slot);
    let texts: Vec<String> = params.iter().map(text).collect();
    assert_eq!(texts, vec!["i", "Run 1", "2024-01-01 00:00:00", "/s/i.db"]);
}

#[test]
fn key_params_hold_the_slot_id() {
    let params = slot_key_params(&"abc".to_string());
    assert_eq!(params.len(), 1);
    assert_eq!(text(&params[0]), "abc");
}

#[test]
fn save_plan_upserts_clears_then_inserts_in_order() {
    let data = PlayerData {
        health: 80,
        experience: 120,
        inventory: vec!["sword".to_string(), "potion".to_string(), "sword".to_string()],
    };
    let statements = player_data_statements(&data);
    assert_eq!(statements.len(), 5);
    assert_eq!(statements[0].0, STATS_UPSERT_SQL);
    assert_eq!(statements[0].1.iter().map(integer).collect::<Vec<_>>(), vec![80, 120]);
    assert_eq!(statements[1].0, INVENTORY_CLEAR_SQL);
    assert!(statements[1].1.is_empty());
    for (k, item) in ["sword", "potion", "sword"].iter().enumerate() {
        assert_eq!(statements[2 + k].0, INVENTORY_INSERT_SQL);
        assert_eq!(integer(&statements[2 + k].1[0]), k as i64);
        assert_eq!(text(&statements[2 + k].1[1]), *item);
    }
    let empty = PlayerData { health: -1, experience: 0, inventory: vec![] };
    let statements = player_data_statements(&empty);
    assert_eq!(statements.len(), 2);
    assert_eq!(statements[0].1.iter().map(integer).collect::<Vec<_>>(), vec![-1, 0]);
}

fn slot(last_played: &str) -> SaveSlotMetadata {
    SaveSlotMetadata {
        id: last_played.to_string(),
        name: "n".to_string(),
        last_played: last_played.to_string(),
        file_path: "/s/x.db".to_string(),
    }
}

#[test]
fn texts_compare_by_code_point() {
    assert!(text_le_exec("2024-01-01 00:00:00", "2024-01-02 00:00:00"));
    assert!(!text_le_exec("2024-01-02 00:00:00", "2024-01-01 00:00:00"));
    assert!(text_le_exec("abc", "abc"));
    assert!(text_le_exec("ab", "abc"));
    assert!(!text_le_exec("abc", "ab"));
    assert!(text_le_exec("", ""));
    assert!(text_le_exec("B", "a"));
    assert!(!text_le_exec("a", "B"));
}

#[test]
fn listing_order_is_checked() {
    let ordered = vec![slot("2024-01-03 00:00:00"), slot("2024-01-02 00:00:00"), slot("2024-01-02 00:00:00")];
    let kept = check_most_recent_first(ordered).unwrap();
    assert_eq!(kept.len(), 3);
    assert_eq!(kept[0].last_played, "2024-01-03 00:00:00");
    assert!(check_most_recent_first(vec![]).unwrap().is_empty());
    let unordered = vec![slot("2024-01-01 00:00:00"), slot("2024-01-02 00:00:00")];
    assert!(matches!(check_most_recent_first(unordered), Err(SaveManagerError::Database(_))));
}

#[test]
fn transaction_end_follows_the_statements() {
    assert!(matches!(transaction_end(Ok(())), TxEnd::Commit));
    match transaction_end(Err("constraint failed".to_string())) {
        TxEnd::Rollback(m) => assert_eq!(m, "constraint failed"),
        TxEnd::Commit => panic!("a failed statement must not commit"),
    }
}

#[test]
fn load_step_errors_are_mapped() {
    assert!(matches!(load_step_error(LoadStep::Migrate, "m".to_string()), SaveManagerError::Migration(t) if t == "m"));
    assert!(matches!(load_step_error(LoadStep::Stamp, "s".to_string()), SaveManagerError::Database(t) if t == "s"));
}
