use save_slots::registry::{
    create_new_slot, debug_application_documents_directory, get_all_slots, init_failure_message,
    init_system, load_slot, save_player_data, set_application_documents_directory, DocumentsDirectory,
    Registry,
};
use save_slots::layout::StorageLayout;
use save_slots::manager::SaveManager;
use save_slots::types::{PlayerData, SaveManagerError};

fn fresh_manager() -> SaveManager {
    SaveManager::open(StorageLayout {
        saves_dir: "/tmp".to_string(),
        metadata_db_path: format!("/tmp/save_slots_registry_{}.db", uuid::Uuid::new_v4()),
    })
    .unwrap()
}

#[test]
fn operations_before_init_report_not_initialized() {
    let mut registry = Registry::new();
    let expected = "SaveManager has not been initialized".to_string();
    assert_eq!(create_new_slot(&registry, "x".to_string()).unwrap_err(), expected);
    assert_eq!(get_all_slots(&registry).unwrap_err(), expected);
    assert_eq!(load_slot(&mut registry, "x".to_string()).unwrap_err(), expected);
    let data = PlayerData { health: 1, experience: 1, inventory: vec![] };
    assert_eq!(save_player_data(&mut registry, data).unwrap_err(), expected);
}

#[test]
fn registry_runs_the_whole_session() {
    let mut registry = Registry::new();
    registry.manager = Some(fresh_manager());
    let a = create_new_slot(&registry, "Run 1".to_string()).unwrap();
    assert_eq!(a.name, "Run 1");
    assert!(a.file_path == format!("/tmp/{}.db", a.id));
    let data = PlayerData { health: 80, experience: 120, inventory: vec!["sword".to_string()] };
    assert_eq!(
        save_player_data(&mut registry, data.clone()).unwrap_err(),
        "no save slot is currently loaded"
    );
    assert_eq!(
        load_slot(&mut registry, "missing".to_string()).unwrap_err(),
        "save slot with id 'missing' does not exist"
    );
    load_slot(&mut registry, a.id.clone()).unwrap();
    save_player_data(&mut registry, data).unwrap();
    assert_eq!(get_all_slots(&registry).unwrap().len(), 1);
}

#[test]
fn init_failure_is_reported_with_prefix() {
    let mut registry = Registry::new();
    let base = format!("/tmp/save_slots_tests/{}/absent", uuid::Uuid::new_v4());
    let err = init_system(&mut registry, base).unwrap_err();
    assert!(err.starts_with("init_system failed: database error: "));
    assert!(registry.manager.is_none());
    assert_eq!(
        init_failure_message(&SaveManagerError::Io("denied".to_string())),
        "init_system failed: I/O error: denied"
    );
}

#[test]
fn documents_directory_is_kept() {
    let mut documents = DocumentsDirectory::new();
    assert_eq!(debug_application_documents_directory(&documents), None);
    set_application_documents_directory(&mut documents, "/docs".to_string());
    assert_eq!(debug_application_documents_directory(&documents), Some("/docs".to_string()));
    set_application_documents_directory(&mut documents, "/other".to_string());
    assert_eq!(debug_application_documents_directory(&documents), Some("/other".to_string()));
}

