use vstd::prelude::*;

use crate::manager::{fresh_manager_of, most_recent_first, new_slot_of, same_storage, SaveManager};
use crate::types::{error_text, PlayerData, SaveManagerError, SaveSlotMetadata};

verus! {

/// Holds at most one initialized save manager. Every operation on slots goes through it.
pub struct Registry {
    pub manager: Option<SaveManager>,
}

/// The documents directory the host reported, kept apart from the registry.
pub struct DocumentsDirectory {
    pub dir: Option<String>,
}

impl DocumentsDirectory {
    /// No directory reported yet.
    pub fn new() -> (r: DocumentsDirectory)
        ensures
            r.dir is None,
    {
        DocumentsDirectory { dir: None }
    }
}

/// The text of a failed initialization.
pub open spec fn init_failure_text(e: SaveManagerError) -> Seq<char> {
    "init_system failed: "@ + error_text(e)
}

/// `t` is the text of some error that `allowed` admits.
pub open spec fn text_of_error(t: Seq<char>, allowed: spec_fn(SaveManagerError) -> bool) -> bool {
    exists|e: SaveManagerError| allowed(e) && #[trigger] error_text(e) == t
}

/// `r` failed with the text of the error `e`.
pub open spec fn failed_with_text<T>(r: Result<T, String>, e: SaveManagerError) -> bool {
    r matches Err(t) && t@ == error_text(e)
}

/// The text of a failed initialization.
pub fn init_failure_message(e: &SaveManagerError) -> (r: String)
    ensures
        r@ == init_failure_text(*e),
{
    String::from_str("init_system failed: ").concat(e.message().as_str())
}

impl Registry {
    /// A registry with no manager.
    pub fn new() -> (r: Registry)
        ensures
            r.manager is None,
    {
        Registry { manager: None }
    }
}

/// Installs a new manager over `base_path`, replacing any previous one. On failure the
/// registry is left as it was.
pub fn init_system(registry: &mut Registry, base_path: String) -> (r: Result<(), String>)
    ensures
        r is Ok ==> (final(registry).manager matches Some(m) && fresh_manager_of(m, base_path@)),
        r is Err ==> *final(registry) == *old(registry),
        r matches Err(t) ==> exists|e: SaveManagerError|
            e is Database && #[trigger] init_failure_text(e) == t@,
{
    match SaveManager::initialize(base_path) {
        Err(e) => {
            let t = init_failure_message(&e);
            assert(e is Database && init_failure_text(e) == t@);
            Err(t)
        },
        Ok(manager) => {
            registry.manager = Some(manager);
            Ok(())
        },
    }
}

/// Creates a slot named `display_name` through the installed manager.
pub fn create_new_slot(registry: &Registry, display_name: String) -> (r: Result<
    SaveSlotMetadata,
    String,
>)
    ensures
        registry.manager is None ==> failed_with_text(r, SaveManagerError::NotInitialized),
        registry.manager matches Some(m) ==> (r matches Ok(s) ==> new_slot_of(
            s,
            m.saves_dir@,
            display_name@,
        )),
        registry.manager is Some ==> (r matches Err(t) ==> text_of_error(
            t@,
            |e: SaveManagerError| e is Database,
        )),
{
    match &registry.manager {
        None => Err(SaveManagerError::NotInitialized.message()),
        Some(manager) => match manager.create_slot(display_name) {
            Ok(slot) => Ok(slot),
            Err(e) => {
                let t = e.message();
                assert(error_text(e) == t@);
                Err(t)
            },
        },
    }
}

/// Every slot, the most recently played first, through the installed manager.
pub fn get_all_slots(registry: &Registry) -> (r: Result<Vec<SaveSlotMetadata>, String>)
    ensures
        registry.manager is None ==> failed_with_text(r, SaveManagerError::NotInitialized),
        r matches Ok(v) ==> most_recent_first(v@),
        registry.manager is Some ==> (r matches Err(t) ==> text_of_error(
            t@,
            |e: SaveManagerError| e is Database,
        )),
{
    match &registry.manager {
        None => Err(SaveManagerError::NotInitialized.message()),
        Some(manager) => match manager.all_slots() {
            Ok(slots) => Ok(slots),
            Err(e) => {
                let t = e.message();
                assert(error_text(e) == t@);
                Err(t)
            },
        },
    }
}

/// Makes `slot_id` the active slot of the installed manager.
pub fn load_slot(registry: &mut Registry, slot_id: String) -> (r: Result<(), String>)
    ensures
        old(registry).manager is None ==> (failed_with_text(r, SaveManagerError::NotInitialized)
            && *final(registry) == *old(registry)),
        old(registry).manager matches Some(m0) ==> (final(registry).manager matches Some(m1)
            && same_storage(m1, m0) && (r is Ok <==> m1.active_connection is Some)),
        old(registry).manager is Some ==> (r matches Err(t) ==> text_of_error(
            t@,
            |e: SaveManagerError|
                e is Database || e is Migration || (e matches SaveManagerError::SlotNotFound(id)
                    && id@ == slot_id@),
        )),
{
    match registry.manager.take() {
        None => Err(SaveManagerError::NotInitialized.message()),
        Some(mut manager) => {
            let outcome = manager.load_slot(slot_id);
            registry.manager = Some(manager);
            match outcome {
                Ok(()) => Ok(()),
                Err(e) => {
                    let t = e.message();
                    assert(error_text(e) == t@);
                    Err(t)
                },
            }
        },
    }
}

/// Writes `data` into the active slot of the installed manager.
pub fn save_player_data(registry: &mut Registry, data: PlayerData) -> (r: Result<(), String>)
    requires
        data.inventory@.len() <= i64::MAX,
    ensures
        old(registry).manager is None ==> *final(registry) == *old(registry),
        old(registry).manager matches Some(m0) ==> (final(registry).manager matches Some(m1)
            && same_storage(m1, m0) && (m0.active_connection is Some
            ==> m1.active_connection is Some)),
        old(registry).manager is None ==> failed_with_text(r, SaveManagerError::NotInitialized),
        old(registry).manager is Some ==> (r matches Err(t) ==> text_of_error(
            t@,
            |e: SaveManagerError| e is Database || e is NoActiveSlot,
        )),
        (old(registry).manager matches Some(m) && m.active_connection is None) ==> failed_with_text(
            r,
            SaveManagerError::NoActiveSlot,
        ),
{
    match registry.manager.take() {
        None => Err(SaveManagerError::NotInitialized.message()),
        Some(mut manager) => {
            let outcome = manager.save_player_data(data);
            registry.manager = Some(manager);
            match outcome {
                Ok(()) => Ok(()),
                Err(e) => {
                    let t = e.message();
                    assert(error_text(e) == t@);
                    Err(t)
                },
            }
        },
    }
}

/// Records the documents directory the host reported.
pub fn set_application_documents_directory(documents: &mut DocumentsDirectory, dir: String)
    ensures
        final(documents).dir == Some(dir),
{
    documents.dir = Some(dir);
}

/// The documents directory the host reported, if any.
pub fn debug_application_documents_directory(documents: &DocumentsDirectory) -> (r: Option<String>)
    ensures
        r matches Some(d) ==> documents.dir matches Some(e) && d@ == e@,
        r is None <==> documents.dir is None,
{
    match &documents.dir {
        None => None,
        Some(dir) => Some(dir.clone()),
    }
}

} // verus!
