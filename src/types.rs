use vstd::prelude::*;

verus! {

/// One row of the slot catalog.
#[derive(Clone, Debug)]
pub struct SaveSlotMetadata {
    pub id: String,
    pub name: String,
    pub last_played: String,
    pub file_path: String,
}

impl SaveSlotMetadata {
    /// Builds a record from the four catalog columns, in table order.
    pub fn from_row(row: (String, String, String, String)) -> (r: SaveSlotMetadata)
        ensures
            r.id@ == row.0@,
            r.name@ == row.1@,
            r.last_played@ == row.2@,
            r.file_path@ == row.3@,
    {
        let (id, name, last_played, file_path) = row;
        SaveSlotMetadata { id, name, last_played, file_path }
    }
}

/// The gameplay payload written into the active slot.
#[derive(Clone, Debug)]
pub struct PlayerData {
    pub health: i32,
    pub experience: i32,
    pub inventory: Vec<String>,
}

/// What can go wrong in the save manager and in the registry around it.
#[derive(Clone, Debug)]
pub enum SaveManagerError {
    Io(String),
    Database(String),
    SlotNotFound(String),
    NoActiveSlot,
    Migration(String),
    NotInitialized,
    LockPoisoned,
}

/// The human-readable text of an error.
pub open spec fn error_text(e: SaveManagerError) -> Seq<char> {
    match e {
        SaveManagerError::Io(m) => "I/O error: "@ + m@,
        SaveManagerError::Database(m) => "database error: "@ + m@,
        SaveManagerError::SlotNotFound(id) => "save slot with id '"@ + id@ + "' does not exist"@,
        SaveManagerError::NoActiveSlot => "no save slot is currently loaded"@,
        SaveManagerError::Migration(m) => "migration error: "@ + m@,
        SaveManagerError::NotInitialized => "SaveManager has not been initialized"@,
        SaveManagerError::LockPoisoned => "SaveManager lock poisoned"@,
    }
}

impl SaveManagerError {
    /// The text of this error, as handed across the host boundary.
    pub fn message(&self) -> (r: String)
        ensures
            r@ == error_text(*self),
    {
        match self {
            SaveManagerError::Io(m) => String::from_str("I/O error: ").concat(m.as_str()),
            SaveManagerError::Database(m) => String::from_str("database error: ").concat(m.as_str()),
            SaveManagerError::SlotNotFound(id) => String::from_str("save slot with id '").concat(
                id.as_str(),
            ).concat("' does not exist"),
            SaveManagerError::NoActiveSlot => String::from_str("no save slot is currently loaded"),
            SaveManagerError::Migration(m) => String::from_str("migration error: ").concat(m.as_str()),
            SaveManagerError::NotInitialized => String::from_str("SaveManager has not been initialized"),
            SaveManagerError::LockPoisoned => String::from_str("SaveManager lock poisoned"),
        }
    }
}

} // verus!
