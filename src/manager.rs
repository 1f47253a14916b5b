use vstd::prelude::*;

use crate::layout::{saves_dir_of, metadata_db_path_of, slot_file_path_of, slot_file_path, storage_layout, StorageLayout};
use crate::store::{
    begin_transaction, commit_transaction, current_time_text, execute, is_hyphenated_uuid,
    is_timestamp_text, query_text_rows4, migrate_to_latest, new_slot_id, open_connection, params_view,
    query_text, rollback_transaction, text_le, transaction_connection, update_pragma, SqlValue,
    SqlValueView, CATALOG_LISTING_SQL,
};
use crate::types::{PlayerData, SaveManagerError, SaveSlotMetadata};

verus! {

/// Layout of the timestamps kept in the catalog; the same text SQLite's CURRENT_TIMESTAMP gives.
pub const TIMESTAMP_PATTERN: &'static str = "%Y-%m-%d %H:%M:%S";

/// The pragma that selects the journal mode.
pub const JOURNAL_MODE_PRAGMA: &'static str = "journal_mode";

/// The write-ahead-log journal mode.
pub const WAL_MODE: &'static str = "WAL";

/// The catalog's table, created only where it does not exist yet.
pub const CATALOG_SCHEMA_SQL: &'static str = "CREATE TABLE IF NOT EXISTS save_slots (
            id UUID PRIMARY KEY,
            name TEXT NOT NULL,
            last_played TIMESTAMP DEFAULT CURRENT_TIMESTAMP,
            file_path TEXT NOT NULL
        )";

/// Opens, or creates, the database file at `path` with write-ahead logging switched on.
pub fn open_configured_connection(path: &str) -> (r: Result<rusqlite::Connection, SaveManagerError>)
    ensures
        r is Err ==> r->Err_0 is Database,
{
    match open_connection(path) {
        Err(e) => Err(SaveManagerError::Database(e)),
        Ok(connection) => match update_pragma(&connection, JOURNAL_MODE_PRAGMA, WAL_MODE) {
            Err(e) => Err(SaveManagerError::Database(e)),
            Ok(()) => Ok(connection),
        },
    }
}

/// Makes sure the catalog file at `path` holds the `save_slots` table.
pub fn initialize_metadata_db(path: &str) -> (r: Result<(), SaveManagerError>)
    ensures
        r is Err ==> r->Err_0 is Database,
{
    let connection = open_configured_connection(path)?;
    match execute(&connection, CATALOG_SCHEMA_SQL, &Vec::new()) {
        Err(e) => Err(SaveManagerError::Database(e)),
        Ok(()) => Ok(()),
    }
}

/// The first schema step of a slot's data file: the single stats row and the positioned
/// inventory.
pub const SLOT_SCHEMA_STEP_1: &'static str = "
        CREATE TABLE IF NOT EXISTS player_stats (
            id INTEGER PRIMARY KEY CHECK (id = 1),
            health INTEGER NOT NULL,
            experience INTEGER NOT NULL
        );
        CREATE TABLE IF NOT EXISTS inventory (
            position INTEGER PRIMARY KEY,
            item TEXT NOT NULL
        );
        ";

/// The schema steps of a slot's data file, oldest first.
pub fn slot_migrations() -> (r: Vec<String>)
    ensures
        r@.len() == 1,
        r@[0]@ == SLOT_SCHEMA_STEP_1@,
{
    let mut steps: Vec<String> = Vec::new();
    steps.push(String::from_str(SLOT_SCHEMA_STEP_1));
    steps
}

/// The catalog record of a new slot `id` named `name`, whose file lies in `saves_dir`.
pub fn slot_record(saves_dir: &str, id: String, name: String, last_played: String) -> (r:
    SaveSlotMetadata)
    ensures
        r.id@ == id@,
        r.name@ == name@,
        r.last_played@ == last_played@,
        r.file_path@ == slot_file_path_of(saves_dir@, id@),
{
    let file_path = slot_file_path(saves_dir, id.as_str());
    SaveSlotMetadata { id, name, last_played, file_path }
}

/// Each record was played no later than the one before it.
pub open spec fn most_recent_first(slots: Seq<SaveSlotMetadata>) -> bool {
    forall|i: int, j: int|
        0 <= i < j < slots.len() ==> text_le(slots[j].last_played@, slots[i].last_played@)
}

/// The catalog rows, in the order given, as records.
pub fn slots_from_rows(rows: Vec<(String, String, String, String)>) -> (r: Vec<SaveSlotMetadata>)
    ensures
        r@.len() == rows@.len(),
        forall|i: int|
            0 <= i < r@.len() ==> {
                &&& (#[trigger] r@[i]).id@ == rows@[i].0@
                &&& r@[i].name@ == rows@[i].1@
                &&& r@[i].last_played@ == rows@[i].2@
                &&& r@[i].file_path@ == rows@[i].3@
            },
{
    let mut slots: Vec<SaveSlotMetadata> = Vec::new();
    let mut i: usize = 0;
    while i < rows.len()
        invariant
            i <= rows@.len(),
            slots@.len() == i,
            forall|j: int|
                0 <= j < i ==> {
                    &&& (#[trigger] slots@[j]).id@ == rows@[j].0@
                    &&& slots@[j].name@ == rows@[j].1@
                    &&& slots@[j].last_played@ == rows@[j].2@
                    &&& slots@[j].file_path@ == rows@[j].3@
                },
        decreases rows@.len() - i,
    {
        let row = (rows[i].0.clone(), rows[i].1.clone(), rows[i].2.clone(), rows[i].3.clone());
        slots.push(SaveSlotMetadata::from_row(row));
        i = i + 1;
    }
    slots
}

/// Compares two texts in code-point lexicographic order.
pub fn text_le_exec(a: &str, b: &str) -> (r: bool)
    ensures
        r == text_le(a@, b@),
{
    let n = a.unicode_len();
    let m = b.unicode_len();
    let mut i: usize = 0;
    assert(a@.subrange(0, n as int) =~= a@);
    assert(b@.subrange(0, m as int) =~= b@);
    while i < n && i < m
        invariant
            i <= n,
            i <= m,
            n == a@.len(),
            m == b@.len(),
            text_le(a@, b@) == text_le(a@.subrange(i as int, n as int), b@.subrange(i as int, m as int)),
        decreases n - i,
    {
        let x = a.get_char(i);
        let y = b.get_char(i);
        let ghost sa = a@.subrange(i as int, n as int);
        let ghost sb = b@.subrange(i as int, m as int);
        assert(sa[0] == x && sb[0] == y);
        if x != y {
            return (x as u32) < (y as u32);
        }
        assert(sa.drop_first() =~= a@.subrange(i + 1, n as int));
        assert(sb.drop_first() =~= b@.subrange(i + 1, m as int));
        i = i + 1;
    }
    i == n
}

/// Hands back `slots` where each record was played no later than the one before it, and
/// a database error where the catalog listed them out of that order.
pub fn check_most_recent_first(slots: Vec<SaveSlotMetadata>) -> (r: Result<
    Vec<SaveSlotMetadata>,
    SaveManagerError,
>)
    ensures
        most_recent_first(slots@) ==> r == Ok::<Vec<SaveSlotMetadata>, SaveManagerError>(slots),
        !most_recent_first(slots@) ==> r matches Err(SaveManagerError::Database(_)),
{
    let n = slots.len();
    let mut i: usize = 0;
    while i < n
        invariant
            n == slots@.len(),
            i <= n,
            forall|p: int, q: int|
                0 <= p < i && p < q < n ==> text_le(slots@[q].last_played@, slots@[p].last_played@),
        decreases n - i,
    {
        let mut j: usize = i + 1;
        while j < n
            invariant
                n == slots@.len(),
                i < n,
                i + 1 <= j <= n,
                forall|p: int, q: int|
                    0 <= p < i && p < q < n ==> text_le(slots@[q].last_played@, slots@[p].last_played@),
                forall|q: int|
                    i < q < j ==> text_le(slots@[q].last_played@, slots@[i as int].last_played@),
            decreases n - j,
        {
            if !text_le_exec(slots[j].last_played.as_str(), slots[i].last_played.as_str()) {
                assert(!most_recent_first(slots@));
                return Err(
                    SaveManagerError::Database(
                        String::from_str("catalog listing is not ordered by last play"),
                    ),
                );
            }
            j = j + 1;
        }
        i = i + 1;
    }
    Ok(slots)
}

/// The parameters of the catalog row of `s`: its four fields as text, in column order.
pub open spec fn slot_row_params(s: SaveSlotMetadata) -> Seq<SqlValueView> {
    seq![
        SqlValueView::Text(s.id@),
        SqlValueView::Text(s.name@),
        SqlValueView::Text(s.last_played@),
        SqlValueView::Text(s.file_path@),
    ]
}

/// The parameters that insert the catalog row of `s`.
pub fn slot_insert_params(s: &SaveSlotMetadata) -> (r: Vec<SqlValue>)
    ensures
        params_view(r@) == slot_row_params(*s),
{
    let mut params: Vec<SqlValue> = Vec::new();
    params.push(SqlValue::Text(s.id.clone()));
    params.push(SqlValue::Text(s.name.clone()));
    params.push(SqlValue::Text(s.last_played.clone()));
    params.push(SqlValue::Text(s.file_path.clone()));
    assert(params_view(params@) =~= slot_row_params(*s));
    params
}

/// The parameters that pick the catalog row of the slot `slot_id`.
pub fn slot_key_params(slot_id: &String) -> (r: Vec<SqlValue>)
    ensures
        params_view(r@) == seq![SqlValueView::Text(slot_id@)],
{
    let mut params: Vec<SqlValue> = Vec::new();
    params.push(SqlValue::Text(slot_id.clone()));
    assert(params_view(params@) =~= seq![SqlValueView::Text(slot_id@)]);
    params
}

/// Decides the outcome of looking a slot up in the catalog: its file path where a row was
/// found, "slot not found" where none was, and a database error where the lookup failed.
pub fn slot_path_from_lookup(slot_id: &String, lookup: Result<Option<String>, String>) -> (r:
    Result<String, SaveManagerError>)
    ensures
        lookup matches Ok(Some(p)) ==> r == Ok::<String, SaveManagerError>(p),
        lookup matches Ok(None) ==> r matches Err(SaveManagerError::SlotNotFound(id)) && id@
            == slot_id@,
        lookup matches Err(m) ==> r == Err::<String, SaveManagerError>(
            SaveManagerError::Database(m),
        ),
{
    match lookup {
        Ok(Some(path)) => Ok(path),
        Ok(None) => Err(SaveManagerError::SlotNotFound(slot_id.clone())),
        Err(m) => Err(SaveManagerError::Database(m)),
    }
}

/// The rows of the `inventory` table that stand for `inventory`: each item beside its
/// position in the list.
pub open spec fn inventory_rows_of(inventory: Seq<String>) -> Seq<(int, Seq<char>)> {
    Seq::new(inventory.len(), |i: int| (i, inventory[i]@))
}

/// The item of each row of `rows`, in row order.
pub open spec fn items_of(rows: Seq<(int, Seq<char>)>) -> Seq<Seq<char>> {
    rows.map_values(|row: (int, Seq<char>)| row.1)
}

/// The rows of a row set, as positions and item texts.
pub open spec fn rows_view(rows: Seq<(i64, String)>) -> Seq<(int, Seq<char>)> {
    rows.map_values(|row: (i64, String)| (row.0 as int, row.1@))
}

/// The inventory as rows of the `inventory` table: each item beside its position.
pub fn inventory_rows(inventory: &Vec<String>) -> (r: Vec<(i64, String)>)
    requires
        inventory@.len() <= i64::MAX,
    ensures
        rows_view(r@) == inventory_rows_of(inventory@),
        r@.len() == inventory@.len(),
        forall|i: int|
            0 <= i < r@.len() ==> (#[trigger] r@[i]).0 == i && r@[i].1@ == inventory@[i]@,
{
    let mut rows: Vec<(i64, String)> = Vec::new();
    let mut i: usize = 0;
    while i < inventory.len()
        invariant
            i <= inventory@.len(),
            inventory@.len() <= i64::MAX,
            rows@.len() == i,
            forall|j: int|
                0 <= j < i ==> (#[trigger] rows@[j]).0 == j && rows@[j].1@ == inventory@[j]@,
        decreases inventory@.len() - i,
    {
        rows.push((i as i64, inventory[i].clone()));
        i = i + 1;
    }
    assert(rows_view(rows@) =~= inventory_rows_of(inventory@));
    rows
}

/// Reading the rows written for an inventory back in position order gives the inventory
/// itself: positions run from zero upward, and the items keep their order and repeats.
pub proof fn lemma_inventory_rows_round_trip(inventory: Seq<String>)
    ensures
        inventory_rows_of(inventory).len() == inventory.len(),
        items_of(inventory_rows_of(inventory)) =~= inventory.map_values(|s: String| s@),
        forall|i: int|
            0 <= i < inventory.len() ==> (#[trigger] inventory_rows_of(inventory)[i]).0 == i,
{
}

/// Owns the storage directory, the slot catalog in it, and at most one open slot file.
pub struct SaveManager {
    pub saves_dir: String,
    pub metadata_db_path: String,
    pub active_connection: Option<rusqlite::Connection>,
}

/// `m` keeps the paths of `base` and holds no active slot.
pub open spec fn fresh_manager_of(m: SaveManager, base: Seq<char>) -> bool {
    &&& m.saves_dir@ == saves_dir_of(base)
    &&& m.metadata_db_path@ == metadata_db_path_of(base)
    &&& m.active_connection is None
}

/// `m` is the record of a slot just created in `saves_dir` under the name `name`.
pub open spec fn new_slot_of(m: SaveSlotMetadata, saves_dir: Seq<char>, name: Seq<char>) -> bool {
    &&& m.name@ == name
    &&& is_hyphenated_uuid(m.id@)
    &&& (is_timestamp_text(m.last_played@) || (m.last_played@.len() > 0 && m.last_played@[0] == '+'))
    &&& m.file_path@ == slot_file_path_of(saves_dir, m.id@)
}

/// `b` has the paths of `a`.
pub open spec fn same_storage(a: SaveManager, b: SaveManager) -> bool {
    a.saves_dir == b.saves_dir && a.metadata_db_path == b.metadata_db_path
}

/// Two managers initialized over the same base path work on the same saves directory and
/// the same catalog file, so initializing again reaches the slots recorded before.
pub proof fn lemma_initialize_twice_same_storage(first: SaveManager, second: SaveManager, base: Seq<char>)
    requires
        fresh_manager_of(first, base),
        fresh_manager_of(second, base),
    ensures
        first.saves_dir@ == second.saves_dir@,
        first.metadata_db_path@ == second.metadata_db_path@,
{
}

impl SaveManager {
    /// Sets up a manager over `base_path/APP_NAME/saves`, making sure its catalog exists.
    /// The saves directory is created beforehand by the caller (see `storage_layout`).
    pub fn initialize(base_path: String) -> (r: Result<SaveManager, SaveManagerError>)
        ensures
            r matches Ok(m) ==> fresh_manager_of(m, base_path@),
            r is Err ==> r->Err_0 is Database,
    {
        SaveManager::open(storage_layout(base_path.as_str()))
    }

    /// Sets up a manager over the directory and catalog file of `layout`, making sure the
    /// catalog exists; no slot is active.
    pub fn open(layout: StorageLayout) -> (r: Result<SaveManager, SaveManagerError>)
        ensures
            r matches Ok(m) ==> {
                &&& m.saves_dir == layout.saves_dir
                &&& m.metadata_db_path == layout.metadata_db_path
                &&& m.active_connection is None
            },
            r is Err ==> r->Err_0 is Database,
    {
        initialize_metadata_db(layout.metadata_db_path.as_str())?;
        Ok(SaveManager {
            saves_dir: layout.saves_dir,
            metadata_db_path: layout.metadata_db_path,
            active_connection: None,
        })
    }

    /// A new connection to the catalog.
    pub fn metadata_connection(&self) -> (r: Result<rusqlite::Connection, SaveManagerError>)
        ensures
            r is Err ==> r->Err_0 is Database,
    {
        open_configured_connection(self.metadata_db_path.as_str())
    }

    /// Records a new slot named `display_name` in the catalog, with a fresh identifier and
    /// the current time as its last play; its data file is not created here. The row sent
    /// to the catalog is `slot_row_params` of the record returned.
    pub fn create_slot(&self, display_name: String) -> (r: Result<SaveSlotMetadata, SaveManagerError>)
        ensures
            r matches Ok(m) ==> new_slot_of(m, self.saves_dir@, display_name@),
            r is Err ==> r->Err_0 is Database,
    {
        let slot_id = new_slot_id();
        let last_played = current_time_text(TIMESTAMP_PATTERN);
        let record = slot_record(self.saves_dir.as_str(), slot_id, display_name, last_played);
        let connection = self.metadata_connection()?;
        let params = slot_insert_params(&record);
        match execute(
            &connection,
            "INSERT INTO save_slots (id, name, last_played, file_path)
             VALUES (?1, ?2, ?3, ?4)",
            &params,
        ) {
            Err(e) => Err(SaveManagerError::Database(e)),
            Ok(()) => Ok(record),
        }
    }

    /// Every slot of the catalog, the most recently played first.
    pub fn all_slots(&self) -> (r: Result<Vec<SaveSlotMetadata>, SaveManagerError>)
        ensures
            r matches Ok(v) ==> most_recent_first(v@),
            r is Err ==> r->Err_0 is Database,
    {
        let connection = self.metadata_connection()?;
        match query_text_rows4(&connection, CATALOG_LISTING_SQL) {
            Err(e) => Err(SaveManagerError::Database(e)),
            Ok(rows) => check_most_recent_first(slots_from_rows(rows)),
        }
    }

    /// Closes the active slot file, if one is open.
    pub fn close_active_connection(&mut self)
        ensures
            final(self).active_connection is None,
            same_storage(*final(self), *old(self)),
    {
        if self.active_connection.is_some() {
            self.active_connection = None;
        }
    }

    /// Makes the slot `slot_id` the active one: closes the current slot file, looks the
    /// slot up, opens its file, brings its schema up to date and stamps its last play.
    /// On any failure no slot is active afterwards.
    pub fn load_slot(&mut self, slot_id: String) -> (r: Result<(), SaveManagerError>)
        ensures
            same_storage(*final(self), *old(self)),
            r is Ok <==> final(self).active_connection is Some,
            r matches Err(SaveManagerError::SlotNotFound(id)) ==> id@ == slot_id@,
            r is Err ==> (r->Err_0 is Database || r->Err_0 is SlotNotFound
                || r->Err_0 is Migration),
    {
        self.close_active_connection();
        let metadata_connection = self.metadata_connection()?;
        let lookup = query_text(
            &metadata_connection,
            "SELECT file_path FROM save_slots WHERE id = ?1",
            slot_id.as_str(),
        );
        let slot_path = slot_path_from_lookup(&slot_id, lookup)?;
        let mut slot_connection = open_configured_connection(slot_path.as_str())?;
        let steps = slot_migrations();
        if let Err(e) = migrate_to_latest(&mut slot_connection, &steps) {
            return Err(load_step_error(LoadStep::Migrate, e));
        }
        let params = slot_key_params(&slot_id);
        if let Err(e) = execute(
            &metadata_connection,
            "UPDATE save_slots SET last_played = CURRENT_TIMESTAMP WHERE id = ?1",
            &params,
        ) {
            return Err(load_step_error(LoadStep::Stamp, e));
        }
        self.active_connection = Some(slot_connection);
        Ok(())
    }

    /// Writes `data` into the active slot as one transaction, the statements of
    /// `save_plan(data)` (built by `player_data_statements`): the single stats row is
    /// inserted or overwritten, and the inventory rows are replaced by one row per item at
    /// its position. Fails with "no active slot", writing nothing, when no slot is loaded.
    pub fn save_player_data(&mut self, data: PlayerData) -> (r: Result<(), SaveManagerError>)
        requires
            data.inventory@.len() <= i64::MAX,
        ensures
            old(self).active_connection is None ==> r == Err::<(), SaveManagerError>(
                SaveManagerError::NoActiveSlot,
            ) && *final(self) == *old(self),
            old(self).active_connection is Some ==> {
                &&& same_storage(*final(self), *old(self))
                &&& final(self).active_connection is Some
                &&& r is Err ==> r->Err_0 is Database
            },
    {
        match self.active_connection.take() {
            None => Err(SaveManagerError::NoActiveSlot),
            Some(mut connection) => {
                let outcome = write_player_data(&mut connection, &data);
                self.active_connection = Some(connection);
                outcome
            },
        }
    }
}

/// Upserts the single stats row.
pub const STATS_UPSERT_SQL: &'static str = "INSERT INTO player_stats (id, health, experience)
             VALUES (1, ?1, ?2)
             ON CONFLICT(id) DO UPDATE SET
                health = excluded.health,
                experience = excluded.experience";

/// Empties the inventory.
pub const INVENTORY_CLEAR_SQL: &'static str = "DELETE FROM inventory";

/// Inserts one inventory row.
pub const INVENTORY_INSERT_SQL: &'static str = "INSERT INTO inventory (position, item) VALUES (?1, ?2)";

/// Statements with their parameters, as texts and values.
pub open spec fn statements_view(s: Seq<(String, Vec<SqlValue>)>) -> Seq<(Seq<char>, Seq<SqlValueView>)> {
    s.map_values(|st: (String, Vec<SqlValue>)| (st.0@, params_view(st.1@)))
}

/// The statement that stores one inventory row.
pub open spec fn inventory_insert(row: (int, Seq<char>)) -> (Seq<char>, Seq<SqlValueView>) {
    (INVENTORY_INSERT_SQL@, seq![SqlValueView::Integer(row.0 as i64), SqlValueView::Text(row.1)])
}

/// The statements of one save of `data`, in order: the stats upsert with health and
/// experience, the removal of every inventory row, then one insert per inventory row.
pub open spec fn save_plan(data: PlayerData) -> Seq<(Seq<char>, Seq<SqlValueView>)> {
    seq![
        (STATS_UPSERT_SQL@, seq![SqlValueView::Integer(data.health as i64), SqlValueView::Integer(data.experience as i64)]),
        (INVENTORY_CLEAR_SQL@, Seq::<SqlValueView>::empty()),
    ] + inventory_rows_of(data.inventory@).map_values(|row: (int, Seq<char>)| inventory_insert(row))
}

/// Builds the statements of one save of `data`.
pub fn player_data_statements(data: &PlayerData) -> (r: Vec<(String, Vec<SqlValue>)>)
    requires
        data.inventory@.len() <= i64::MAX,
    ensures
        statements_view(r@) == save_plan(*data),
{
    let ghost plan = save_plan(*data);
    let mut statements: Vec<(String, Vec<SqlValue>)> = Vec::new();
    let mut stats: Vec<SqlValue> = Vec::new();
    stats.push(SqlValue::Integer(data.health as i64));
    stats.push(SqlValue::Integer(data.experience as i64));
    assert(params_view(stats@) =~= plan[0].1);
    statements.push((String::from_str(STATS_UPSERT_SQL), stats));
    let clear: Vec<SqlValue> = Vec::new();
    assert(params_view(clear@) =~= plan[1].1);
    statements.push((String::from_str(INVENTORY_CLEAR_SQL), clear));
    let rows = inventory_rows(&data.inventory);
    assert(statements_view(statements@) =~= plan.subrange(0, 2));
    let mut i: usize = 0;
    while i < rows.len()
        invariant
            plan == save_plan(*data),
            plan.len() == 2 + rows@.len(),
            i <= rows@.len(),
            rows_view(rows@) == inventory_rows_of(data.inventory@),
            statements_view(statements@) =~= plan.subrange(0, 2 + i),
        decreases rows@.len() - i,
    {
        let mut params: Vec<SqlValue> = Vec::new();
        params.push(SqlValue::Integer(rows[i].0));
        params.push(SqlValue::Text(rows[i].1.clone()));
        proof {
            assert(rows_view(rows@)[i as int] == (rows@[i as int].0 as int, rows@[i as int].1@));
            assert(params_view(params@) =~= plan[2 + i].1);
        }
        let ghost before = statements@;
        statements.push((String::from_str(INVENTORY_INSERT_SQL), params));
        proof {
            assert(statements_view(statements@) =~= statements_view(before).push(plan[2 + i]));
            assert(plan.subrange(0, 2 + i + 1) =~= plan.subrange(0, 2 + i).push(plan[2 + i]));
        }
        i = i + 1;
    }
    assert(plan.subrange(0, plan.len() as int) =~= plan);
    statements
}

/// How a transaction ends.
pub enum TxEnd {
    Commit,
    Rollback(String),
}

/// Decides how a save's transaction ends from the outcome of its statements: committed
/// when every statement succeeded, rolled back with the failure's text otherwise.
pub fn transaction_end(run: Result<(), String>) -> (r: TxEnd)
    ensures
        run is Ok <==> r is Commit,
        run matches Err(m) ==> r == TxEnd::Rollback(m),
{
    match run {
        Ok(()) => TxEnd::Commit,
        Err(m) => TxEnd::Rollback(m),
    }
}

/// The step of loading a slot that failed.
pub enum LoadStep {
    Migrate,
    Stamp,
}

/// The error of a failed step of loading a slot: a migration error for the schema step,
/// a database error for the stamp.
pub fn load_step_error(step: LoadStep, message: String) -> (r: SaveManagerError)
    ensures
        step is Migrate ==> r == SaveManagerError::Migration(message),
        step is Stamp ==> r == SaveManagerError::Database(message),
{
    match step {
        LoadStep::Migrate => SaveManagerError::Migration(message),
        LoadStep::Stamp => SaveManagerError::Database(message),
    }
}

/// Runs `statements` in order through `connection`, stopping at the first failure.
fn run_statements(connection: &rusqlite::Connection, statements: &Vec<(String, Vec<SqlValue>)>) -> (r: Result<(), String>)
{
    let mut i: usize = 0;
    while i < statements.len()
        invariant
            i <= statements@.len(),
        decreases statements@.len() - i,
    {
        execute(connection, statements[i].0.as_str(), &statements[i].1)?;
        i = i + 1;
    }
    Ok(())
}

/// Saves `data` through `connection`: the statements of `save_plan(data)` run in one
/// transaction, committed when all of them succeed and rolled back at the first failure.
fn write_player_data(connection: &mut rusqlite::Connection, data: &PlayerData) -> (r: Result<
    (),
    SaveManagerError,
>)
    requires
        data.inventory@.len() <= i64::MAX,
    ensures
        r is Err ==> r->Err_0 is Database,
{
    let statements = player_data_statements(data);
    let tx = match begin_transaction(connection) {
        Err(e) => return Err(SaveManagerError::Database(e)),
        Ok(tx) => tx,
    };
    let run = run_statements(transaction_connection(&tx), &statements);
    match transaction_end(run) {
        TxEnd::Rollback(e) => {
            let _ = rollback_transaction(tx);
            Err(SaveManagerError::Database(e))
        },
        TxEnd::Commit => match commit_transaction(tx) {
            Err(e) => Err(SaveManagerError::Database(e)),
            Ok(()) => Ok(()),
        },
    }
}

} // verus!
