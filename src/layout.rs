use vstd::prelude::*;

verus! {

/// Directory under the base path that belongs to this application.
pub const APP_NAME: &'static str = "my_app";

/// Directory under the application directory that holds the catalog and every slot file.
pub const SAVES_SUBDIRECTORY: &'static str = "saves";

/// File name of the slot catalog.
pub const METADATA_DB_FILE: &'static str = "metadata.db";

/// Extension of each slot's own data file: `.db`, like the catalog, for every slot.
pub const SLOT_FILE_EXTENSION: &'static str = ".db";

/// `name` placed under the directory `dir`, with one separator between them.
pub open spec fn path_join(dir: Seq<char>, name: Seq<char>) -> Seq<char> {
    if dir.len() == 0 {
        name
    } else if dir.last() == '/' {
        dir + name
    } else {
        dir + seq!['/'] + name
    }
}

/// The directory that holds the catalog and the slot files for a base path.
pub open spec fn saves_dir_of(base: Seq<char>) -> Seq<char> {
    path_join(path_join(base, APP_NAME@), SAVES_SUBDIRECTORY@)
}

/// The catalog file for a base path.
pub open spec fn metadata_db_path_of(base: Seq<char>) -> Seq<char> {
    path_join(saves_dir_of(base), METADATA_DB_FILE@)
}

/// The data file of the slot `id` inside `saves_dir`.
pub open spec fn slot_file_path_of(saves_dir: Seq<char>, id: Seq<char>) -> Seq<char> {
    path_join(saves_dir, id + SLOT_FILE_EXTENSION@)
}

/// What `path_join` places in front of the name.
pub open spec fn join_prefix(dir: Seq<char>) -> Seq<char> {
    if dir.len() == 0 {
        Seq::empty()
    } else if dir.last() == '/' {
        dir
    } else {
        dir + seq!['/']
    }
}

/// Slots with different identifiers have different data files, and every slot's data file
/// lies in the saves directory: its path starts with the directory and a separator.
pub proof fn lemma_slot_file_paths_distinct(saves_dir: Seq<char>, id1: Seq<char>, id2: Seq<char>)
    requires
        id1 != id2,
    ensures
        slot_file_path_of(saves_dir, id1) != slot_file_path_of(saves_dir, id2),
        saves_dir.len() > 0 ==> slot_file_path_of(saves_dir, id1).subrange(
            0,
            join_prefix(saves_dir).len() as int,
        ) == join_prefix(saves_dir) && join_prefix(saves_dir).last() == '/',
{
    let p = join_prefix(saves_dir);
    let ext = SLOT_FILE_EXTENSION@;
    let a = slot_file_path_of(saves_dir, id1);
    let b = slot_file_path_of(saves_dir, id2);
    assert(a =~= p + (id1 + ext));
    assert(b =~= p + (id2 + ext));
    assert(a.subrange(0, p.len() as int) =~= p);
    if a == b {
        assert(id1.len() == id2.len());
        assert(id1 =~= a.subrange(p.len() as int, (p.len() + id1.len()) as int));
        assert(id2 =~= b.subrange(p.len() as int, (p.len() + id2.len()) as int));
    }
}

/// Places `name` under the directory `dir`.
pub fn join_path(dir: &str, name: &str) -> (r: String)
    ensures
        r@ == path_join(dir@, name@),
{
    let n = dir.unicode_len();
    if n == 0 {
        String::from_str(name)
    } else if dir.get_char(n - 1) == '/' {
        String::from_str(dir).concat(name)
    } else {
        proof {
            reveal_strlit("/");
        }
        assert("/"@ =~= seq!['/']);
        String::from_str(dir).concat("/").concat(name)
    }
}

/// Where the files of a save manager live.
pub struct StorageLayout {
    pub saves_dir: String,
    pub metadata_db_path: String,
}

/// Derives the saves directory and the catalog path from the base path.
pub fn storage_layout(base_path: &str) -> (r: StorageLayout)
    ensures
        r.saves_dir@ == saves_dir_of(base_path@),
        r.metadata_db_path@ == metadata_db_path_of(base_path@),
{
    let app_dir = join_path(base_path, APP_NAME);
    let saves_dir = join_path(app_dir.as_str(), SAVES_SUBDIRECTORY);
    let metadata_db_path = join_path(saves_dir.as_str(), METADATA_DB_FILE);
    StorageLayout { saves_dir, metadata_db_path }
}

/// The data file of the slot `id` inside `saves_dir`.
pub fn slot_file_path(saves_dir: &str, id: &str) -> (r: String)
    ensures
        r@ == slot_file_path_of(saves_dir@, id@),
{
    let file_name = String::from_str(id).concat(SLOT_FILE_EXTENSION);
    join_path(saves_dir, file_name.as_str())
}

} // verus!
