//! The entity store and the schema bootstrap. A `Store` owns one SQLite
//! connection; the ghost model beside it holds the rows of the two tables,
//! whether each table exists, and the ids each has ever assigned. Each SQL
//! statement the store issues sits in one trusted wrapper whose contract
//! states the statement's effect on the model; everything above the wrappers
//! is verified.

use vstd::prelude::*;

use crate::model::FileRow;
use crate::model::LinkRow;
use crate::model::StoreModel;
use crate::model::files_with_data;
use crate::model::files_without_id;
use crate::model::lemma_file_insert_preserves_inv;
use crate::model::lemma_file_without_id_preserves_inv;
use crate::model::lemma_link_insert_preserves_inv;
use crate::model::lemma_with_data_preserves_inv;
use crate::model::lemma_with_target_preserves_inv;
use crate::model::lemma_without_id_preserves_inv;
use crate::model::links_with_target;
use crate::model::links_without_id;
use crate::model::model_inv;
use crate::model::rows_preserved;

verus! {

/// A registered redirect: a unique name and the target text stored under it.
/// `id` is the surrogate key the store assigned at creation; update and
/// delete address the row by it.
#[derive(Debug)]
pub struct Link {
    pub id: i64,
    pub name: String,
    pub target: String,
}

/// A stored payload, or a metadata-only handle to one: a read by name leaves
/// `data` unset so that existence checks never move the blob, and the blob is
/// fetched by id in a second step.
#[derive(Debug)]
pub struct File {
    pub id: i64,
    pub name: String,
    pub data: Option<Vec<u8>>,
}

/// What an operation can fail with. Absence of a row is not a failure: reads
/// report it as `None`.
#[derive(Debug, Clone, Copy, PartialEq, Eq, Structural)]
pub enum StoreError {
    /// A create hit a name that already exists in that table.
    Conflict,
    /// The storage engine failed: I/O error, missing table, malformed file.
    StorageFailure,
}

#[verifier::external_type_specification]
#[verifier::external_body]
pub struct ExConnection(rusqlite::Connection);

/// An open database carrying the two tables of the store. The ghost model is
/// what the database holds; every operation's contract says how it moves.
pub struct Store {
    conn: rusqlite::Connection,
    model: Ghost<StoreModel>,
}

impl View for Store {
    type V = StoreModel;

    closed spec fn view(&self) -> StoreModel {
        self.model@
    }
}

impl Store {
    /// Ids are unique within each table, so a handle's id picks out at most
    /// one row, and every current row's id is in the table's id history.
    /// Holds of every store obtained from `connect` and is kept by every
    /// operation.
    pub open spec fn inv(self) -> bool {
        model_inv(self@)
    }
}

/// Wraps a fresh connection. The model field carries no information of its
/// own: everything known about it comes from the contracts of the trusted
/// wrappers below, starting with `open_store`.
fn store_with(conn: rusqlite::Connection) -> Store {
    Store { conn, model: Ghost(arbitrary()) }
}

/// Relies on rusqlite's `Connection::open`: it opens (creating it if absent)
/// the database file at `path`. The model is read off the tables the file
/// holds, taken to be in the store's shape where they exist (`autoincrement`
/// rowid `id`, `name` unique); a table not present yet holds no rows and an
/// empty id history. Ids are then unique because each table's ids are its
/// rowids, and every row's id is in the history by definition.
#[verifier::external_body]
fn open_store(path: &str) -> (r: Result<Store, StoreError>)
    ensures
        r matches Ok(s) ==> s.inv(),
{
    match rusqlite::Connection::open(path) {
        Ok(conn) => Ok(store_with(conn)),
        Err(_) => Err(StoreError::StorageFailure),
    }
}

/// Relies on rusqlite's `Connection::prepare`: `SELECT * FROM links` only
/// compiles against a table (or view) named `links`, so a successful probe
/// means the table exists; compiling reads and writes no row. Nothing is
/// promised of a `false` answer: the caller then creates the table, and a
/// create against a table that was there after all simply fails.
#[verifier::external_body]
fn probe_links_table(store: &Store) -> (r: bool)
    ensures
        r ==> store@.links_table_exists,
{
    store.conn.prepare("SELECT * FROM links;").is_ok()
}

/// Relies on rusqlite's `Connection::prepare`, as `probe_links_table`, for
/// the files table.
#[verifier::external_body]
fn probe_files_table(store: &Store) -> (r: bool)
    ensures
        r ==> store@.files_table_exists,
{
    store.conn.prepare("SELECT * FROM files;").is_ok()
}

/// Relies on rusqlite's `Connection::execute` running `create table links`:
/// on success the table exists and is empty, with no id ever assigned, so
/// the stored rows (none, the table being absent before) are unchanged; a
/// failed statement changes nothing.
#[verifier::external_body]
fn create_links_table(store: &mut Store) -> (r: Result<(), StoreError>)
    ensures
        r is Ok ==> final(store)@ == (StoreModel { links_table_exists: true, ..old(store)@ }),
        r is Err ==> final(store)@ == old(store)@,
{
    let sql = "create table links (
        id integer primary key autoincrement,
        name text not null unique,
        target text not null
    );";
    match store.conn.execute(sql, ()) {
        Ok(_) => Ok(()),
        Err(_) => Err(StoreError::StorageFailure),
    }
}

/// Relies on rusqlite's `Connection::execute` running `create table files`,
/// as `create_links_table`.
#[verifier::external_body]
fn create_files_table(store: &mut Store) -> (r: Result<(), StoreError>)
    ensures
        r is Ok ==> final(store)@ == (StoreModel { files_table_exists: true, ..old(store)@ }),
        r is Err ==> final(store)@ == old(store)@,
{
    let sql = "create table files (
        id integer primary key autoincrement,
        name text not null unique,
        data blob not null
    );";
    match store.conn.execute(sql, ()) {
        Ok(_) => Ok(()),
        Err(_) => Err(StoreError::StorageFailure),
    }
}

/// Relies on rusqlite's prepare/query/next/get running
/// `insert into links .. returning id`: on success SQLite adds exactly one
/// row and returns its rowid, which `autoincrement` makes strictly larger
/// than any rowid the table has ever assigned — never one reused; the
/// `unique` constraint on `name` makes the statement fail with a constraint
/// violation precisely when the name is already stored; a failed statement
/// leaves the table as it was.
#[verifier::external_body]
fn insert_link_row(store: &mut Store, name: &str, target: &str) -> (r: Result<i64, StoreError>)
    ensures
        r matches Ok(id) ==> {
            &&& !old(store)@.links.contains_key(name@)
            &&& !old(store)@.used_link_ids.contains(id)
            &&& final(store)@ == (StoreModel {
                links: old(store)@.links.insert(name@, LinkRow { id, target: target@ }),
                used_link_ids: old(store)@.used_link_ids.insert(id),
                ..old(store)@
            })
        },
        r is Err ==> final(store)@ == old(store)@,
        r matches Err(StoreError::Conflict) ==> old(store)@.links.contains_key(name@),
{
    let sql = "insert into links (name, target) values (?1, ?2) returning id;";
    let r = (|| -> rusqlite::Result<i64> {
        let mut stmt = store.conn.prepare(sql)?;
        let mut rows = stmt.query((name, target))?;
        match rows.next()? {
            Some(row) => row.get(0),
            None => Err(rusqlite::Error::QueryReturnedNoRows),
        }
    })();
    match r {
        Ok(id) => Ok(id),
        Err(e) if e.sqlite_error_code() == Some(rusqlite::ffi::ErrorCode::ConstraintViolation) => Err(StoreError::Conflict),
        Err(_) => Err(StoreError::StorageFailure),
    }
}

/// Relies on rusqlite's prepare/query/next/get running
/// `select id, name, target from links where name=?1`: a row comes back
/// exactly when the name is stored, and its columns are that row's id, its
/// name (the one queried) and its target.
#[verifier::external_body]
fn select_link_row(store: &Store, name: &str) -> (r: Result<
    Option<(i64, String, String)>,
    StoreError,
>)
    ensures
        r matches Ok(Some(row)) ==> {
            &&& store@.links.contains_key(name@)
            &&& row.0 == store@.links[name@].id
            &&& row.1@ == name@
            &&& row.2@ == store@.links[name@].target
        },
        r matches Ok(None) ==> !store@.links.contains_key(name@),
{
    let r = (|| -> rusqlite::Result<Option<(i64, String, String)>> {
        let mut stmt = store.conn.prepare("select id, name, target from links where name=?1")?;
        let mut rows = stmt.query((name,))?;
        match rows.next()? {
            Some(row) => Ok(Some((row.get(0)?, row.get(1)?, row.get(2)?))),
            None => Ok(None),
        }
    })();
    match r {
        Ok(v) => Ok(v),
        Err(_) => Err(StoreError::StorageFailure),
    }
}

/// Relies on rusqlite's `Connection::execute` running
/// `update links set target=?1 where id=?2`: every row whose id matches (at
/// most one, ids being rowids) gets the new target and keeps its other
/// columns, all other rows are untouched; zero matching rows still succeed;
/// a failed statement changes nothing. No id is assigned or retired.
#[verifier::external_body]
fn update_link_row(store: &mut Store, id: i64, target: &str) -> (r: Result<(), StoreError>)
    ensures
        r is Ok ==> final(store)@ == (StoreModel {
            links: links_with_target(old(store)@.links, id, target@),
            ..old(store)@
        }),
        r is Err ==> final(store)@ == old(store)@,
{
    match store.conn.execute("update links set target=?1 where id=?2", (target, id)) {
        Ok(_) => Ok(()),
        Err(_) => Err(StoreError::StorageFailure),
    }
}

/// Relies on rusqlite's `Connection::execute` running
/// `delete from links where id=?1`: every row whose id matches is removed,
/// all other rows are untouched; zero matching rows still succeed; a failed
/// statement changes nothing. The id history keeps the deleted id: with
/// `autoincrement`, SQLite never hands it out again.
#[verifier::external_body]
fn delete_link_row(store: &mut Store, id: i64) -> (r: Result<(), StoreError>)
    ensures
        r is Ok ==> final(store)@ == (StoreModel {
            links: links_without_id(old(store)@.links, id),
            ..old(store)@
        }),
        r is Err ==> final(store)@ == old(store)@,
{
    match store.conn.execute("delete from links where id=?1", (id,)) {
        Ok(_) => Ok(()),
        Err(_) => Err(StoreError::StorageFailure),
    }
}

/// Relies on rusqlite's prepare/query/next/get running
/// `insert into files .. returning id`, as `insert_link_row` for the files
/// table.
#[verifier::external_body]
fn insert_file_row(store: &mut Store, name: &str, data: &Vec<u8>) -> (r: Result<i64, StoreError>)
    ensures
        r matches Ok(id) ==> {
            &&& !old(store)@.files.contains_key(name@)
            &&& !old(store)@.used_file_ids.contains(id)
            &&& final(store)@ == (StoreModel {
                files: old(store)@.files.insert(name@, FileRow { id, data: data@ }),
                used_file_ids: old(store)@.used_file_ids.insert(id),
                ..old(store)@
            })
        },
        r is Err ==> final(store)@ == old(store)@,
        r matches Err(StoreError::Conflict) ==> old(store)@.files.contains_key(name@),
{
    let sql = "insert into files (name, data) values (?1, ?2) returning id;";
    let r = (|| -> rusqlite::Result<i64> {
        let mut stmt = store.conn.prepare(sql)?;
        let mut rows = stmt.query((name, data))?;
        match rows.next()? {
            Some(row) => row.get(0),
            None => Err(rusqlite::Error::QueryReturnedNoRows),
        }
    })();
    match r {
        Ok(id) => Ok(id),
        Err(e) if e.sqlite_error_code() == Some(rusqlite::ffi::ErrorCode::ConstraintViolation) => Err(StoreError::Conflict),
        Err(_) => Err(StoreError::StorageFailure),
    }
}

/// Relies on rusqlite's prepare/query/next/get running
/// `select id, name from files where name=?1`: a row comes back exactly when
/// the name is stored, and its columns are that row's id and its name; the
/// blob is not touched.
#[verifier::external_body]
fn select_file_row(store: &Store, name: &str) -> (r: Result<Option<(i64, String)>, StoreError>)
    ensures
        r matches Ok(Some(row)) ==> {
            &&& store@.files.contains_key(name@)
            &&& row.0 == store@.files[name@].id
            &&& row.1@ == name@
        },
        r matches Ok(None) ==> !store@.files.contains_key(name@),
{
    let r = (|| -> rusqlite::Result<Option<(i64, String)>> {
        let mut stmt = store.conn.prepare("select id, name from files where name=?1")?;
        let mut rows = stmt.query((name,))?;
        match rows.next()? {
            Some(row) => Ok(Some((row.get(0)?, row.get(1)?))),
            None => Ok(None),
        }
    })();
    match r {
        Ok(v) => Ok(v),
        Err(_) => Err(StoreError::StorageFailure),
    }
}

/// Relies on rusqlite's prepare/query/next/get running
/// `select data from files where id=?1`: a row comes back exactly when some
/// row carries the id, and the column is that row's blob, byte for byte.
#[verifier::external_body]
fn select_file_data(store: &Store, id: i64) -> (r: Result<Option<Vec<u8>>, StoreError>)
    ensures
        r matches Ok(Some(d)) ==> exists|n: Seq<char>|
            #[trigger] store@.files.contains_key(n) && store@.files[n].id == id
                && store@.files[n].data == d@,
        r matches Ok(None) ==> forall|n: Seq<char>|
            #[trigger] store@.files.contains_key(n) ==> store@.files[n].id != id,
{
    let r = (|| -> rusqlite::Result<Option<Vec<u8>>> {
        let mut stmt = store.conn.prepare("select data from files where id=?1")?;
        let mut rows = stmt.query((id,))?;
        match rows.next()? {
            Some(row) => Ok(Some(row.get(0)?)),
            None => Ok(None),
        }
    })();
    match r {
        Ok(v) => Ok(v),
        Err(_) => Err(StoreError::StorageFailure),
    }
}

/// Relies on rusqlite's `Connection::execute` running
/// `update files set data=?1 where id=?2`, as `update_link_row` for the
/// files table.
#[verifier::external_body]
fn update_file_row(store: &mut Store, id: i64, data: &Vec<u8>) -> (r: Result<(), StoreError>)
    ensures
        r is Ok ==> final(store)@ == (StoreModel {
            files: files_with_data(old(store)@.files, id, data@),
            ..old(store)@
        }),
        r is Err ==> final(store)@ == old(store)@,
{
    match store.conn.execute("update files set data=?1 where id=?2", (data, id)) {
        Ok(_) => Ok(()),
        Err(_) => Err(StoreError::StorageFailure),
    }
}

/// Relies on rusqlite's `Connection::execute` running
/// `delete from files where id=?1`, as `delete_link_row`.
#[verifier::external_body]
fn delete_file_row(store: &mut Store, id: i64) -> (r: Result<(), StoreError>)
    ensures
        r is Ok ==> final(store)@ == (StoreModel {
            files: files_without_id(old(store)@.files, id),
            ..old(store)@
        }),
        r is Err ==> final(store)@ == old(store)@,
{
    match store.conn.execute("delete from files where id=?1", (id,)) {
        Ok(_) => Ok(()),
        Err(_) => Err(StoreError::StorageFailure),
    }
}

/// Opens the database at `path` (the default location when none is given)
/// and bootstraps the schema: on success both tables exist and the store's
/// operations can run against the returned handle.
pub fn connect(path: Option<&str>) -> (r: Result<Store, StoreError>)
    ensures
        r matches Ok(s) ==> s.inv() && s@.links_table_exists && s@.files_table_exists,
{
    let p: &str = match path {
        Some(p) => p,
        None => "./database.sqlite",
    };
    let mut store = open_store(p)?;
    fix_tables(&mut store)?;
    Ok(store)
}

/// The schema bootstrap: makes sure both tables exist, creating an absent
/// one with its uniqueness constraint on `name`. On success both tables
/// exist; and whether they already existed or not, the stored rows and id
/// histories are exactly what they were, so running it again on every
/// startup loses nothing.
pub fn fix_tables(store: &mut Store) -> (r: Result<(), StoreError>)
    ensures
        rows_preserved(final(store)@, old(store)@),
        r is Ok ==> final(store)@ == (StoreModel {
            links_table_exists: true,
            files_table_exists: true,
            ..old(store)@
        }),
{
    ensure_links_table(store)?;
    ensure_files_table(store)?;
    Ok(())
}

/// Probe-then-create for the links table: only an absent table is created,
/// and on success the table exists.
fn ensure_links_table(store: &mut Store) -> (r: Result<(), StoreError>)
    ensures
        r is Ok ==> final(store)@ == (StoreModel { links_table_exists: true, ..old(store)@ }),
        r is Err ==> final(store)@ == old(store)@,
{
    if !probe_links_table(store) {
        create_links_table(store)?;
    }
    Ok(())
}

/// Probe-then-create for the files table.
fn ensure_files_table(store: &mut Store) -> (r: Result<(), StoreError>)
    ensures
        r is Ok ==> final(store)@ == (StoreModel { files_table_exists: true, ..old(store)@ }),
        r is Err ==> final(store)@ == old(store)@,
{
    if !probe_files_table(store) {
        create_files_table(store)?;
    }
    Ok(())
}

/// Registers `name` as a link to `target`. One atomic insert: if the name is
/// already taken the storage engine's uniqueness constraint rejects it and
/// the call reports `Conflict` with nothing changed; on success the new row
/// is the only change, under an id never assigned before — not even to a
/// since-deleted row.
pub fn create_link(store: &mut Store, target: String, name: String) -> (r: Result<
    Link,
    StoreError,
>)
    requires
        old(store).inv(),
    ensures
        final(store).inv(),
        r matches Ok(link) ==> {
            &&& !old(store)@.links.contains_key(name@)
            &&& !old(store)@.used_link_ids.contains(link.id)
            &&& link.name@ == name@
            &&& link.target@ == target@
            &&& final(store)@ == (StoreModel {
                links: old(store)@.links.insert(name@, LinkRow { id: link.id, target: target@ }),
                used_link_ids: old(store)@.used_link_ids.insert(link.id),
                ..old(store)@
            })
        },
        r is Err ==> final(store)@ == old(store)@,
        r matches Err(StoreError::Conflict) ==> old(store)@.links.contains_key(name@),
        old(store)@.links.contains_key(name@) ==> r is Err,
{
    let ghost pre = store@;
    match insert_link_row(store, name.as_str(), target.as_str()) {
        Ok(id) => {
            proof {
                lemma_link_insert_preserves_inv(
                    pre.links,
                    pre.used_link_ids,
                    name@,
                    LinkRow { id, target: target@ },
                );
            }
            Ok(Link { id, name, target })
        },
        Err(e) => Err(e),
    }
}

/// Looks the name up in the links table. `Ok(None)` reports absence; a
/// returned link carries the queried name, the row's id and its target.
pub fn get_link_by_name(store: &Store, name: String) -> (r: Result<Option<Link>, StoreError>)
    ensures
        r matches Ok(Some(link)) ==> {
            &&& store@.links.contains_key(name@)
            &&& link.id == store@.links[name@].id
            &&& link.name@ == name@
            &&& link.target@ == store@.links[name@].target
        },
        r matches Ok(None) ==> !store@.links.contains_key(name@),
{
    match select_link_row(store, name.as_str()) {
        Ok(Some((id, nm, target))) => Ok(Some(Link { id, name: nm, target })),
        Ok(None) => Ok(None),
        Err(e) => Err(e),
    }
}

/// Replaces the target of the row `link.id` addresses and mutates the handle
/// to match, so that after success the handle and the stored row agree. If
/// the row was deleted meanwhile the update is a silent no-op on the table;
/// the handle is rewritten regardless, as the row would have been.
pub fn update_link(store: &mut Store, link: &mut Link, new_target: String) -> (r: Result<
    (),
    StoreError,
>)
    requires
        old(store).inv(),
    ensures
        final(store).inv(),
        final(link).id == old(link).id,
        final(link).name@ == old(link).name@,
        final(link).target@ == new_target@,
        r is Ok ==> final(store)@ == (StoreModel {
            links: links_with_target(old(store)@.links, old(link).id, new_target@),
            ..old(store)@
        }),
        r is Err ==> final(store)@ == old(store)@,
{
    let ghost pre = store@;
    link.target = new_target;
    let r = update_link_row(store, link.id, link.target.as_str());
    proof {
        if r is Ok {
            lemma_with_target_preserves_inv(pre.links, pre.used_link_ids, link.id, link.target@);
        }
    }
    r
}

/// Deletes the row `link.id` addresses. Idempotent at the storage layer:
/// deleting an id that no row carries affects zero rows and still succeeds.
/// The id stays in the history: no later create returns it again.
pub fn delete_link(store: &mut Store, link: &Link) -> (r: Result<(), StoreError>)
    requires
        old(store).inv(),
    ensures
        final(store).inv(),
        r is Ok ==> final(store)@ == (StoreModel {
            links: links_without_id(old(store)@.links, link.id),
            ..old(store)@
        }),
        r is Err ==> final(store)@ == old(store)@,
{
    let ghost pre = store@;
    let r = delete_link_row(store, link.id);
    proof {
        if r is Ok {
            lemma_without_id_preserves_inv(pre.links, pre.used_link_ids, link.id);
        }
    }
    r
}

/// Stores `data` (possibly empty, never absent) under `name`. As
/// `create_link`: one atomic insert, `Conflict` exactly on a taken name, a
/// never-before-assigned id on success. The returned handle carries the
/// payload it stored.
pub fn create_file(store: &mut Store, name: String, data: Vec<u8>) -> (r: Result<
    File,
    StoreError,
>)
    requires
        old(store).inv(),
    ensures
        final(store).inv(),
        r matches Ok(file) ==> {
            &&& !old(store)@.files.contains_key(name@)
            &&& !old(store)@.used_file_ids.contains(file.id)
            &&& file.name@ == name@
            &&& file.data matches Some(d) && d@ == data@
            &&& final(store)@ == (StoreModel {
                files: old(store)@.files.insert(name@, FileRow { id: file.id, data: data@ }),
                used_file_ids: old(store)@.used_file_ids.insert(file.id),
                ..old(store)@
            })
        },
        r is Err ==> final(store)@ == old(store)@,
        r matches Err(StoreError::Conflict) ==> old(store)@.files.contains_key(name@),
        old(store)@.files.contains_key(name@) ==> r is Err,
{
    let ghost pre = store@;
    match insert_file_row(store, name.as_str(), &data) {
        Ok(id) => {
            proof {
                lemma_file_insert_preserves_inv(
                    pre.files,
                    pre.used_file_ids,
                    name@,
                    FileRow { id, data: data@ },
                );
            }
            Ok(File { id, name, data: Some(data) })
        },
        Err(e) => Err(e),
    }
}

/// Looks the name up in the files table, metadata only: the returned handle
/// carries the row's id and the queried name, and `data` is left `None` so
/// that an existence check never moves the blob.
pub fn get_file_by_name(store: &Store, name: String) -> (r: Result<Option<File>, StoreError>)
    ensures
        r matches Ok(Some(file)) ==> {
            &&& store@.files.contains_key(name@)
            &&& file.id == store@.files[name@].id
            &&& file.name@ == name@
            &&& file.data is None
        },
        r matches Ok(None) ==> !store@.files.contains_key(name@),
{
    match select_file_row(store, name.as_str()) {
        Ok(Some((id, nm))) => Ok(Some(File { id, name: nm, data: None })),
        Ok(None) => Ok(None),
        Err(e) => Err(e),
    }
}

/// Fetches the blob of the row `file.id` addresses. `Ok(None)` means no row
/// carries the id any more (the row vanished since the handle was read: a
/// benign race, not a failure); otherwise the bytes are that row's payload.
pub fn get_file_data(store: &Store, file: &File) -> (r: Result<Option<Vec<u8>>, StoreError>)
    ensures
        r matches Ok(Some(d)) ==> exists|n: Seq<char>|
            #[trigger] store@.files.contains_key(n) && store@.files[n].id == file.id
                && store@.files[n].data == d@,
        r matches Ok(None) ==> forall|n: Seq<char>|
            #[trigger] store@.files.contains_key(n) ==> store@.files[n].id != file.id,
{
    select_file_data(store, file.id)
}

/// Replaces, as a full overwrite, the blob of the row `file.id` addresses.
/// A vanished row makes it a silent no-op, as `update_link`.
pub fn update_file(store: &mut Store, file: &File, data: Vec<u8>) -> (r: Result<(), StoreError>)
    requires
        old(store).inv(),
    ensures
        final(store).inv(),
        r is Ok ==> final(store)@ == (StoreModel {
            files: files_with_data(old(store)@.files, file.id, data@),
            ..old(store)@
        }),
        r is Err ==> final(store)@ == old(store)@,
{
    let ghost pre = store@;
    let r = update_file_row(store, file.id, &data);
    proof {
        if r is Ok {
            lemma_with_data_preserves_inv(pre.files, pre.used_file_ids, file.id, data@);
        }
    }
    r
}

/// Deletes the row `file.id` addresses; idempotent as `delete_link`, and the
/// id stays in the history just the same.
pub fn delete_file(store: &mut Store, file: &File) -> (r: Result<(), StoreError>)
    requires
        old(store).inv(),
    ensures
        final(store).inv(),
        r is Ok ==> final(store)@ == (StoreModel {
            files: files_without_id(old(store)@.files, file.id),
            ..old(store)@
        }),
        r is Err ==> final(store)@ == old(store)@,
{
    let ghost pre = store@;
    let r = delete_file_row(store, file.id);
    proof {
        if r is Ok {
            lemma_file_without_id_preserves_inv(pre.files, pre.used_file_ids, file.id);
        }
    }
    r
}

} // verus!
