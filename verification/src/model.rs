//! The mathematical model of the store: each table is a finite map from a
//! name to the row stored under it, together with a flag saying whether the
//! table exists at all and the set of ids it has ever assigned. Every change
//! a statement can make is a function on this state.

use vstd::prelude::*;

verus! {

/// One stored link row: the surrogate key the store assigned and the target
/// text registered under the name.
pub ghost struct LinkRow {
    pub id: i64,
    pub target: Seq<char>,
}

/// One stored file row: the surrogate key and the byte payload.
pub ghost struct FileRow {
    pub id: i64,
    pub data: Seq<u8>,
}

/// The rows of the links table, keyed by their unique name.
pub type LinkTable = Map<Seq<char>, LinkRow>;

/// The rows of the files table, keyed by their unique name.
pub type FileTable = Map<Seq<char>, FileRow>;

/// The whole persistent state: the two tables with independent name spaces,
/// whether each exists yet, and the ids each has ever assigned. A table that
/// does not exist holds no rows; a deleted row's id stays in the history set,
/// which is how the model expresses that ids are never reused.
pub ghost struct StoreModel {
    pub links: LinkTable,
    pub files: FileTable,
    pub links_table_exists: bool,
    pub files_table_exists: bool,
    pub used_link_ids: Set<i64>,
    pub used_file_ids: Set<i64>,
}

/// No two link rows share an id, so an id picks out at most one row.
pub open spec fn link_ids_unique(t: LinkTable) -> bool {
    forall|n1: Seq<char>, n2: Seq<char>|
        #[trigger] t.contains_key(n1) && #[trigger] t.contains_key(n2) && t[n1].id == t[n2].id
            ==> n1 == n2
}

/// No two file rows share an id.
pub open spec fn file_ids_unique(t: FileTable) -> bool {
    forall|n1: Seq<char>, n2: Seq<char>|
        #[trigger] t.contains_key(n1) && #[trigger] t.contains_key(n2) && t[n1].id == t[n2].id
            ==> n1 == n2
}

/// Every current link row's id is in the id history.
pub open spec fn link_ids_covered(t: LinkTable, used: Set<i64>) -> bool {
    forall|n: Seq<char>| #[trigger] t.contains_key(n) ==> used.contains(t[n].id)
}

/// Every current file row's id is in the id history.
pub open spec fn file_ids_covered(t: FileTable, used: Set<i64>) -> bool {
    forall|n: Seq<char>| #[trigger] t.contains_key(n) ==> used.contains(t[n].id)
}

/// The store's invariant: within each table ids are unique, and every
/// current row's id is recorded in that table's id history.
pub open spec fn model_inv(m: StoreModel) -> bool {
    &&& link_ids_unique(m.links)
    &&& file_ids_unique(m.files)
    &&& link_ids_covered(m.links, m.used_link_ids)
    &&& file_ids_covered(m.files, m.used_file_ids)
}

/// Every stored row and every id ever assigned is still what it was: the
/// rows survived, whatever happened to the tables' existence flags.
pub open spec fn rows_preserved(a: StoreModel, b: StoreModel) -> bool {
    &&& a.links == b.links
    &&& a.files == b.files
    &&& a.used_link_ids == b.used_link_ids
    &&& a.used_file_ids == b.used_file_ids
}

/// The links table after `update links set target=.. where id=..`: every row
/// whose id matches gets the new target, all other rows are untouched.
pub open spec fn links_with_target(t: LinkTable, id: i64, target: Seq<char>) -> LinkTable {
    Map::new(
        |n: Seq<char>| t.contains_key(n),
        |n: Seq<char>|
            if t[n].id == id {
                LinkRow { id, target }
            } else {
                t[n]
            },
    )
}

/// The links table after `delete from links where id=..`: every row whose id
/// matches is gone, all other rows are untouched.
pub open spec fn links_without_id(t: LinkTable, id: i64) -> LinkTable {
    Map::new(|n: Seq<char>| t.contains_key(n) && t[n].id != id, |n: Seq<char>| t[n])
}

/// The files table after `update files set data=.. where id=..`.
pub open spec fn files_with_data(t: FileTable, id: i64, data: Seq<u8>) -> FileTable {
    Map::new(
        |n: Seq<char>| t.contains_key(n),
        |n: Seq<char>|
            if t[n].id == id {
                FileRow { id, data }
            } else {
                t[n]
            },
    )
}

/// The files table after `delete from files where id=..`.
pub open spec fn files_without_id(t: FileTable, id: i64) -> FileTable {
    Map::new(|n: Seq<char>| t.contains_key(n) && t[n].id != id, |n: Seq<char>| t[n])
}

/// Inserting a row under a fresh name, with an id never assigned before,
/// keeps link ids unique and the new history covering.
pub proof fn lemma_link_insert_preserves_inv(t: LinkTable, used: Set<i64>, n: Seq<char>, row: LinkRow)
    requires
        link_ids_unique(t),
        link_ids_covered(t, used),
        !t.contains_key(n),
        !used.contains(row.id),
    ensures
        link_ids_unique(t.insert(n, row)),
        link_ids_covered(t.insert(n, row), used.insert(row.id)),
{
    assert forall|n1: Seq<char>, n2: Seq<char>|
        #[trigger] t.insert(n, row).contains_key(n1) && #[trigger] t.insert(n, row).contains_key(
            n2,
        ) && t.insert(n, row)[n1].id == t.insert(n, row)[n2].id implies n1 == n2 by {
        if n1 != n && n2 != n {
            assert(t.contains_key(n1) && t.contains_key(n2));
        } else if n1 == n && n2 != n {
            assert(t.contains_key(n2) && used.contains(t[n2].id));
        } else if n1 != n && n2 == n {
            assert(t.contains_key(n1) && used.contains(t[n1].id));
        }
    }
    assert forall|m: Seq<char>| #[trigger] t.insert(n, row).contains_key(m) implies used.insert(
        row.id,
    ).contains(t.insert(n, row)[m].id) by {
        if m != n {
            assert(t.contains_key(m));
        }
    }
}

/// Inserting a row under a fresh name, with an id never assigned before,
/// keeps file ids unique and the new history covering.
pub proof fn lemma_file_insert_preserves_inv(t: FileTable, used: Set<i64>, n: Seq<char>, row: FileRow)
    requires
        file_ids_unique(t),
        file_ids_covered(t, used),
        !t.contains_key(n),
        !used.contains(row.id),
    ensures
        file_ids_unique(t.insert(n, row)),
        file_ids_covered(t.insert(n, row), used.insert(row.id)),
{
    assert forall|n1: Seq<char>, n2: Seq<char>|
        #[trigger] t.insert(n, row).contains_key(n1) && #[trigger] t.insert(n, row).contains_key(
            n2,
        ) && t.insert(n, row)[n1].id == t.insert(n, row)[n2].id implies n1 == n2 by {
        if n1 != n && n2 != n {
            assert(t.contains_key(n1) && t.contains_key(n2));
        } else if n1 == n && n2 != n {
            assert(t.contains_key(n2) && used.contains(t[n2].id));
        } else if n1 != n && n2 == n {
            assert(t.contains_key(n1) && used.contains(t[n1].id));
        }
    }
    assert forall|m: Seq<char>| #[trigger] t.insert(n, row).contains_key(m) implies used.insert(
        row.id,
    ).contains(t.insert(n, row)[m].id) by {
        if m != n {
            assert(t.contains_key(m));
        }
    }
}

/// Rewriting the target of the row with a given id keeps link ids unique and
/// covered: every row keeps its id and the history does not move.
pub proof fn lemma_with_target_preserves_inv(t: LinkTable, used: Set<i64>, id: i64, target: Seq<char>)
    requires
        link_ids_unique(t),
        link_ids_covered(t, used),
    ensures
        link_ids_unique(links_with_target(t, id, target)),
        link_ids_covered(links_with_target(t, id, target), used),
{
    let u = links_with_target(t, id, target);
    assert forall|n1: Seq<char>, n2: Seq<char>|
        #[trigger] u.contains_key(n1) && #[trigger] u.contains_key(n2) && u[n1].id == u[n2].id
        implies n1 == n2 by {
        assert(t.contains_key(n1) && t.contains_key(n2));
        assert(u[n1].id == t[n1].id && u[n2].id == t[n2].id);
    }
    assert forall|n: Seq<char>| #[trigger] u.contains_key(n) implies used.contains(u[n].id) by {
        assert(t.contains_key(n) && u[n].id == t[n].id);
    }
}

/// Rewriting the payload of the row with a given id keeps file ids unique
/// and covered.
pub proof fn lemma_with_data_preserves_inv(t: FileTable, used: Set<i64>, id: i64, data: Seq<u8>)
    requires
        file_ids_unique(t),
        file_ids_covered(t, used),
    ensures
        file_ids_unique(files_with_data(t, id, data)),
        file_ids_covered(files_with_data(t, id, data), used),
{
    let u = files_with_data(t, id, data);
    assert forall|n1: Seq<char>, n2: Seq<char>|
        #[trigger] u.contains_key(n1) && #[trigger] u.contains_key(n2) && u[n1].id == u[n2].id
        implies n1 == n2 by {
        assert(t.contains_key(n1) && t.contains_key(n2));
        assert(u[n1].id == t[n1].id && u[n2].id == t[n2].id);
    }
    assert forall|n: Seq<char>| #[trigger] u.contains_key(n) implies used.contains(u[n].id) by {
        assert(t.contains_key(n) && u[n].id == t[n].id);
    }
}

/// Removing the rows with a given id keeps link ids unique and covered: what
/// remains is a restriction of the table, and the history keeps the deleted
/// id.
pub proof fn lemma_without_id_preserves_inv(t: LinkTable, used: Set<i64>, id: i64)
    requires
        link_ids_unique(t),
        link_ids_covered(t, used),
    ensures
        link_ids_unique(links_without_id(t, id)),
        link_ids_covered(links_without_id(t, id), used),
{
    let u = links_without_id(t, id);
    assert forall|n1: Seq<char>, n2: Seq<char>|
        #[trigger] u.contains_key(n1) && #[trigger] u.contains_key(n2) && u[n1].id == u[n2].id
        implies n1 == n2 by {
        assert(t.contains_key(n1) && t.contains_key(n2));
        assert(u[n1] == t[n1] && u[n2] == t[n2]);
    }
    assert forall|n: Seq<char>| #[trigger] u.contains_key(n) implies used.contains(u[n].id) by {
        assert(t.contains_key(n) && u[n] == t[n]);
    }
}

/// Removing the rows with a given id keeps file ids unique and covered.
pub proof fn lemma_file_without_id_preserves_inv(t: FileTable, used: Set<i64>, id: i64)
    requires
        file_ids_unique(t),
        file_ids_covered(t, used),
    ensures
        file_ids_unique(files_without_id(t, id)),
        file_ids_covered(files_without_id(t, id), used),
{
    let u = files_without_id(t, id);
    assert forall|n1: Seq<char>, n2: Seq<char>|
        #[trigger] u.contains_key(n1) && #[trigger] u.contains_key(n2) && u[n1].id == u[n2].id
        implies n1 == n2 by {
        assert(t.contains_key(n1) && t.contains_key(n2));
        assert(u[n1] == t[n1] && u[n2] == t[n2]);
    }
    assert forall|n: Seq<char>| #[trigger] u.contains_key(n) implies used.contains(u[n].id) by {
        assert(t.contains_key(n) && u[n] == t[n]);
    }
}

} // verus!
