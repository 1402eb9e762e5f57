//! The store's laws, stated over the model maps that the operations'
//! contracts speak of, and proved once for all inputs. Each law describes
//! what a sequence of operations observes, in terms of the table transitions
//! their `ensures` pin down.

use vstd::prelude::*;

use crate::model::FileRow;
use crate::model::FileTable;
use crate::model::LinkRow;
use crate::model::LinkTable;
use crate::model::StoreModel;
use crate::model::file_ids_unique;
use crate::model::links_with_target;
use crate::model::links_without_id;

verus! {

/// Uniqueness: once a create has stored `row` under `n`, the name is taken
/// in the resulting table and holds exactly `row`. By `create_link`'s
/// contract a second create under `n` must then fail, and failure leaves the
/// table — so the first row's target — unchanged.
pub proof fn lemma_name_uniqueness(t: LinkTable, n: Seq<char>, row: LinkRow)
    requires
        !t.contains_key(n),
    ensures
        t.insert(n, row).contains_key(n),
        t.insert(n, row)[n] == row,
{
}

/// Round-trip: after a create has stored `row` under `n`, a read by `n`
/// finds a row, and it carries exactly the id and target the create
/// returned.
pub proof fn lemma_round_trip(t: LinkTable, n: Seq<char>, row: LinkRow)
    requires
        !t.contains_key(n),
    ensures
        t.insert(n, row).contains_key(n),
        t.insert(n, row)[n].id == row.id,
        t.insert(n, row)[n].target == row.target,
{
}

/// Update consistency: after the row that `n` names has its target
/// rewritten to `t2` (addressed, as `update_link` does, by its id), a fresh
/// read of `n` sees the same id and the new target.
pub proof fn lemma_update_consistency(t: LinkTable, n: Seq<char>, t2: Seq<char>)
    requires
        t.contains_key(n),
    ensures
        links_with_target(t, t[n].id, t2).contains_key(n),
        links_with_target(t, t[n].id, t2)[n].id == t[n].id,
        links_with_target(t, t[n].id, t2)[n].target == t2,
{
}

/// Delete idempotence, first half: deleting an id a second time removes
/// nothing more, so the second call succeeds on the same table it found.
pub proof fn lemma_delete_idempotent(t: LinkTable, id: i64)
    ensures
        links_without_id(links_without_id(t, id), id) == links_without_id(t, id),
{
    assert(links_without_id(links_without_id(t, id), id) =~= links_without_id(t, id));
}

/// Delete idempotence, second half: after the row that `n` names is deleted
/// by its id, a read of `n` finds nothing.
pub proof fn lemma_deleted_name_absent(t: LinkTable, n: Seq<char>)
    requires
        t.contains_key(n),
    ensures
        !links_without_id(t, t[n].id).contains_key(n),
{
}

/// Blob round-trip: after a create has stored `row` under `n`, the metadata
/// read of `n` yields `row`'s id and the blob read by that id yields `row`'s
/// bytes, empty or not.
pub proof fn lemma_blob_round_trip(t: FileTable, n: Seq<char>, row: FileRow)
    requires
        !t.contains_key(n),
    ensures
        t.insert(n, row).contains_key(n),
        t.insert(n, row)[n].id == row.id,
        t.insert(n, row)[n].data == row.data,
{
}

/// Blob determinacy: ids being unique, bytes observed under the id that the
/// row named `n` carries (as `get_file_data` reports them) are that row's
/// bytes and no other's.
pub proof fn lemma_file_data_determined(t: FileTable, n: Seq<char>, d: Seq<u8>)
    requires
        file_ids_unique(t),
        t.contains_key(n),
        exists|m: Seq<char>| #[trigger] t.contains_key(m) && t[m].id == t[n].id && t[m].data == d,
    ensures
        d == t[n].data,
{
    let m = choose|m: Seq<char>|
        #[trigger] t.contains_key(m) && t[m].id == t[n].id && t[m].data == d;
    assert(m == n);
}

/// Cross-kind independence: the two kinds occupy independent name spaces.
/// Creating a link under `n` leaves the files table alone, so `n` is still
/// free there and a file create under the same name goes through; afterwards
/// both rows stand, each with its own value.
pub proof fn lemma_cross_kind_independence(
    m: StoreModel,
    n: Seq<char>,
    lrow: LinkRow,
    frow: FileRow,
)
    requires
        !m.links.contains_key(n),
        !m.files.contains_key(n),
    ensures
        ({
            let after_link = StoreModel {
                links: m.links.insert(n, lrow),
                used_link_ids: m.used_link_ids.insert(lrow.id),
                ..m
            };
            let after_both = StoreModel {
                files: after_link.files.insert(n, frow),
                used_file_ids: after_link.used_file_ids.insert(frow.id),
                ..after_link
            };
            &&& !after_link.files.contains_key(n)
            &&& after_both.links.contains_key(n) && after_both.links[n] == lrow
            &&& after_both.files.contains_key(n) && after_both.files[n] == frow
        }),
{
}

/// Ids are never reused. A delete keeps every ever-assigned id in the
/// history set (`delete_link`'s table change leaves `used_link_ids` as it
/// was), and a create only assigns an id outside that set — so an id once
/// handed out, deleted or not, is never handed out again.
pub proof fn lemma_id_never_reused(used: Set<i64>, id: i64, id2: i64)
    requires
        used.contains(id),
        !used.contains(id2),
    ensures
        id2 != id,
{
}

} // verus!
