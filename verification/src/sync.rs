//! Memory and store in step: every change that the session makes to its
//! lists, made to the store as well, leaves the store holding exactly the
//! lists in memory.
//!
//! The laws are proved of the model of the store, for the requests that the
//! session hands to the gateway.

use vstd::prelude::*;
use crate::app_state::SelectedList;
use crate::key::Key;
use crate::session_model::{flag_of, flipped, key_post, SessionModel};
use crate::database::{item_of_row, list_of_rows, ItemRow, ListRow, StorageError};
use crate::seq_facts::{
    distinct_keys,
    lemma_filter_all,
    lemma_filter_commute,
    lemma_filter_distinct,
    lemma_filter_drops_one,
    lemma_filter_map,
    lemma_filter_members,
    lemma_filter_none,
    lemma_map_none,
    lemma_map_one,
};
use crate::store_model::{
    flagged,
    in_list,
    item_key,
    lemma_inserts_keep_identifiers_unique,
    list_key,
    not_the_item,
    not_the_list,
    outside_list,
    owned_by,
    StoreModel,
};
use crate::todo::ListModel;
use crate::todo_item::ItemModel;
use crate::user::UserModel;

verus! {

/// The lists in memory are the lists that the store would load for the
/// user, and the store is consistent.
pub open spec fn in_sync(session: SessionModel, store: StoreModel) -> bool {
    store.consistent() && store.load(session.user.user_id) == session.lists
}

/// What is loaded for a user, row by row: as many lists as the user has rows
/// in `lists`, each built from its row and the rows of its items. The rows
/// belong to the user, stand in the table and have identifiers of their own.
pub proof fn lemma_loaded_lists(store: StoreModel, user_id: u32)
    requires
        store.consistent(),
    ensures
        store.load(user_id).len() == store.lists_of(user_id).len(),
        distinct_keys(store.lists_of(user_id), list_key()),
        forall|j: int|
            0 <= j < store.lists_of(user_id).len() ==> {
                let row = #[trigger] store.lists_of(user_id)[j];
                &&& store.load(user_id)[j] == list_of_rows(row, store.items_of(row.list_id))
                &&& row.user_id == user_id
                &&& store.lists.contains(row)
                &&& store.has_list(row.list_id)
            },
{
    let rows = store.lists_of(user_id);
    lemma_filter_distinct(store.lists, owned_by(user_id), list_key());
    lemma_filter_members(store.lists, owned_by(user_id));
    assert forall|j: int| 0 <= j < rows.len() implies {
        let row = #[trigger] rows[j];
        &&& store.load(user_id)[j] == list_of_rows(row, store.items_of(row.list_id))
        &&& row.user_id == user_id
        &&& store.lists.contains(row)
        &&& store.has_list(row.list_id)
    } by {
        let row = rows[j];
        assert(owned_by(user_id)(row));
        let i = choose|i: int| 0 <= i < store.lists.len() && store.lists[i] == row;
        assert(store.lists[i].list_id == row.list_id);
    }
}

/// The items of a list, row by row: they belong to the list and have
/// identifiers of their own.
pub proof fn lemma_items_of_list(store: StoreModel, list_id: u32)
    requires
        store.consistent(),
    ensures
        distinct_keys(store.items_of(list_id), item_key()),
        forall|i: int|
            0 <= i < store.items_of(list_id).len() ==> (#[trigger] store.items_of(
                list_id,
            )[i]).list_id == list_id,
{
    lemma_filter_distinct(store.items, in_list(list_id), item_key());
    lemma_filter_members(store.items, in_list(list_id));
    assert forall|i: int| 0 <= i < store.items_of(list_id).len() implies (#[trigger] store.items_of(
        list_id,
    )[i]).list_id == list_id by {
        assert(in_list(list_id)(store.items_of(list_id)[i]));
    }
}

/// While memory and store are in step, no identifier is in use twice in
/// memory: no two lists share one, and no two items do, be they in one list
/// or in two.
pub proof fn lemma_identifiers_are_distinct(session: SessionModel, store: StoreModel)
    requires
        in_sync(session, store),
    ensures
        forall|i: int, j: int|
            0 <= i < j < session.lists.len() ==> session.lists[i].list_id
                != session.lists[j].list_id,
        forall|k: int, l: int, i: int, j: int|
            0 <= k < session.lists.len() && 0 <= l < session.lists.len() && 0 <= i
                < session.lists[k].items.len() && 0 <= j < session.lists[l].items.len() && (k != l
                || i != j) ==> session.lists[k].items[i].item_id
                != session.lists[l].items[j].item_id,
{
    let user_id = session.user.user_id;
    let rows = store.lists_of(user_id);
    lemma_loaded_lists(store, user_id);
    assert forall|i: int, j: int| 0 <= i < j < session.lists.len() implies session.lists[i].list_id
        != session.lists[j].list_id by {
        assert(list_key()(rows[i]) != list_key()(rows[j]));
    }
    assert forall|k: int, l: int, i: int, j: int|
        0 <= k < session.lists.len() && 0 <= l < session.lists.len() && 0 <= i
            < session.lists[k].items.len() && 0 <= j < session.lists[l].items.len() && (k != l || i
            != j) implies session.lists[k].items[i].item_id
        != session.lists[l].items[j].item_id by {
        let first = store.items_of(rows[k].list_id);
        let second = store.items_of(rows[l].list_id);
        lemma_items_of_list(store, rows[k].list_id);
        lemma_items_of_list(store, rows[l].list_id);
        lemma_filter_members(store.items, in_list(rows[k].list_id));
        lemma_filter_members(store.items, in_list(rows[l].list_id));
        assert(session.lists[k].items[i] == item_of_row(first[i]));
        assert(session.lists[l].items[j] == item_of_row(second[j]));
        let a = choose|a: int| 0 <= a < store.items.len() && store.items[a] == first[i];
        let b = choose|b: int| 0 <= b < store.items.len() && store.items[b] == second[j];
        if a == b {
            assert(first[i].list_id == second[j].list_id);
            if k < l {
                assert(list_key()(rows[k]) != list_key()(rows[l]));
            } else if l < k {
                assert(list_key()(rows[l]) != list_key()(rows[k]));
            } else if i < j {
                assert(item_key()(first[i]) != item_key()(first[j]));
            } else {
                assert(item_key()(first[j]) != item_key()(first[i]));
            }
        } else if a < b {
            assert(item_key()(store.items[a]) != item_key()(store.items[b]));
        } else {
            assert(item_key()(store.items[b]) != item_key()(store.items[a]));
        }
    }
}

/// Adding a list keeps memory and store in step: once the store has
/// accepted the new row, loading gives the lists in memory with the new list
/// at the end.
pub proof fn lemma_add_list_keeps_sync(
    session: SessionModel,
    store: StoreModel,
    name: Seq<char>,
    list_id: u32,
)
    requires
        in_sync(session, store),
        store.insert_list(name, list_id, session.user.user_id) is Ok,
    ensures
        in_sync(
            session.list_pushed(name, list_id),
            store.insert_list(name, list_id, session.user.user_id)->Ok_0,
        ),
{
    let user_id = session.user.user_id;
    let row = ListRow { user_id, list_id, list_name: name };
    let after = store.insert_list(name, list_id, user_id)->Ok_0;
    lemma_inserts_keep_identifiers_unique(store, name, Seq::empty(), list_id, user_id, 0);
    lemma_loaded_lists(store, user_id);
    lemma_loaded_lists(after, user_id);
    store.lists.lemma_filter_push(row, owned_by(user_id));
    assert(after.lists_of(user_id) == store.lists_of(user_id).push(row));
    // no item belongs to a list that is not there yet
    assert forall|i: int| 0 <= i < store.items.len() implies !in_list(list_id)(
        #[trigger] store.items[i],
    ) by {
        assert(store.has_list(store.items[i].list_id));
    }
    lemma_filter_none(store.items, in_list(list_id));
    let expected = session.list_pushed(name, list_id).lists;
    assert(after.load(user_id).len() == expected.len());
    assert forall|j: int| 0 <= j < expected.len() implies after.load(user_id)[j] == expected[j] by {
        let loaded_row = after.lists_of(user_id)[j];
        assert(after.items_of(loaded_row.list_id) == store.items_of(loaded_row.list_id));
        if j < store.lists_of(user_id).len() {
            assert(loaded_row == store.lists_of(user_id)[j]);
        } else {
            assert(loaded_row == row);
            assert(list_of_rows(row, Seq::<ItemRow>::empty()).items =~= Seq::<ItemModel>::empty());
        }
    }
    assert(after.load(user_id) =~= expected);
}

/// Adding an item keeps memory and store in step: once the store has
/// accepted the new row, loading gives the lists in memory with the new,
/// open item at the end of the selected list.
pub proof fn lemma_add_item_keeps_sync(
    session: SessionModel,
    store: StoreModel,
    name: Seq<char>,
    item_id: u32,
)
    requires
        in_sync(session, store),
        session.has_list(),
        store.insert_item(name, item_id, session.lists[session.list_index as int].list_id, 0) is Ok,
    ensures
        in_sync(
            session.item_pushed(name, item_id),
            store.insert_item(
                name,
                item_id,
                session.lists[session.list_index as int].list_id,
                0,
            )->Ok_0,
        ),
{
    let user_id = session.user.user_id;
    let k = session.list_index as int;
    let list_id = session.lists[k].list_id;
    let row = ItemRow { item_id, list_id, item_name: name, complete: 0 };
    let after = store.insert_item(name, item_id, list_id, 0)->Ok_0;
    lemma_loaded_lists(store, user_id);
    let rows = store.lists_of(user_id);
    assert(rows[k].list_id == list_id);
    lemma_inserts_keep_identifiers_unique(store, name, Seq::empty(), item_id, list_id, 0);
    lemma_loaded_lists(after, user_id);
    let expected = session.item_pushed(name, item_id).lists;
    assert forall|j: int| 0 <= j < expected.len() implies after.load(user_id)[j] == expected[j] by {
        let loaded_row = rows[j];
        assert(after.lists_of(user_id)[j] == loaded_row);
        store.items.lemma_filter_push(row, in_list(loaded_row.list_id));
        if j == k {
            let before = store.items_of(list_id);
            assert(after.items_of(list_id) == before.push(row));
            assert(list_of_rows(loaded_row, before.push(row)).items =~= list_of_rows(
                loaded_row,
                before,
            ).items.push(item_of_row(row)));
        } else {
            assert(list_key()(rows[j]) != list_key()(rows[k]));
            assert(after.items_of(loaded_row.list_id) == store.items_of(loaded_row.list_id));
        }
    }
    assert(after.load(user_id) =~= expected);
}

/// Checking an item off, or opening it again, keeps memory and store in
/// step: with the flag of that one row set, loading gives the lists in
/// memory with that one item flipped.
pub proof fn lemma_check_off_keeps_sync(session: SessionModel, store: StoreModel)
    requires
        in_sync(session, store),
        session.selected_list == SelectedList::Items,
        session.has_item(),
    ensures
        ({
            let list = session.lists[session.list_index as int];
            let item = list.items[session.item_index as int];
            in_sync(
                session.item_toggled(),
                store.update_item(item.item_id, list.list_id, flag_of(!item.complete)),
            )
        }),
{
    let user_id = session.user.user_id;
    let k = session.list_index as int;
    let n = session.item_index as int;
    let list = session.lists[k];
    let item = list.items[n];
    let flag = flag_of(!item.complete);
    let change = flagged(item.item_id, list.list_id, flag);
    let after = store.update_item(item.item_id, list.list_id, flag);
    lemma_loaded_lists(store, user_id);
    let rows = store.lists_of(user_id);
    assert(rows[k].list_id == list.list_id);
    let before = store.items_of(list.list_id);
    lemma_items_of_list(store, list.list_id);
    assert(item_of_row(before[n]) == item);

    assert(after.consistent()) by {
        assert forall|i: int, j: int| 0 <= i < j < after.items.len() implies item_key()(
            after.items[i],
        ) != item_key()(after.items[j]) by {
            assert(item_key()(store.items[i]) != item_key()(store.items[j]));
        }
        assert forall|i: int| 0 <= i < after.items.len() implies after.has_list(
            (#[trigger] after.items[i]).list_id,
        ) by {
            assert(store.has_list(store.items[i].list_id));
            let l = choose|l: int|
                0 <= l < store.lists.len() && store.lists[l].list_id == store.items[i].list_id;
            assert(after.lists[l].list_id == after.items[i].list_id);
        }
    }
    lemma_loaded_lists(after, user_id);
    let expected = session.item_toggled().lists;
    assert forall|j: int| 0 <= j < expected.len() implies after.load(user_id)[j] == expected[j] by {
        let loaded_row = rows[j];
        let theirs = store.items_of(loaded_row.list_id);
        assert(after.lists_of(user_id)[j] == loaded_row);
        lemma_filter_map(store.items, change, in_list(loaded_row.list_id));
        assert(after.items_of(loaded_row.list_id) == theirs.map_values(change));
        lemma_items_of_list(store, loaded_row.list_id);
        if j == k {
            assert forall|i: int| 0 <= i < before.len() && i != n implies change(
                #[trigger] before[i],
            ) == before[i] by {
                if i < n {
                    assert(item_key()(before[i]) != item_key()(before[n]));
                } else {
                    assert(item_key()(before[n]) != item_key()(before[i]));
                }
            }
            lemma_map_one(before, change, n);
            assert(list_of_rows(loaded_row, before.update(n, change(before[n]))).items
                =~= list_of_rows(loaded_row, before).items.update(n, flipped(item)));
        } else {
            assert(list_key()(rows[j]) != list_key()(rows[k]));
            assert forall|i: int| 0 <= i < theirs.len() implies change(#[trigger] theirs[i])
                == theirs[i] by {}
            lemma_map_none(theirs, change);
        }
    }
    assert(after.load(user_id) =~= expected);
}

/// Deleting an item keeps memory and store in step: with that one row
/// removed, loading gives the lists in memory without that one item.
pub proof fn lemma_delete_item_keeps_sync(session: SessionModel, store: StoreModel)
    requires
        in_sync(session, store),
        session.has_item(),
    ensures
        ({
            let list = session.lists[session.list_index as int];
            let item = list.items[session.item_index as int];
            in_sync(session.item_removed(), store.remove_item(item.item_id, list.list_id))
        }),
{
    let user_id = session.user.user_id;
    let k = session.list_index as int;
    let n = session.item_index as int;
    let list = session.lists[k];
    let item = list.items[n];
    let others = not_the_item(item.item_id, list.list_id);
    let after = store.remove_item(item.item_id, list.list_id);
    lemma_loaded_lists(store, user_id);
    let rows = store.lists_of(user_id);
    assert(rows[k].list_id == list.list_id);
    let before = store.items_of(list.list_id);
    lemma_items_of_list(store, list.list_id);
    assert(item_of_row(before[n]) == item);

    assert(after.consistent()) by {
        lemma_filter_distinct(store.items, others, item_key());
        lemma_filter_members(store.items, others);
        assert forall|i: int| 0 <= i < after.items.len() implies after.has_list(
            (#[trigger] after.items[i]).list_id,
        ) by {
            let o = choose|o: int| 0 <= o < store.items.len() && store.items[o] == after.items[i];
            assert(store.has_list(store.items[o].list_id));
            let l = choose|l: int|
                0 <= l < store.lists.len() && store.lists[l].list_id == store.items[o].list_id;
            assert(after.lists[l].list_id == after.items[i].list_id);
        }
    }
    lemma_loaded_lists(after, user_id);
    let expected = session.item_removed().lists;
    assert forall|j: int| 0 <= j < expected.len() implies after.load(user_id)[j] == expected[j] by {
        let loaded_row = rows[j];
        let theirs = store.items_of(loaded_row.list_id);
        assert(after.lists_of(user_id)[j] == loaded_row);
        lemma_filter_commute(store.items, others, in_list(loaded_row.list_id));
        assert(after.items_of(loaded_row.list_id) == theirs.filter(others));
        lemma_items_of_list(store, loaded_row.list_id);
        if j == k {
            assert forall|i: int| 0 <= i < before.len() && i != n implies others(
                #[trigger] before[i],
            ) by {
                if i < n {
                    assert(item_key()(before[i]) != item_key()(before[n]));
                } else {
                    assert(item_key()(before[n]) != item_key()(before[i]));
                }
            }
            lemma_filter_drops_one(before, others, n);
            assert(list_of_rows(loaded_row, before.remove(n)).items =~= list_of_rows(
                loaded_row,
                before,
            ).items.remove(n));
        } else {
            assert(list_key()(rows[j]) != list_key()(rows[k]));
            assert forall|i: int| 0 <= i < theirs.len() implies others(#[trigger] theirs[i]) by {}
            lemma_filter_all(theirs, others);
        }
    }
    assert(after.load(user_id) =~= expected);
}

/// Deleting a list keeps memory and store in step: with the rows of its
/// items and its own row removed, loading gives the lists in memory without
/// that list.
pub proof fn lemma_delete_list_keeps_sync(session: SessionModel, store: StoreModel)
    requires
        in_sync(session, store),
        session.has_list(),
    ensures
        in_sync(
            session.list_removed(),
            store.remove_list(
                session.lists[session.list_index as int].list_id,
                session.user.user_id,
            ),
        ),
{
    let user_id = session.user.user_id;
    let k = session.list_index as int;
    let list_id = session.lists[k].list_id;
    let other_lists = not_the_list(list_id, user_id);
    let other_items = outside_list(list_id);
    let after = store.remove_list(list_id, user_id);
    lemma_loaded_lists(store, user_id);
    let rows = store.lists_of(user_id);
    assert(rows[k].list_id == list_id);

    assert(after.consistent()) by {
        lemma_filter_distinct(store.lists, other_lists, list_key());
        lemma_filter_distinct(store.items, other_items, item_key());
        lemma_filter_members(store.items, other_items);
        lemma_filter_members(store.lists, other_lists);
        assert forall|i: int| 0 <= i < after.items.len() implies after.has_list(
            (#[trigger] after.items[i]).list_id,
        ) by {
            assert(other_items(after.items[i]));
            let o = choose|o: int| 0 <= o < store.items.len() && store.items[o] == after.items[i];
            assert(store.has_list(store.items[o].list_id));
            let l = choose|l: int|
                0 <= l < store.lists.len() && store.lists[l].list_id == store.items[o].list_id;
            assert(other_lists(store.lists[l]));
            assert(after.lists.contains(store.lists[l]));
            let a = choose|a: int| 0 <= a < after.lists.len() && after.lists[a] == store.lists[l];
            assert(after.lists[a].list_id == after.items[i].list_id);
        }
    }
    lemma_loaded_lists(after, user_id);
    lemma_filter_commute(store.lists, other_lists, owned_by(user_id));
    assert forall|j: int| 0 <= j < rows.len() && j != k implies other_lists(#[trigger] rows[j]) by {
        if j < k {
            assert(list_key()(rows[j]) != list_key()(rows[k]));
        } else {
            assert(list_key()(rows[k]) != list_key()(rows[j]));
        }
    }
    lemma_filter_drops_one(rows, other_lists, k);
    assert(after.lists_of(user_id) == rows.remove(k));
    let expected = session.list_removed().lists;
    assert(expected == session.lists.remove(k));
    assert forall|j: int| 0 <= j < expected.len() implies after.load(user_id)[j] == expected[j] by {
        let source = if j < k {
            j
        } else {
            j + 1
        };
        let loaded_row = rows[source];
        let theirs = store.items_of(loaded_row.list_id);
        assert(after.lists_of(user_id)[j] == loaded_row);
        assert(other_lists(loaded_row));
        lemma_filter_commute(store.items, other_items, in_list(loaded_row.list_id));
        lemma_items_of_list(store, loaded_row.list_id);
        assert forall|i: int| 0 <= i < theirs.len() implies other_items(#[trigger] theirs[i]) by {}
        lemma_filter_all(theirs, other_items);
        assert(after.items_of(loaded_row.list_id) == theirs);
        assert(expected[j] == session.lists[source]);
    }
    assert(after.load(user_id) =~= expected);
}

/// One change to the lists, or anything else that the session does.
pub enum Change {
    AddList { name: Seq<char>, list_id: u32 },
    AddItem { name: Seq<char>, item_id: u32 },
    CheckOff,
    DeleteItem,
    DeleteList,
    /// A step that leaves the lists alone: a cursor moves, the mode changes,
    /// a character is typed.
    Elsewhere { to: SessionModel },
}

impl Change {
    /// Whether the change is one that the session can make from here.
    pub open spec fn possible(self, session: SessionModel) -> bool {
        match self {
            Change::Elsewhere { to } => to.lists == session.lists && to.user == session.user,
            _ => true,
        }
    }

    /// The session after the change.
    pub open spec fn in_memory(self, session: SessionModel) -> SessionModel {
        match self {
            Change::AddList { name, list_id } => session.list_pushed(name, list_id),
            Change::AddItem { name, item_id } => session.item_pushed(name, item_id),
            Change::CheckOff => session.item_toggled(),
            Change::DeleteItem => session.item_removed(),
            Change::DeleteList => session.list_removed(),
            Change::Elsewhere { to } => to,
        }
    }

    /// The store after the request that the session makes for the change; an
    /// error if the store refuses the request.
    pub open spec fn in_store(self, session: SessionModel, store: StoreModel) -> Result<
        StoreModel,
        StorageError,
    > {
        let list = session.lists[session.list_index as int];
        let item = list.items[session.item_index as int];
        match self {
            Change::AddList { name, list_id } => store.insert_list(
                name,
                list_id,
                session.user.user_id,
            ),
            Change::AddItem { name, item_id } => if session.has_list() {
                store.insert_item(name, item_id, list.list_id, 0)
            } else {
                Ok(store)
            },
            Change::CheckOff => if session.selected_list == SelectedList::Items
                && session.has_item() {
                Ok(store.update_item(item.item_id, list.list_id, flag_of(!item.complete)))
            } else {
                Ok(store)
            },
            Change::DeleteItem => if session.has_item() {
                Ok(store.remove_item(item.item_id, list.list_id))
            } else {
                Ok(store)
            },
            Change::DeleteList => if session.has_list() {
                Ok(store.remove_list(list.list_id, session.user.user_id))
            } else {
                Ok(store)
            },
            Change::Elsewhere { .. } => Ok(store),
        }
    }
}

/// Session and store after a sequence of changes, each made to both; nothing
/// if one of them is not possible or is refused by the store.
pub open spec fn replay(session: SessionModel, store: StoreModel, changes: Seq<Change>) -> Option<
    (SessionModel, StoreModel),
>
    decreases changes.len(),
{
    if changes.len() == 0 {
        Some((session, store))
    } else {
        match replay(session, store, changes.drop_last()) {
            Some((session_before, store_before)) => {
                let change = changes.last();
                match change.in_store(session_before, store_before) {
                    Ok(store_after) => if change.possible(session_before) {
                        Some((change.in_memory(session_before), store_after))
                    } else {
                        None
                    },
                    Err(_) => None,
                }
            },
            None => None,
        }
    }
}

/// A session begins in step with the store that its lists were loaded from.
pub proof fn lemma_loaded_session_is_in_sync(user: UserModel, store: StoreModel)
    requires
        store.consistent(),
    ensures
        in_sync(SessionModel::initial(user, store.load(user.user_id)), store),
        in_sync(SessionModel::initial(user, Seq::empty()), StoreModel::empty()),
{
    let nothing = StoreModel::empty();
    lemma_filter_none(nothing.lists, owned_by(user.user_id));
    assert(nothing.load(user.user_id) =~= Seq::<ListModel>::empty());
}

/// One change, made in memory and in the store, keeps the two in step.
pub proof fn lemma_change_keeps_sync(session: SessionModel, store: StoreModel, change: Change)
    requires
        in_sync(session, store),
        change.possible(session),
        change.in_store(session, store) is Ok,
    ensures
        in_sync(change.in_memory(session), change.in_store(session, store)->Ok_0),
        change.in_memory(session).user == session.user,
{
    match change {
        Change::AddList { name, list_id } => {
            lemma_add_list_keeps_sync(session, store, name, list_id);
        },
        Change::AddItem { name, item_id } => {
            if session.has_list() {
                lemma_add_item_keeps_sync(session, store, name, item_id);
            }
        },
        Change::CheckOff => {
            if session.selected_list == SelectedList::Items && session.has_item() {
                lemma_check_off_keeps_sync(session, store);
            }
        },
        Change::DeleteItem => {
            if session.has_item() {
                lemma_delete_item_keeps_sync(session, store);
            }
        },
        Change::DeleteList => {
            if session.has_list() {
                lemma_delete_list_keeps_sync(session, store);
            }
        },
        Change::Elsewhere { .. } => {},
    }
}

/// Round trip: after any sequence of additions, check-offs and deletions
/// that were made in memory and accepted by the store, loading the user's
/// lists from the store gives exactly the lists in memory.
pub proof fn lemma_round_trip(session: SessionModel, store: StoreModel, changes: Seq<Change>)
    requires
        in_sync(session, store),
        replay(session, store, changes) is Some,
    ensures
        ({
            let (session_after, store_after) = replay(session, store, changes)->0;
            &&& in_sync(session_after, store_after)
            &&& session_after.user == session.user
            &&& store_after.load(session.user.user_id) == session_after.lists
        }),
    decreases changes.len(),
{
    if changes.len() > 0 {
        lemma_round_trip(session, store, changes.drop_last());
        let (session_before, store_before) = replay(session, store, changes.drop_last())->0;
        lemma_change_keeps_sync(session_before, store_before, changes.last());
    }
}

/// Keys change the lists through these changes only: whatever key is
/// pressed, the user stays the same, and the lists either stay as they were
/// or are what one addition, check-off or deletion makes of them.
pub proof fn lemma_key_makes_one_change(pre: SessionModel, post: SessionModel, key: Key, exit: bool)
    requires
        key_post(pre, post, key, exit),
    ensures
        post.user == pre.user,
        post.lists == pre.lists || exists|change: Change|
            change.possible(pre) && post.lists == change.in_memory(pre).lists,
{
    if post.lists != pre.lists {
        let base = pre.input_taken();
        let name = pre.pending_input();
        if exists|list_id: u32| post.lists == base.list_pushed(name, list_id).lists {
            let list_id = choose|list_id: u32| post.lists == base.list_pushed(name, list_id).lists;
            let change = Change::AddList { name, list_id };
            assert(change.possible(pre) && post.lists == change.in_memory(pre).lists);
        } else if exists|item_id: u32| post.lists == base.item_pushed(name, item_id).lists {
            let item_id = choose|item_id: u32| post.lists == base.item_pushed(name, item_id).lists;
            let change = Change::AddItem { name, item_id };
            assert(change.possible(pre) && post.lists == change.in_memory(pre).lists);
        } else if post.lists == pre.list_removed().lists {
            let change = Change::DeleteList;
            assert(change.possible(pre) && post.lists == change.in_memory(pre).lists);
        } else if post.lists == pre.item_removed().lists {
            let change = Change::DeleteItem;
            assert(change.possible(pre) && post.lists == change.in_memory(pre).lists);
        } else {
            let change = Change::CheckOff;
            assert(change.possible(pre) && post.lists == change.in_memory(pre).lists);
        }
    }
}

} // verus!
