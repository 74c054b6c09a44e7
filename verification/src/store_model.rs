//! What the store is meant to hold, as a mathematical value: three tables of
//! rows, a primary key on each and unique usernames.
//!
//! The gateway itself only hands statements to SQLite. This model says what
//! those statements are meant to do, and the laws below are proved of the
//! model. Rows stand in the order in which they were inserted; SQLite
//! promises no order for the rows of a query, so of a real store the laws
//! that speak of whole sequences hold up to the order of rows.

use vstd::prelude::*;
use crate::database::{list_of_rows, ItemRow, ListRow, StorageError, UserRow};
use crate::identifier::{attempt_of, Attempt};
use crate::seq_facts::{distinct_keys, lemma_filter_distinct, lemma_filter_members, lemma_filter_none};
use crate::todo::ListModel;

verus! {

/// The three tables.
pub struct StoreModel {
    pub users: Seq<UserRow>,
    pub lists: Seq<ListRow>,
    pub items: Seq<ItemRow>,
}

pub open spec fn user_key() -> spec_fn(UserRow) -> u32 {
    |row: UserRow| row.user_id
}

pub open spec fn username_key() -> spec_fn(UserRow) -> Seq<char> {
    |row: UserRow| row.username
}

pub open spec fn list_key() -> spec_fn(ListRow) -> u32 {
    |row: ListRow| row.list_id
}

pub open spec fn item_key() -> spec_fn(ItemRow) -> u32 {
    |row: ItemRow| row.item_id
}

/// The users with exactly these credentials.
pub open spec fn with_credentials(username: Seq<char>, password: Seq<char>) -> spec_fn(
    UserRow,
) -> bool {
    |row: UserRow| row.username == username && row.password == password
}

/// The lists of one user.
pub open spec fn owned_by(user_id: u32) -> spec_fn(ListRow) -> bool {
    |row: ListRow| row.user_id == user_id
}

/// The lists of everybody else.
pub open spec fn not_owned_by(user_id: u32) -> spec_fn(ListRow) -> bool {
    |row: ListRow| row.user_id != user_id
}

/// The items of one list.
pub open spec fn in_list(list_id: u32) -> spec_fn(ItemRow) -> bool {
    |row: ItemRow| row.list_id == list_id
}

/// The items of every other list.
pub open spec fn outside_list(list_id: u32) -> spec_fn(ItemRow) -> bool {
    |row: ItemRow| row.list_id != list_id
}

/// Every list but the one with this identifier and this owner.
pub open spec fn not_the_list(list_id: u32, user_id: u32) -> spec_fn(ListRow) -> bool {
    |row: ListRow| !(row.list_id == list_id && row.user_id == user_id)
}

/// Every item but the one with this identifier in this list.
pub open spec fn not_the_item(item_id: u32, list_id: u32) -> spec_fn(ItemRow) -> bool {
    |row: ItemRow| !(row.item_id == item_id && row.list_id == list_id)
}

/// Every user but this one.
pub open spec fn not_the_user(user_id: u32) -> spec_fn(UserRow) -> bool {
    |row: UserRow| row.user_id != user_id
}

/// The item with this identifier in this list gets the flag; every other row
/// stays as it is.
pub open spec fn flagged(item_id: u32, list_id: u32, complete: u32) -> spec_fn(ItemRow) -> ItemRow {
    |row: ItemRow|
        if row.item_id == item_id && row.list_id == list_id {
            ItemRow { complete, ..row }
        } else {
            row
        }
}

impl StoreModel {
    /// A store without rows.
    pub open spec fn empty() -> StoreModel {
        StoreModel { users: Seq::empty(), lists: Seq::empty(), items: Seq::empty() }
    }

    pub open spec fn has_user_id(self, user_id: u32) -> bool {
        exists|i: int| 0 <= i < self.users.len() && self.users[i].user_id == user_id
    }

    pub open spec fn has_username(self, username: Seq<char>) -> bool {
        exists|i: int| 0 <= i < self.users.len() && self.users[i].username == username
    }

    pub open spec fn has_list(self, list_id: u32) -> bool {
        exists|i: int| 0 <= i < self.lists.len() && self.lists[i].list_id == list_id
    }

    pub open spec fn has_item(self, item_id: u32) -> bool {
        exists|i: int| 0 <= i < self.items.len() && self.items[i].item_id == item_id
    }

    /// Whether the user owns a list with this identifier.
    pub open spec fn owns_list(self, user_id: u32, list_id: u32) -> bool {
        exists|i: int|
            0 <= i < self.lists.len() && self.lists[i].list_id == list_id
                && self.lists[i].user_id == user_id
    }

    /// The keys are keys, usernames are unique, and every item belongs to a
    /// list that is there.
    pub open spec fn consistent(self) -> bool {
        &&& distinct_keys(self.users, user_key())
        &&& distinct_keys(self.users, username_key())
        &&& distinct_keys(self.lists, list_key())
        &&& distinct_keys(self.items, item_key())
        &&& forall|i: int|
            0 <= i < self.items.len() ==> self.has_list((#[trigger] self.items[i]).list_id)
    }

    /// Inserts a user, unless the identifier or the username is taken.
    pub open spec fn create_user(self, username: Seq<char>, password: Seq<char>, user_id: u32) -> Result<
        StoreModel,
        StorageError,
    > {
        if self.has_user_id(user_id) || self.has_username(username) {
            Err(StorageError::ConstraintViolation)
        } else {
            Ok(StoreModel { users: self.users.push(UserRow { user_id, username, password }), ..self })
        }
    }

    /// The users with exactly these credentials.
    pub open spec fn authenticate(self, username: Seq<char>, password: Seq<char>) -> Seq<UserRow> {
        self.users.filter(with_credentials(username, password))
    }

    /// Inserts a list, unless the identifier is taken.
    pub open spec fn insert_list(self, list_name: Seq<char>, list_id: u32, user_id: u32) -> Result<
        StoreModel,
        StorageError,
    > {
        if self.has_list(list_id) {
            Err(StorageError::ConstraintViolation)
        } else {
            Ok(StoreModel { lists: self.lists.push(ListRow { user_id, list_id, list_name }), ..self })
        }
    }

    /// Inserts an item, unless the identifier is taken.
    pub open spec fn insert_item(self, item_name: Seq<char>, item_id: u32, list_id: u32, complete: u32) -> Result<
        StoreModel,
        StorageError,
    > {
        if self.has_item(item_id) {
            Err(StorageError::ConstraintViolation)
        } else {
            Ok(
                StoreModel {
                    items: self.items.push(ItemRow { item_id, list_id, item_name, complete }),
                    ..self
                },
            )
        }
    }

    /// Removes every item of the list, and the list if the user owns it.
    pub open spec fn remove_list(self, list_id: u32, user_id: u32) -> StoreModel {
        StoreModel {
            items: self.items.filter(outside_list(list_id)),
            lists: self.lists.filter(not_the_list(list_id, user_id)),
            ..self
        }
    }

    /// Removes the item with this identifier from this list.
    pub open spec fn remove_item(self, item_id: u32, list_id: u32) -> StoreModel {
        StoreModel { items: self.items.filter(not_the_item(item_id, list_id)), ..self }
    }

    /// Sets the flag of the item with this identifier in this list.
    pub open spec fn update_item(self, item_id: u32, list_id: u32, complete: u32) -> StoreModel {
        StoreModel { items: self.items.map_values(flagged(item_id, list_id, complete)), ..self }
    }

    /// Removes the lists that the user owns, each with its items, and the
    /// user.
    pub open spec fn remove_user(self, user_id: u32) -> StoreModel {
        StoreModel {
            users: self.users.filter(not_the_user(user_id)),
            lists: self.lists.filter(not_owned_by(user_id)),
            items: self.items.filter(|row: ItemRow| !self.owns_list(user_id, row.list_id)),
        }
    }

    /// The rows of the items of one list.
    pub open spec fn items_of(self, list_id: u32) -> Seq<ItemRow> {
        self.items.filter(in_list(list_id))
    }

    /// The rows of the lists of one user.
    pub open spec fn lists_of(self, user_id: u32) -> Seq<ListRow> {
        self.lists.filter(owned_by(user_id))
    }

    /// A row of `lists` together with the rows of its items, as a list.
    pub open spec fn loader(self) -> spec_fn(ListRow) -> ListModel {
        |row: ListRow| list_of_rows(row, self.items_of(row.list_id))
    }

    /// Every list of the user with its items.
    pub open spec fn load(self, user_id: u32) -> Seq<ListModel> {
        self.lists_of(user_id).map_values(self.loader())
    }
}

/// An identifier that the store holds is refused, the store stays as it is,
/// and the refusal asks for another candidate instead of being an error of
/// its own. This holds of lists, of items and of users alike.
pub proof fn lemma_taken_identifier_is_refused(
    store: StoreModel,
    name: Seq<char>,
    password: Seq<char>,
    id: u32,
    owner: u32,
    complete: u32,
)
    ensures
        store.has_list(id) ==> store.insert_list(name, id, owner) == Err::<
            StoreModel,
            StorageError,
        >(StorageError::ConstraintViolation),
        store.has_item(id) ==> store.insert_item(name, id, owner, complete) == Err::<
            StoreModel,
            StorageError,
        >(StorageError::ConstraintViolation),
        store.has_user_id(id) ==> store.create_user(name, password, id) == Err::<
            StoreModel,
            StorageError,
        >(StorageError::ConstraintViolation),
        attempt_of(Err(StorageError::ConstraintViolation)) == Attempt::Retry,
{
}

/// An insert that the store accepts leaves every identifier in use once: no
/// identifier is given out again while its row is there.
pub proof fn lemma_inserts_keep_identifiers_unique(
    store: StoreModel,
    name: Seq<char>,
    password: Seq<char>,
    id: u32,
    owner: u32,
    complete: u32,
)
    requires
        store.consistent(),
    ensures
        store.insert_list(name, id, owner) matches Ok(after) ==> after.consistent(),
        store.has_list(owner) ==> (store.insert_item(name, id, owner, complete) matches Ok(after)
            ==> after.consistent()),
        store.create_user(name, password, id) matches Ok(after) ==> after.consistent(),
{
    if let Ok(after) = store.insert_list(name, id, owner) {
        assert forall|i: int| 0 <= i < after.items.len() implies after.has_list(
            (#[trigger] after.items[i]).list_id,
        ) by {
            assert(store.has_list(store.items[i].list_id));
            let k = choose|k: int|
                0 <= k < store.lists.len() && store.lists[k].list_id == store.items[i].list_id;
            assert(after.lists[k].list_id == after.items[i].list_id);
        }
    }
    if store.has_list(owner) {
        if let Ok(after) = store.insert_item(name, id, owner, complete) {
            assert forall|i: int| 0 <= i < after.items.len() implies after.has_list(
                (#[trigger] after.items[i]).list_id,
            ) by {
                if i < store.items.len() {
                    assert(after.items[i] == store.items[i]);
                    assert(store.has_list(store.items[i].list_id));
                } else {
                    assert(after.items[i].list_id == owner);
                }
                let k = choose|k: int|
                    0 <= k < store.lists.len() && store.lists[k].list_id == after.items[i].list_id;
                assert(after.lists[k].list_id == after.items[i].list_id);
            }
        }
    }
}

/// Deleting a list deletes its items: afterwards a query for the items of
/// that list finds none.
pub proof fn lemma_remove_list_cascades(store: StoreModel, list_id: u32, user_id: u32)
    ensures
        store.remove_list(list_id, user_id).items_of(list_id) == Seq::<ItemRow>::empty(),
{
    let left = store.items.filter(outside_list(list_id));
    lemma_filter_members(store.items, outside_list(list_id));
    lemma_filter_none(left, in_list(list_id));
}

/// Removing a user leaves none of the user's lists, and so nothing to load.
pub proof fn lemma_remove_user_leaves_nothing(store: StoreModel, user_id: u32)
    ensures
        store.remove_user(user_id).load(user_id) == Seq::<ListModel>::empty(),
{
    let after = store.remove_user(user_id);
    lemma_filter_members(store.lists, not_owned_by(user_id));
    lemma_filter_none(after.lists, owned_by(user_id));
    assert(after.load(user_id) =~= Seq::<ListModel>::empty());
}

/// A username that is taken cannot be taken again: the second account is
/// refused and no row is inserted.
pub proof fn lemma_taken_username_is_refused(
    store: StoreModel,
    username: Seq<char>,
    password: Seq<char>,
    user_id: u32,
)
    requires
        store.has_username(username),
    ensures
        store.create_user(username, password, user_id) == Err::<StoreModel, StorageError>(
            StorageError::ConstraintViolation,
        ),
{
}

/// Credentials match one account at most.
pub proof fn lemma_at_most_one_match(store: StoreModel, username: Seq<char>, password: Seq<char>)
    requires
        store.consistent(),
    ensures
        store.authenticate(username, password).len() <= 1,
{
    let found = store.authenticate(username, password);
    lemma_filter_distinct(store.users, with_credentials(username, password), username_key());
    lemma_filter_members(store.users, with_credentials(username, password));
    if found.len() > 1 {
        assert(with_credentials(username, password)(found[0]));
        assert(with_credentials(username, password)(found[1]));
        assert(username_key()(found[0]) != username_key()(found[1]));
    }
}

/// An account that was just created is found by its credentials, once, and
/// not by its username with another password.
pub proof fn lemma_created_account_logs_in(
    store: StoreModel,
    username: Seq<char>,
    password: Seq<char>,
    user_id: u32,
    wrong: Seq<char>,
)
    requires
        store.consistent(),
        store.create_user(username, password, user_id) is Ok,
        wrong != password,
    ensures
        ({
            let after = store.create_user(username, password, user_id)->Ok_0;
            &&& after.authenticate(username, password) == seq![
                UserRow { user_id, username, password },
            ]
            &&& after.authenticate(username, wrong).len() == 0
        }),
{
    let row = UserRow { user_id, username, password };
    assert forall|i: int| 0 <= i < store.users.len() implies !with_credentials(username, password)(
        #[trigger] store.users[i],
    ) && !with_credentials(username, wrong)(store.users[i]) by {}
    lemma_filter_none(store.users, with_credentials(username, password));
    lemma_filter_none(store.users, with_credentials(username, wrong));
    store.users.lemma_filter_push(row, with_credentials(username, password));
    store.users.lemma_filter_push(row, with_credentials(username, wrong));
    assert(Seq::<UserRow>::empty().push(row) =~= seq![row]);
}

} // verus!
