//! A named to-do list and the items it holds, in insertion order.

use vstd::prelude::*;
use crate::todo_item::{ItemModel, TodoItem};

verus! {

/// What a list is, as a mathematical value.
pub struct ListModel {
    pub name: Seq<char>,
    pub list_id: u32,
    pub items: Seq<ItemModel>,
}

/// The items of a vector, each taken as its model.
pub open spec fn item_models(items: Seq<TodoItem>) -> Seq<ItemModel> {
    Seq::new(items.len(), |i: int| items[i]@)
}

/// The lists of a vector, each taken as its model.
pub open spec fn list_models(lists: Seq<TodoList>) -> Seq<ListModel> {
    Seq::new(lists.len(), |i: int| lists[i]@)
}

/// A named list of items. Items keep the order in which they were added and
/// nothing prevents two of them from carrying the same name.
pub struct TodoList {
    pub name: String,
    pub list_id: u32,
    pub list: Vec<TodoItem>,
}

impl View for TodoList {
    type V = ListModel;

    open spec fn view(&self) -> ListModel {
        ListModel { name: self.name@, list_id: self.list_id, items: item_models(self.list@) }
    }
}

impl TodoList {
    /// An empty list.
    pub fn new(list_name: String, list_id: u32) -> (list: TodoList)
        ensures
            list@ == (ListModel { name: list_name@, list_id, items: Seq::empty() }),
    {
        let list = TodoList { name: list_name, list_id, list: Vec::new() };
        assert(item_models(list.list@) =~= Seq::empty());
        list
    }

    /// A list as it was stored, with the items it had.
    pub fn new_from_load(list_name: String, list_id: u32, items: Vec<TodoItem>) -> (list: TodoList)
        ensures
            list@ == (ListModel { name: list_name@, list_id, items: item_models(items@) }),
    {
        TodoList { name: list_name, list_id, list: items }
    }

    /// Appends a fresh, incomplete item. Always succeeds.
    pub fn add(&mut self, item_name: String, item_id: u32) -> (added: bool)
        ensures
            added,
            final(self)@ == (ListModel {
                items: old(self)@.items.push(
                    ItemModel { name: item_name@, item_id, complete: false },
                ),
                ..old(self)@
            }),
    {
        self.list.push(TodoItem::new(item_name, item_id));
        assert(item_models(self.list@) =~= item_models(old(self).list@).push(
            ItemModel { name: item_name@, item_id, complete: false },
        ));
        true
    }

    /// Removes the item at `index`. An index past the end removes nothing and
    /// gives `false`.
    pub fn remove_index(&mut self, index: usize) -> (removed: bool)
        ensures
            removed == (index < old(self)@.items.len()),
            removed ==> final(self)@ == (ListModel {
                items: old(self)@.items.remove(index as int),
                ..old(self)@
            }),
            !removed ==> final(self)@ == old(self)@,
    {
        if index >= self.list.len() {
            return false;
        }
        self.list.remove(index);
        assert(item_models(self.list@) =~= item_models(old(self).list@).remove(index as int));
        true
    }

    /// Flips the completion flag of the item at `index`. An index past the
    /// end changes nothing and gives `false`.
    pub fn set_item_complete(&mut self, index: usize) -> (toggled: bool)
        ensures
            toggled == (index < old(self)@.items.len()),
            toggled ==> final(self)@ == (ListModel {
                items: old(self)@.items.update(
                    index as int,
                    ItemModel {
                        complete: !old(self)@.items[index as int].complete,
                        ..old(self)@.items[index as int]
                    },
                ),
                ..old(self)@
            }),
            !toggled ==> final(self)@ == old(self)@,
    {
        if index >= self.list.len() {
            return false;
        }
        self.list[index].toggle_complete();
        assert(item_models(self.list@) =~= item_models(old(self).list@).update(
            index as int,
            ItemModel {
                complete: !old(self)@.items[index as int].complete,
                ..old(self)@.items[index as int]
            },
        ));
        true
    }

    /// Removes every item. Always succeeds.
    pub fn delete_list_items(&mut self) -> (emptied: bool)
        ensures
            emptied,
            final(self)@ == (ListModel { items: Seq::empty(), ..old(self)@ }),
    {
        while !self.list.is_empty()
            invariant
                self.name == old(self).name,
                self.list_id == old(self).list_id,
            decreases self.list.len(),
        {
            self.list.pop();
        }
        assert(item_models(self.list@) =~= Seq::empty());
        true
    }

    pub fn get_list_len(&self) -> (len: usize)
        ensures
            len == self@.items.len(),
    {
        self.list.len()
    }

    /// A copy of the list's name.
    pub fn get_name(&self) -> (name: String)
        ensures
            name@ == self@.name,
    {
        self.name.clone()
    }

    pub fn get_list_id(&self) -> (list_id: u32)
        ensures
            list_id == self@.list_id,
    {
        self.list_id
    }

    /// Whether the item at `index` is checked off.
    pub fn get_item_complete_status(&self, index: usize) -> (complete: bool)
        requires
            index < self@.items.len(),
        ensures
            complete == self@.items[index as int].complete,
    {
        self.list[index].get_complete()
    }

    /// The identifier of the item at `index`.
    pub fn get_item_id(&self, index: usize) -> (item_id: u32)
        requires
            index < self@.items.len(),
        ensures
            item_id == self@.items[index as int].item_id,
    {
        self.list[index].get_item_id()
    }
}

} // verus!
