//! A single to-do item.

use vstd::prelude::*;

verus! {

/// What an item is, as a mathematical value.
pub struct ItemModel {
    pub name: Seq<char>,
    pub item_id: u32,
    pub complete: bool,
}

/// One entry of a to-do list: a name, the identifier of its stored row and
/// whether it has been checked off.
pub struct TodoItem {
    item_name: String,
    item_id: u32,
    complete: bool,
}

impl View for TodoItem {
    type V = ItemModel;

    closed spec fn view(&self) -> ItemModel {
        ItemModel { name: self.item_name@, item_id: self.item_id, complete: self.complete }
    }
}

impl TodoItem {
    /// A fresh item, not yet complete.
    pub fn new(item_name: String, item_id: u32) -> (item: TodoItem)
        ensures
            item@ == (ItemModel { name: item_name@, item_id, complete: false }),
    {
        TodoItem { item_name, item_id, complete: false }
    }

    /// An item as it was stored, with the completion flag it had.
    pub fn new_from_load(item_name: String, item_id: u32, complete: bool) -> (item: TodoItem)
        ensures
            item@ == (ItemModel { name: item_name@, item_id, complete }),
    {
        TodoItem { item_name, item_id, complete }
    }

    /// Flips the completion flag and leaves name and identifier alone.
    pub fn toggle_complete(&mut self)
        ensures
            final(self)@ == (ItemModel { complete: !old(self)@.complete, ..old(self)@ }),
    {
        self.complete = !self.complete;
    }

    /// A copy of the item's name.
    pub fn get_item_name(&self) -> (name: String)
        ensures
            name@ == self@.name,
    {
        self.item_name.clone()
    }

    pub fn get_complete(&self) -> (complete: bool)
        ensures
            complete == self@.complete,
    {
        self.complete
    }

    pub fn get_item_id(&self) -> (item_id: u32)
        ensures
            item_id == self@.item_id,
    {
        self.item_id
    }
}

} // verus!
