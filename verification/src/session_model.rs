//! The session as a mathematical value: what it holds, what each action
//! makes of it, and what holds of every session.

use vstd::prelude::*;
use crate::app_state::{ActionState, InputBox, SelectedList};
use crate::cursor::{advance, clamp_index, lemma_full_turn, next_index, previous_index};
use crate::database::StorageError;
use crate::identifier::NO_ID;
use crate::key::Key;
use crate::text::without_last;
use crate::todo::ListModel;
use crate::todo_item::ItemModel;
use crate::user::UserModel;

verus! {

/// The session as a mathematical value.
pub struct SessionModel {
    pub user: UserModel,
    pub lists: Seq<ListModel>,
    pub input_list: Seq<char>,
    pub input_item: Seq<char>,
    pub list_index: nat,
    pub item_index: nat,
    pub action_state: ActionState,
    pub input_box: InputBox,
    pub selected_list: SelectedList,
    pub footer: Seq<char>,
}

pub open spec fn welcome_text() -> Seq<char> {
    "Press 1 to enter input \nPress 2 to navigate\n Press q to exit app"@
}

pub open spec fn default_text() -> Seq<char> {
    "Press 1 to enter input. \nPress 2 to navigate.\n Press q to exit app."@
}

pub open spec fn capture_text() -> Seq<char> {
    "Press right or left arrow key to choose input box. \nPress enter keys and press enter to add list or item. \n Press esc return to default."@
}

pub open spec fn navigate_text() -> Seq<char> {
    "Press arrow keys to navigate list \nPress enter to cross off an item. \nPress backspace/delete to remove an item or list. \nPress esc return to default."@
}

pub open spec fn list_not_saved_text() -> Seq<char> {
    "Storage error: the list could not be saved."@
}

pub open spec fn item_not_saved_text() -> Seq<char> {
    "Storage error: the item could not be saved."@
}

pub open spec fn list_not_removed_text() -> Seq<char> {
    "Storage error: the list could not be removed."@
}

pub open spec fn item_not_removed_text() -> Seq<char> {
    "Storage error: the item could not be removed."@
}

pub open spec fn item_not_updated_text() -> Seq<char> {
    "Storage error: the item could not be updated."@
}

pub open spec fn no_list_text() -> Seq<char> {
    "No Active Lists"@
}

/// The name of a mode as the header shows it.
pub open spec fn mode_text(action_state: ActionState) -> Seq<char> {
    match action_state {
        ActionState::CaptureInput => "Input"@,
        ActionState::Navigate => "Navigation"@,
        ActionState::Default => "Default"@,
    }
}

/// An item with its completion flag flipped.
pub open spec fn flipped(item: ItemModel) -> ItemModel {
    ItemModel { complete: !item.complete, ..item }
}

/// The flag that the store keeps for a completion state.
pub open spec fn flag_of(complete: bool) -> u32 {
    if complete {
        1
    } else {
        0
    }
}

/// The cursor after the element it points at was removed from a collection
/// that had `n` elements: it stays, unless it pointed at the last of several,
/// in which case it moves to the new last.
pub open spec fn index_after_removal(i: nat, n: int) -> nat {
    if i > 0 && i == n - 1 {
        (i - 1) as nat
    } else {
        i
    }
}

impl SessionModel {
    /// A session that has just begun, with the lists that were loaded.
    pub open spec fn initial(user: UserModel, lists: Seq<ListModel>) -> SessionModel {
        SessionModel {
            user,
            lists,
            input_list: Seq::empty(),
            input_item: Seq::empty(),
            list_index: 0,
            item_index: 0,
            action_state: ActionState::Default,
            input_box: InputBox::Default,
            selected_list: SelectedList::Default,
            footer: welcome_text(),
        }
    }

    /// Whether the list cursor points at a list.
    pub open spec fn has_list(self) -> bool {
        self.list_index < self.lists.len()
    }

    /// The items of the list that the list cursor points at; none if it
    /// points at no list.
    pub open spec fn items(self) -> Seq<ItemModel> {
        if self.has_list() {
            self.lists[self.list_index as int].items
        } else {
            Seq::empty()
        }
    }

    /// Whether the item cursor points at an item of the selected list.
    pub open spec fn has_item(self) -> bool {
        self.item_index < self.items().len()
    }

    /// Both cursors are valid. The list cursor points at a list, and at
    /// position 0 while there is none. The item cursor points at an item of
    /// the selected list whenever that list has items; over an empty list
    /// nothing is asked of it.
    pub open spec fn wf(self) -> bool {
        &&& self.has_list() || (self.lists.len() == 0 && self.list_index == 0)
        &&& self.items().len() > 0 ==> self.has_item()
    }

    /// The item cursor pulled back into the selected list, if that list has
    /// items; left where it is, if it has none.
    pub open spec fn item_cursor_clamped(self) -> SessionModel {
        SessionModel {
            item_index: clamp_index(self.item_index as int, self.items().len() as int) as nat,
            ..self
        }
    }

    /// Back to the resting mode: nothing selected, both buffers discarded.
    pub open spec fn to_default(self) -> SessionModel {
        SessionModel {
            selected_list: SelectedList::Default,
            input_box: InputBox::Default,
            action_state: ActionState::Default,
            input_list: Seq::empty(),
            input_item: Seq::empty(),
            footer: default_text(),
            ..self
        }
    }

    /// Into input mode, typing a list name first.
    pub open spec fn to_capture_input(self) -> SessionModel {
        SessionModel {
            selected_list: SelectedList::Default,
            input_box: InputBox::AddList,
            action_state: ActionState::CaptureInput,
            footer: capture_text(),
            ..self
        }
    }

    /// Into navigation, moving the list cursor first.
    pub open spec fn to_navigate(self) -> SessionModel {
        SessionModel {
            selected_list: SelectedList::List,
            input_box: InputBox::Default,
            action_state: ActionState::Navigate,
            footer: navigate_text(),
            ..self
        }
    }

    /// Left or right: the other cursor while navigating, the other buffer
    /// while typing. The mode stays.
    pub open spec fn side_switched(self) -> SessionModel {
        match self.action_state {
            ActionState::Navigate => match self.selected_list {
                SelectedList::List => SessionModel { selected_list: SelectedList::Items, ..self },
                SelectedList::Items => SessionModel { selected_list: SelectedList::List, ..self },
                SelectedList::Default => self,
            },
            ActionState::CaptureInput => match self.input_box {
                InputBox::AddList => SessionModel { input_box: InputBox::AddItem, ..self },
                InputBox::AddItem => SessionModel { input_box: InputBox::AddList, ..self },
                InputBox::Default => self,
            },
            ActionState::Default => self,
        }
    }

    /// A character typed into the buffer that is selected.
    pub open spec fn typed(self, c: char) -> SessionModel {
        match self.input_box {
            InputBox::AddList => SessionModel { input_list: self.input_list.push(c), ..self },
            InputBox::AddItem => SessionModel { input_item: self.input_item.push(c), ..self },
            InputBox::Default => self,
        }
    }

    /// Backspace in the buffer that is selected.
    pub open spec fn erased(self) -> SessionModel {
        match self.input_box {
            InputBox::AddList => SessionModel { input_list: without_last(self.input_list), ..self },
            InputBox::AddItem => SessionModel { input_item: without_last(self.input_item), ..self },
            InputBox::Default => self,
        }
    }

    /// What the selected buffer holds; nothing if none is selected.
    pub open spec fn pending_input(self) -> Seq<char> {
        match self.input_box {
            InputBox::AddList => self.input_list,
            InputBox::AddItem => self.input_item,
            InputBox::Default => Seq::empty(),
        }
    }

    /// The selected buffer emptied.
    pub open spec fn input_taken(self) -> SessionModel {
        match self.input_box {
            InputBox::AddList => SessionModel { input_list: Seq::empty(), ..self },
            InputBox::AddItem => SessionModel { input_item: Seq::empty(), ..self },
            InputBox::Default => self,
        }
    }

    /// The selected cursor one step further, wrapping at the end. A move of
    /// the list cursor pulls the item cursor into the newly selected list if
    /// that list has items, and leaves it alone otherwise. Nothing moves over
    /// an empty collection.
    pub open spec fn cursor_next(self) -> SessionModel {
        match self.selected_list {
            SelectedList::List => if self.lists.len() == 0 {
                self
            } else {
                (SessionModel {
                    list_index: next_index(
                        self.list_index as int,
                        self.lists.len() as int,
                    ) as nat,
                    ..self
                }).item_cursor_clamped()
            },
            SelectedList::Items => if self.items().len() == 0 {
                self
            } else {
                SessionModel {
                    item_index: next_index(
                        self.item_index as int,
                        self.items().len() as int,
                    ) as nat,
                    ..self
                }
            },
            SelectedList::Default => self,
        }
    }

    /// The selected cursor one step back, wrapping at the start. A move of
    /// the list cursor pulls the item cursor into the newly selected list if
    /// that list has items, and leaves it alone otherwise. Nothing moves over
    /// an empty collection.
    pub open spec fn cursor_previous(self) -> SessionModel {
        match self.selected_list {
            SelectedList::List => if self.lists.len() == 0 {
                self
            } else {
                (SessionModel {
                    list_index: previous_index(
                        self.list_index as int,
                        self.lists.len() as int,
                    ) as nat,
                    ..self
                }).item_cursor_clamped()
            },
            SelectedList::Items => if self.items().len() == 0 {
                self
            } else {
                SessionModel {
                    item_index: previous_index(
                        self.item_index as int,
                        self.items().len() as int,
                    ) as nat,
                    ..self
                }
            },
            SelectedList::Default => self,
        }
    }

    /// The session after the down arrow was pressed `steps` times.
    pub open spec fn moved_forward(self, steps: nat) -> SessionModel
        decreases steps,
    {
        if steps == 0 {
            self
        } else {
            self.cursor_next().moved_forward((steps - 1) as nat)
        }
    }

    /// A new, empty list appended.
    pub open spec fn list_pushed(self, name: Seq<char>, list_id: u32) -> SessionModel {
        SessionModel {
            lists: self.lists.push(ListModel { name, list_id, items: Seq::empty() }),
            ..self
        }
    }

    /// A new, open item appended to the selected list, and the item cursor
    /// pulled onto the items that the list then has; nothing if no list is
    /// selected.
    pub open spec fn item_pushed(self, name: Seq<char>, item_id: u32) -> SessionModel {
        if self.has_list() {
            let list = self.lists[self.list_index as int];
            SessionModel {
                lists: self.lists.update(
                    self.list_index as int,
                    ListModel {
                        items: list.items.push(ItemModel { name, item_id, complete: false }),
                        ..list
                    },
                ),
                item_index: clamp_index(self.item_index as int, (list.items.len() + 1) as int) as nat,
                ..self
            }
        } else {
            self
        }
    }

    /// The selected list removed with all its items. The list cursor stays,
    /// or moves to the new last list if it pointed at the last of several;
    /// the item cursor is pulled into the list that is selected afterwards,
    /// if that list has items.
    /// Nothing happens if no list is selected.
    pub open spec fn list_removed(self) -> SessionModel {
        if self.has_list() {
            (SessionModel {
                lists: self.lists.remove(self.list_index as int),
                list_index: index_after_removal(self.list_index, self.lists.len() as int),
                ..self
            }).item_cursor_clamped()
        } else {
            self
        }
    }

    /// The selected item removed. The item cursor stays, or moves to the new
    /// last item if it pointed at the last of several. Nothing happens if no
    /// item is selected.
    pub open spec fn item_removed(self) -> SessionModel {
        if self.has_item() {
            let list = self.lists[self.list_index as int];
            SessionModel {
                lists: self.lists.update(
                    self.list_index as int,
                    ListModel { items: list.items.remove(self.item_index as int), ..list },
                ),
                item_index: index_after_removal(self.item_index, list.items.len() as int),
                ..self
            }
        } else {
            self
        }
    }

    /// The selected item checked off, or opened again if it was checked off.
    /// Nothing happens unless the item cursor is the one that moves and
    /// points at an item.
    pub open spec fn item_toggled(self) -> SessionModel {
        if self.selected_list == SelectedList::Items && self.has_item() {
            let list = self.lists[self.list_index as int];
            SessionModel {
                lists: self.lists.update(
                    self.list_index as int,
                    ListModel {
                        items: list.items.update(
                            self.item_index as int,
                            flipped(list.items[self.item_index as int]),
                        ),
                        ..list
                    },
                ),
                ..self
            }
        } else {
            self
        }
    }

    /// A failure of the store shown in the footer; a success leaves the
    /// footer alone.
    pub open spec fn reported(self, outcome: Result<(), StorageError>, text: Seq<char>) -> SessionModel {
        match outcome {
            Ok(()) => self,
            Err(_) => SessionModel { footer: text, ..self },
        }
    }
}

/// What submitting a list name leaves behind, whatever the store answered.
///
/// The selected buffer is emptied in any case. An empty name adds nothing.
/// Otherwise a list of that name is appended under an identifier that the
/// store accepted, or, if the store accepted none, the footer says so and
/// the lists stay as they were.
pub open spec fn add_list_post(
    pre: SessionModel,
    post: SessionModel,
    outcome: Result<bool, StorageError>,
) -> bool {
    let name = pre.pending_input();
    let base = pre.input_taken();
    if name.len() == 0 {
        outcome == Ok::<bool, StorageError>(false) && post == base
    } else {
        match outcome {
            Ok(added) => added && exists|list_id: u32|
                list_id != NO_ID && post == base.list_pushed(name, list_id),
            Err(_) => post == (SessionModel { footer: list_not_saved_text(), ..base }),
        }
    }
}

/// What submitting an item name leaves behind, whatever the store answered.
///
/// The selected buffer is emptied in any case. An empty name adds nothing,
/// and neither does a name submitted while no list is selected. Otherwise an
/// open item of that name is appended to the selected list under an
/// identifier that the store accepted, or, if the store accepted none, the
/// footer says so and the lists stay as they were.
pub open spec fn add_item_post(
    pre: SessionModel,
    post: SessionModel,
    outcome: Result<bool, StorageError>,
) -> bool {
    let name = pre.pending_input();
    let base = pre.input_taken();
    if name.len() == 0 || !base.has_list() {
        outcome == Ok::<bool, StorageError>(false) && post == base
    } else {
        match outcome {
            Ok(added) => added && exists|item_id: u32|
                item_id != NO_ID && post == base.item_pushed(name, item_id),
            Err(_) => post == (SessionModel { footer: item_not_saved_text(), ..base }),
        }
    }
}

/// What the confirm key leaves behind in input mode.
pub open spec fn add_post(
    pre: SessionModel,
    post: SessionModel,
    outcome: Result<bool, StorageError>,
) -> bool {
    match pre.input_box {
        InputBox::AddList => add_list_post(pre, post, outcome),
        InputBox::AddItem => add_item_post(pre, post, outcome),
        InputBox::Default => outcome == Ok::<bool, StorageError>(false) && post == pre,
    }
}

/// What deleting the selected list leaves behind: the list is gone from
/// memory whatever the store answered, and a failure of the store shows in
/// the footer.
pub open spec fn delete_list_post(pre: SessionModel, post: SessionModel) -> bool {
    if pre.has_list() {
        exists|outcome: Result<(), StorageError>|
            post == pre.list_removed().reported(outcome, list_not_removed_text())
    } else {
        post == pre
    }
}

/// What deleting the selected item leaves behind: the item is gone from
/// memory whatever the store answered, and a failure of the store shows in
/// the footer.
pub open spec fn delete_item_post(pre: SessionModel, post: SessionModel) -> bool {
    if pre.has_item() {
        exists|outcome: Result<(), StorageError>|
            post == pre.item_removed().reported(outcome, item_not_removed_text())
    } else {
        post == pre
    }
}

/// What the delete key leaves behind while navigating.
pub open spec fn delete_post(pre: SessionModel, post: SessionModel) -> bool {
    match pre.selected_list {
        SelectedList::List => delete_list_post(pre, post),
        SelectedList::Items => delete_item_post(pre, post),
        SelectedList::Default => post == pre,
    }
}

/// What checking off the selected item leaves behind: the flag is flipped in
/// memory whatever the store answered, and a failure of the store shows in
/// the footer.
pub open spec fn check_off_post(pre: SessionModel, post: SessionModel) -> bool {
    if pre.selected_list == SelectedList::Items && pre.has_item() {
        exists|outcome: Result<(), StorageError>|
            post == pre.item_toggled().reported(outcome, item_not_updated_text())
    } else {
        post == pre
    }
}

/// What the confirm key leaves behind while navigating: on a list it opens
/// input mode, on an item it checks the item off.
pub open spec fn enter_post(pre: SessionModel, post: SessionModel) -> bool {
    match pre.selected_list {
        SelectedList::List => post == pre.to_capture_input(),
        SelectedList::Items => check_off_post(pre, post),
        SelectedList::Default => post == pre,
    }
}

/// What one key press leaves behind, and whether it ends the session.
pub open spec fn key_post(pre: SessionModel, post: SessionModel, key: Key, exit: bool) -> bool {
    match pre.action_state {
        ActionState::Default => match key {
            Key::Esc => !exit && post == pre.to_default(),
            Key::Char(c) => if c == '1' {
                !exit && post == pre.to_capture_input()
            } else if c == '2' {
                !exit && post == pre.to_navigate()
            } else {
                exit == (c == 'q') && post == pre
            },
            _ => !exit && post == pre,
        },
        ActionState::CaptureInput => !exit && match key {
            Key::Esc => post == pre.to_default(),
            Key::Char(c) => post == pre.typed(c),
            Key::Backspace => post == pre.erased(),
            Key::Enter => exists|outcome: Result<bool, StorageError>| add_post(pre, post, outcome),
            Key::Left => post == pre.side_switched(),
            Key::Right => post == pre.side_switched(),
            _ => post == pre,
        },
        ActionState::Navigate => !exit && match key {
            Key::Esc => post == pre.to_default(),
            Key::Left => post == pre.side_switched(),
            Key::Right => post == pre.side_switched(),
            Key::Up => post == pre.cursor_previous(),
            Key::Down => post == pre.cursor_next(),
            Key::Backspace => delete_post(pre, post),
            Key::Enter => enter_post(pre, post),
            _ => post == pre,
        },
    }
}

/// While the list cursor moves, the down arrow moves it as `advance` says and
/// leaves the lists alone.
pub proof fn lemma_list_cursor_advances(session: SessionModel, steps: nat)
    requires
        session.selected_list == SelectedList::List,
        session.has_list(),
    ensures
        session.moved_forward(steps).list_index == advance(
            session.list_index as int,
            session.lists.len() as int,
            steps,
        ),
        session.moved_forward(steps).lists == session.lists,
        session.moved_forward(steps).selected_list == SelectedList::List,
    decreases steps,
{
    if steps > 0 {
        lemma_list_cursor_advances(session.cursor_next(), (steps - 1) as nat);
    }
}

/// While the item cursor moves, the down arrow moves it as `advance` says and
/// leaves everything else alone.
pub proof fn lemma_item_cursor_advances(session: SessionModel, steps: nat)
    requires
        session.selected_list == SelectedList::Items,
        session.has_item(),
    ensures
        session.moved_forward(steps) == (SessionModel {
            item_index: advance(
                session.item_index as int,
                session.items().len() as int,
                steps,
            ) as nat,
            ..session
        }),
        session.moved_forward(steps).has_item(),
    decreases steps,
{
    if steps > 0 {
        lemma_item_cursor_advances(session.cursor_next(), (steps - 1) as nat);
    }
}

/// Cursor wraparound over the lists: with `n` lists, pressing the down arrow
/// `n` times brings the list cursor back to where it stood, and the up arrow
/// on the first list leads to the last.
pub proof fn lemma_list_cursor_wraps(session: SessionModel)
    requires
        session.selected_list == SelectedList::List,
        session.has_list(),
    ensures
        session.moved_forward(session.lists.len()).list_index == session.list_index,
        session.list_index == 0 ==> session.cursor_previous().list_index == session.lists.len() - 1,
{
    lemma_list_cursor_advances(session, session.lists.len());
    lemma_full_turn(session.list_index as int, session.lists.len() as int);
}

/// Cursor wraparound over the items of the selected list: with `n` items,
/// pressing the down arrow `n` times brings the session back to where it
/// stood, and the up arrow on the first item leads to the last.
pub proof fn lemma_item_cursor_wraps(session: SessionModel)
    requires
        session.selected_list == SelectedList::Items,
        session.has_item(),
    ensures
        session.moved_forward(session.items().len()) == session,
        session.item_index == 0 ==> session.cursor_previous().item_index == session.items().len()
            - 1,
{
    lemma_item_cursor_advances(session, session.items().len());
    lemma_full_turn(session.item_index as int, session.items().len() as int);
}

/// Empty-input rejection: submitting an empty name, for a list or for an
/// item, adds nothing. The lists stay as they were and so does their number.
pub proof fn lemma_empty_name_adds_nothing(
    pre: SessionModel,
    post: SessionModel,
    outcome: Result<bool, StorageError>,
)
    requires
        add_post(pre, post, outcome),
        pre.pending_input().len() == 0,
    ensures
        outcome == Ok::<bool, StorageError>(false),
        post.lists == pre.lists,
        post.lists.len() == pre.lists.len(),
{
}

/// The same of the confirm key: in input mode it adds nothing while the
/// selected buffer is empty.
pub proof fn lemma_enter_on_empty_input_adds_nothing(
    pre: SessionModel,
    post: SessionModel,
    exit: bool,
)
    requires
        key_post(pre, post, Key::Enter, exit),
        pre.action_state == ActionState::CaptureInput,
        pre.pending_input().len() == 0,
    ensures
        post.lists == pre.lists,
        !exit,
{
    let outcome = choose|outcome: Result<bool, StorageError>| add_post(pre, post, outcome);
    lemma_empty_name_adds_nothing(pre, post, outcome);
}

/// Both cursors stay valid: whatever key is pressed, afterwards the list
/// cursor points at a list if there is one, and the item cursor at an item of
/// the selected list if that list has one.
pub proof fn lemma_keys_keep_cursors_valid(pre: SessionModel, post: SessionModel, key: Key, exit: bool)
    requires
        pre.wf(),
        key_post(pre, post, key, exit),
    ensures
        post.wf(),
{
}

} // verus!
