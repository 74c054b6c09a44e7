//! The session after login: the user's lists in memory, two selection
//! cursors, two input buffers and the mode that decides what a key does.
//!
//! Every change is made in memory first and then handed to the store. The
//! lists in memory are what the session shows, whatever the store answers.

use vstd::prelude::*;
use crate::cursor::{clamp, step_back, step_forward};
use crate::database::{built_from_rows, StorageError, TodoDatabase};
use crate::identifier::{is_offered, next_step, random_id, Step, MAX_ATTEMPTS, NO_ID};
use crate::key::Key;
use crate::session_model::{
    add_item_post,
    add_list_post,
    add_post,
    check_off_post,
    delete_item_post,
    delete_list_post,
    delete_post,
    enter_post,
    flag_of,
    key_post,
    mode_text,
    no_list_text,
    SessionModel,
};
use crate::text::{erase_last, take_text};
use crate::todo::{list_models, ListModel, TodoList};
use crate::user::User;

verus! {

/// Which input buffer receives what is typed.
#[derive(Clone, Copy, Debug, PartialEq, Eq, Structural)]
pub enum InputBox {
    AddList,
    AddItem,
    Default,
}

/// What the session is doing.
#[derive(Clone, Copy, Debug, PartialEq, Eq, Structural)]
pub enum ActionState {
    /// Names of new lists and items are being typed.
    CaptureInput,
    /// The cursors move over lists and items.
    Navigate,
    /// Neither: a mode can be chosen or the session left.
    Default,
}

/// Which cursor moves.
#[derive(Clone, Copy, Debug, PartialEq, Eq, Structural)]
pub enum SelectedList {
    List,
    Items,
    Default,
}

/// Draws identifiers until the store accepts the list under one of them, and
/// gives that identifier. What follows each candidate is decided by
/// `next_step`.
fn store_list(database: &TodoDatabase, list_name: &String, user_id: u32) -> (stored: Result<
    u32,
    StorageError,
>)
    ensures
        stored matches Ok(list_id) ==> list_id != NO_ID,
{
    let mut attempts: usize = 0;
    loop
        invariant
            attempts < MAX_ATTEMPTS,
        decreases MAX_ATTEMPTS - attempts,
    {
        let candidate = random_id();
        let answer = if is_offered(candidate) {
            Some(database.insert_into_list(list_name.clone(), candidate, user_id))
        } else {
            None
        };
        match next_step(attempts, candidate, answer) {
            Step::Stored(list_id) => {
                return Ok(list_id);
            },
            Step::Again => {
                attempts += 1;
            },
            Step::Failed(error) => {
                return Err(error);
            },
        }
    }
}

/// Draws identifiers until the store accepts the item, open, under one of
/// them, and gives that identifier. What follows each candidate is decided
/// by `next_step`.
fn store_item(database: &TodoDatabase, item_name: &String, list_id: u32) -> (stored: Result<
    u32,
    StorageError,
>)
    ensures
        stored matches Ok(item_id) ==> item_id != NO_ID,
{
    let mut attempts: usize = 0;
    loop
        invariant
            attempts < MAX_ATTEMPTS,
        decreases MAX_ATTEMPTS - attempts,
    {
        let candidate = random_id();
        let answer = if is_offered(candidate) {
            Some(database.insert_into_items(item_name.clone(), candidate, list_id, 0))
        } else {
            None
        };
        match next_step(attempts, candidate, answer) {
            Step::Stored(item_id) => {
                return Ok(item_id);
            },
            Step::Again => {
                attempts += 1;
            },
            Step::Failed(error) => {
                return Err(error);
            },
        }
    }
}

/// The session: who is logged in, the store, the lists in memory and what
/// the keys currently do.
pub struct State {
    pub user: User,
    pub database: TodoDatabase,
    pub todo_lists: Vec<TodoList>,
    pub input_list: String,
    pub input_item: String,
    pub list_index: usize,
    pub item_index: usize,
    pub action_state: ActionState,
    pub footer_meaage: String,
    pub input_box: InputBox,
    pub selected_list: SelectedList,
}

impl View for State {
    type V = SessionModel;

    open spec fn view(&self) -> SessionModel {
        SessionModel {
            user: self.user@,
            lists: list_models(self.todo_lists@),
            input_list: self.input_list@,
            input_item: self.input_item@,
            list_index: self.list_index as nat,
            item_index: self.item_index as nat,
            action_state: self.action_state,
            input_box: self.input_box,
            selected_list: self.selected_list,
            footer: self.footer_meaage@,
        }
    }
}

impl State {
    /// Begins a session with lists that were loaded for the user.
    pub fn from_loaded(user: User, database: TodoDatabase, user_data: Vec<TodoList>) -> (state: State)
        ensures
            state@ == SessionModel::initial(user@, list_models(user_data@)),
            state@.wf(),
    {
        State {
            user,
            database,
            todo_lists: user_data,
            list_index: 0,
            item_index: 0,
            input_list: String::new(),
            input_item: String::new(),
            footer_meaage: String::from_str(
                "Press 1 to enter input \nPress 2 to navigate\n Press q to exit app",
            ),
            selected_list: SelectedList::Default,
            action_state: ActionState::Default,
            input_box: InputBox::Default,
        }
    }

    /// Begins a session: loads the user's lists from the store and starts in
    /// the resting mode with both cursors on the first element. The lists are
    /// what the rows that the store answered with stand for.
    pub fn new(user: User, database: TodoDatabase) -> (state: State)
        ensures
            state@ == SessionModel::initial(user@, state@.lists),
            built_from_rows(state@.lists),
            state@.wf(),
    {
        let user_data = database.load_user_data(user.get_user_id());
        State::from_loaded(user, database, user_data)
    }

    /// Takes what the selected buffer holds and leaves the buffer empty.
    pub fn get_input(&mut self) -> (input: String)
        ensures
            input@ == old(self)@.pending_input(),
            final(self)@ == old(self)@.input_taken(),
    {
        match self.input_box {
            InputBox::AddList => take_text(&mut self.input_list),
            InputBox::AddItem => take_text(&mut self.input_item),
            InputBox::Default => String::new(),
        }
    }

    /// Escape: back to the resting mode, discarding what was typed.
    pub fn defalut_state(&mut self)
        ensures
            final(self)@ == old(self)@.to_default(),
    {
        self.selected_list = SelectedList::Default;
        self.input_box = InputBox::Default;
        self.action_state = ActionState::Default;
        let _ = take_text(&mut self.input_list);
        let _ = take_text(&mut self.input_item);
        self.footer_meaage = String::from_str(
            "Press 1 to enter input. \nPress 2 to navigate.\n Press q to exit app.",
        );
    }

    /// Enters input mode with the list buffer selected.
    pub fn capture_input_state(&mut self)
        ensures
            final(self)@ == old(self)@.to_capture_input(),
    {
        self.selected_list = SelectedList::Default;
        self.input_box = InputBox::AddList;
        self.action_state = ActionState::CaptureInput;
        self.footer_meaage = String::from_str(
            "Press right or left arrow key to choose input box. \nPress enter keys and press enter to add list or item. \n Press esc return to default.",
        );
    }

    /// Enters navigation with the list cursor selected.
    pub fn navigate_state(&mut self)
        ensures
            final(self)@ == old(self)@.to_navigate(),
    {
        self.selected_list = SelectedList::List;
        self.input_box = InputBox::Default;
        self.action_state = ActionState::Navigate;
        self.footer_meaage = String::from_str(
            "Press arrow keys to navigate list \nPress enter to cross off an item. \nPress backspace/delete to remove an item or list. \nPress esc return to default.",
        );
    }

    /// Left or right arrow: switches between the two cursors, or between the
    /// two buffers.
    pub fn left_right_key(&mut self)
        ensures
            final(self)@ == old(self)@.side_switched(),
    {
        match self.action_state {
            ActionState::Navigate => match self.selected_list {
                SelectedList::List => {
                    self.selected_list = SelectedList::Items;
                },
                SelectedList::Items => {
                    self.selected_list = SelectedList::List;
                },
                SelectedList::Default => {},
            },
            ActionState::CaptureInput => match self.input_box {
                InputBox::AddList => {
                    self.input_box = InputBox::AddItem;
                },
                InputBox::AddItem => {
                    self.input_box = InputBox::AddList;
                },
                InputBox::Default => {},
            },
            ActionState::Default => {},
        }
    }

    /// Appends a typed character to the selected buffer.
    pub fn add_input(&mut self, c: char)
        ensures
            final(self)@ == old(self)@.typed(c),
    {
        match self.input_box {
            InputBox::AddList => {
                self.input_list.push(c);
            },
            InputBox::AddItem => {
                self.input_item.push(c);
            },
            InputBox::Default => {},
        }
    }

    /// Removes the last character of the selected buffer.
    pub fn remove_input(&mut self)
        ensures
            final(self)@ == old(self)@.erased(),
    {
        match self.input_box {
            InputBox::AddList => {
                erase_last(&mut self.input_list);
            },
            InputBox::AddItem => {
                erase_last(&mut self.input_item);
            },
            InputBox::Default => {},
        }
    }

    /// Whether a list name is being typed.
    pub fn input_box_list(&self) -> (selected: bool)
        ensures
            selected == (self@.action_state == ActionState::CaptureInput && self@.input_box
                == InputBox::AddList),
    {
        self.action_state == ActionState::CaptureInput && self.input_box == InputBox::AddList
    }

    /// Whether an item name is being typed.
    pub fn input_box_item(&self) -> (selected: bool)
        ensures
            selected == (self@.action_state == ActionState::CaptureInput && self@.input_box
                == InputBox::AddItem),
    {
        self.action_state == ActionState::CaptureInput && self.input_box == InputBox::AddItem
    }

    /// Whether the list cursor is the one that moves.
    pub fn list_selected(&self) -> (selected: bool)
        ensures
            selected == (self@.action_state == ActionState::Navigate && self@.selected_list
                == SelectedList::List),
    {
        self.action_state == ActionState::Navigate && self.selected_list == SelectedList::List
    }

    /// Whether the item cursor is the one that moves.
    pub fn item_selected(&self) -> (selected: bool)
        ensures
            selected == (self@.action_state == ActionState::Navigate && self@.selected_list
                == SelectedList::Items),
    {
        self.action_state == ActionState::Navigate && self.selected_list == SelectedList::Items
    }

    /// How many items the selected list holds; none if no list is selected.
    fn selected_len(&self) -> (len: usize)
        ensures
            len == self@.items().len(),
    {
        if self.list_index < self.todo_lists.len() {
            self.todo_lists[self.list_index].get_list_len()
        } else {
            0
        }
    }

    /// Pulls the item cursor into the selected list.
    fn clamp_item_cursor(&mut self)
        ensures
            final(self)@ == old(self)@.item_cursor_clamped(),
    {
        self.item_index = clamp(self.item_index, self.selected_len());
    }

    /// Down arrow: the selected cursor moves on, from the last element to the
    /// first.
    pub fn next_list_item(&mut self)
        ensures
            final(self)@ == old(self)@.cursor_next(),
            old(self)@.wf() ==> final(self)@.wf(),
    {
        match self.selected_list {
            SelectedList::List => {
                if self.todo_lists.len() > 0 {
                    self.list_index = step_forward(self.list_index, self.todo_lists.len());
                    self.clamp_item_cursor();
                }
            },
            SelectedList::Items => {
                let len = self.selected_len();
                if len > 0 {
                    self.item_index = step_forward(self.item_index, len);
                }
            },
            SelectedList::Default => {},
        }
    }

    /// Up arrow: the selected cursor moves back, from the first element to
    /// the last.
    pub fn previous_list_item(&mut self)
        ensures
            final(self)@ == old(self)@.cursor_previous(),
            old(self)@.wf() ==> final(self)@.wf(),
    {
        match self.selected_list {
            SelectedList::List => {
                if self.todo_lists.len() > 0 {
                    self.list_index = step_back(self.list_index, self.todo_lists.len());
                    self.clamp_item_cursor();
                }
            },
            SelectedList::Items => {
                let len = self.selected_len();
                if len > 0 {
                    self.item_index = step_back(self.item_index, len);
                }
            },
            SelectedList::Default => {},
        }
    }

    /// The name of the user who is logged in.
    pub fn get_username(&self) -> (username: String)
        ensures
            username@ == self@.user.username,
    {
        self.user.get_username()
    }

    /// The name of the current mode.
    pub fn get_mode(&self) -> (mode: String)
        ensures
            mode@ == mode_text(self@.action_state),
    {
        match self.action_state {
            ActionState::CaptureInput => String::from_str("Input"),
            ActionState::Navigate => String::from_str("Navigation"),
            ActionState::Default => String::from_str("Default"),
        }
    }

    /// The name of the selected list, or a note that there is none.
    pub fn get_list_name(&self) -> (name: String)
        ensures
            name@ == if self@.has_list() {
                self@.lists[self@.list_index as int].name
            } else {
                no_list_text()
            },
    {
        if self.list_index < self.todo_lists.len() {
            self.todo_lists[self.list_index].get_name()
        } else {
            String::from_str("No Active Lists")
        }
    }

    /// Appends a new, empty list to the lists in memory.
    pub fn push_list(&mut self, list_name: String, list_id: u32)
        ensures
            final(self)@ == old(self)@.list_pushed(list_name@, list_id),
            old(self)@.wf() ==> final(self)@.wf(),
    {
        self.todo_lists.push(TodoList::new(list_name, list_id));
        assert(list_models(self.todo_lists@) =~= old(self)@.lists.push(
            ListModel { name: list_name@, list_id, items: Seq::empty() },
        ));
    }

    /// Appends a new, open item to the selected list in memory and pulls the
    /// item cursor onto the items that the list then has. Without a selected
    /// list nothing happens.
    pub fn push_item(&mut self, item_name: String, item_id: u32)
        ensures
            final(self)@ == old(self)@.item_pushed(item_name@, item_id),
            old(self)@.wf() ==> final(self)@.wf(),
    {
        if self.list_index < self.todo_lists.len() {
            let _ = self.todo_lists[self.list_index].add(item_name, item_id);
            assert(list_models(self.todo_lists@) =~= old(self)@.item_pushed(item_name@, item_id).lists);
            self.item_index = clamp(self.item_index, self.selected_len());
        }
    }

    /// Shows a failure of the store in the footer. A success leaves the
    /// footer alone.
    pub fn report(&mut self, outcome: Result<(), StorageError>, text: &str)
        ensures
            final(self)@ == old(self)@.reported(outcome, text@),
    {
        if outcome.is_err() {
            self.footer_meaage = String::from_str(text);
        }
    }

    /// The confirm key in input mode: submits the selected buffer as the name
    /// of a new list or of a new item. The result says whether something was
    /// added.
    pub fn add(&mut self) -> (outcome: Result<bool, StorageError>)
        ensures
            add_post(old(self)@, final(self)@, outcome),
            old(self)@.wf() ==> final(self)@.wf(),
    {
        match self.input_box {
            InputBox::AddList => self.add_list(),
            InputBox::AddItem => self.add_item(),
            InputBox::Default => Ok(false),
        }
    }

    /// Submits the selected buffer as the name of a new list: stores the list
    /// under a fresh identifier and appends it in memory.
    pub fn add_list(&mut self) -> (outcome: Result<bool, StorageError>)
        ensures
            add_list_post(old(self)@, final(self)@, outcome),
            old(self)@.wf() ==> final(self)@.wf(),
    {
        let list_name = self.get_input();
        if list_name.as_str().is_empty() {
            return Ok(false);
        }
        match store_list(&self.database, &list_name, self.user.get_user_id()) {
            Ok(list_id) => {
                self.push_list(list_name, list_id);
                Ok(true)
            },
            Err(error) => {
                self.report(Err(error), "Storage error: the list could not be saved.");
                Err(error)
            },
        }
    }

    /// Submits the selected buffer as the name of a new item of the selected
    /// list: stores the item under a fresh identifier and appends it in
    /// memory.
    pub fn add_item(&mut self) -> (outcome: Result<bool, StorageError>)
        ensures
            add_item_post(old(self)@, final(self)@, outcome),
            old(self)@.wf() ==> final(self)@.wf(),
    {
        let item_name = self.get_input();
        if item_name.as_str().is_empty() || self.list_index >= self.todo_lists.len() {
            return Ok(false);
        }
        let list_id = self.todo_lists[self.list_index].get_list_id();
        match store_item(&self.database, &item_name, list_id) {
            Ok(item_id) => {
                self.push_item(item_name, item_id);
                Ok(true)
            },
            Err(error) => {
                self.report(Err(error), "Storage error: the item could not be saved.");
                Err(error)
            },
        }
    }

    /// Removes the selected list, and with it its items, from memory and
    /// moves the cursors as `list_removed` says. Gives the identifier of the
    /// list that the store is to forget; none if no list was selected.
    pub fn remove_selected_list(&mut self) -> (removed: Option<u32>)
        ensures
            final(self)@ == old(self)@.list_removed(),
            removed == if old(self)@.has_list() {
                Some(old(self)@.lists[old(self)@.list_index as int].list_id)
            } else {
                None
            },
            old(self)@.wf() ==> final(self)@.wf(),
    {
        let n = self.todo_lists.len();
        if self.list_index >= n {
            return None;
        }
        let list_id = self.todo_lists[self.list_index].get_list_id();
        let _ = self.todo_lists[self.list_index].delete_list_items();
        let _ = self.todo_lists.remove(self.list_index);
        assert(list_models(self.todo_lists@) =~= old(self)@.lists.remove(
            old(self)@.list_index as int,
        ));
        if self.list_index > 0 && self.list_index == n - 1 {
            self.list_index -= 1;
        }
        self.clamp_item_cursor();
        Some(list_id)
    }

    /// Removes the selected item from memory and moves the item cursor as
    /// `item_removed` says. Gives the identifiers of the item and of its
    /// list, for the store to forget the item; none if no item was selected.
    pub fn remove_selected_item(&mut self) -> (removed: Option<(u32, u32)>)
        ensures
            final(self)@ == old(self)@.item_removed(),
            removed == if old(self)@.has_item() {
                Some(
                    (
                        old(self)@.items()[old(self)@.item_index as int].item_id,
                        old(self)@.lists[old(self)@.list_index as int].list_id,
                    ),
                )
            } else {
                None
            },
            old(self)@.wf() ==> final(self)@.wf(),
    {
        let n = self.selected_len();
        if self.item_index >= n {
            return None;
        }
        let list_id = self.todo_lists[self.list_index].get_list_id();
        let item_id = self.todo_lists[self.list_index].get_item_id(self.item_index);
        let _ = self.todo_lists[self.list_index].remove_index(self.item_index);
        assert(list_models(self.todo_lists@) =~= old(self)@.item_removed().lists);
        if self.item_index > 0 && self.item_index == n - 1 {
            self.item_index -= 1;
        }
        Some((item_id, list_id))
    }

    /// Flips the completion flag of the selected item in memory, provided the
    /// item cursor is the one that moves. Gives the identifiers of the item
    /// and of its list and the flag that the store is to keep; none if no
    /// item was flipped.
    pub fn toggle_selected_item(&mut self) -> (toggled: Option<(u32, u32, u32)>)
        ensures
            final(self)@ == old(self)@.item_toggled(),
            toggled == if old(self)@.selected_list == SelectedList::Items && old(self)@.has_item() {
                Some(
                    (
                        old(self)@.items()[old(self)@.item_index as int].item_id,
                        old(self)@.lists[old(self)@.list_index as int].list_id,
                        flag_of(!old(self)@.items()[old(self)@.item_index as int].complete),
                    ),
                )
            } else {
                None
            },
            old(self)@.wf() ==> final(self)@.wf(),
    {
        if self.selected_list != SelectedList::Items || self.item_index >= self.selected_len() {
            return None;
        }
        let _ = self.todo_lists[self.list_index].set_item_complete(self.item_index);
        assert(list_models(self.todo_lists@) =~= old(self)@.item_toggled().lists);
        let item_id = self.todo_lists[self.list_index].get_item_id(self.item_index);
        let list_id = self.todo_lists[self.list_index].get_list_id();
        let flag: u32 = if self.todo_lists[self.list_index].get_item_complete_status(
            self.item_index,
        ) {
            1
        } else {
            0
        };
        Some((item_id, list_id, flag))
    }

    /// The delete key while navigating: removes the selected list or the
    /// selected item, in memory first and then from the store.
    pub fn delete(&mut self)
        ensures
            delete_post(old(self)@, final(self)@),
            old(self)@.wf() ==> final(self)@.wf(),
    {
        match self.selected_list {
            SelectedList::List => {
                self.delete_list();
            },
            SelectedList::Items => {
                self.delete_item();
            },
            SelectedList::Default => {},
        }
    }

    /// Removes the selected list and its items, in memory first and then from
    /// the store.
    pub fn delete_list(&mut self)
        ensures
            delete_list_post(old(self)@, final(self)@),
            old(self)@.wf() ==> final(self)@.wf(),
    {
        match self.remove_selected_list() {
            Some(list_id) => {
                let outcome = self.database.remove_list(list_id, self.user.get_user_id());
                self.report(outcome, "Storage error: the list could not be removed.");
            },
            None => {},
        }
    }

    /// Removes the selected item, in memory first and then from the store.
    pub fn delete_item(&mut self)
        ensures
            delete_item_post(old(self)@, final(self)@),
            old(self)@.wf() ==> final(self)@.wf(),
    {
        match self.remove_selected_item() {
            Some((item_id, list_id)) => {
                let outcome = self.database.remove_item(item_id, list_id);
                self.report(outcome, "Storage error: the item could not be removed.");
            },
            None => {},
        }
    }

    /// Checks the selected item off, or opens it again, in memory first and
    /// then in the store.
    pub fn check_off(&mut self)
        ensures
            check_off_post(old(self)@, final(self)@),
            old(self)@.wf() ==> final(self)@.wf(),
    {
        match self.toggle_selected_item() {
            Some((item_id, list_id, flag)) => {
                let outcome = self.database.update_item(item_id, list_id, flag);
                self.report(outcome, "Storage error: the item could not be updated.");
            },
            None => {},
        }
    }

    /// The confirm key while navigating: on a list it opens input mode, on an
    /// item it checks the item off.
    pub fn handel_enter(&mut self)
        ensures
            enter_post(old(self)@, final(self)@),
            old(self)@.wf() ==> final(self)@.wf(),
    {
        match self.selected_list {
            SelectedList::List => {
                self.capture_input_state();
            },
            SelectedList::Items => {
                self.check_off();
            },
            SelectedList::Default => {},
        }
    }

    /// Reacts to one key press. The result says whether the session is over:
    /// only `q` in the resting mode ends it.
    pub fn handle_key(&mut self, key: Key) -> (exit: bool)
        ensures
            key_post(old(self)@, final(self)@, key, exit),
            old(self)@.wf() ==> final(self)@.wf(),
    {
        match self.action_state {
            ActionState::Default => match key {
                Key::Esc => {
                    self.defalut_state();
                    false
                },
                Key::Char(c) => {
                    if c == '1' {
                        self.capture_input_state();
                        false
                    } else if c == '2' {
                        self.navigate_state();
                        false
                    } else {
                        c == 'q'
                    }
                },
                _ => false,
            },
            ActionState::CaptureInput => {
                match key {
                    Key::Esc => {
                        self.defalut_state();
                    },
                    Key::Char(c) => {
                        self.add_input(c);
                    },
                    Key::Backspace => {
                        self.remove_input();
                    },
                    Key::Enter => {
                        let _ = self.add();
                    },
                    Key::Left => {
                        self.left_right_key();
                    },
                    Key::Right => {
                        self.left_right_key();
                    },
                    _ => {},
                }
                false
            },
            ActionState::Navigate => {
                match key {
                    Key::Esc => {
                        self.defalut_state();
                    },
                    Key::Left => {
                        self.left_right_key();
                    },
                    Key::Right => {
                        self.left_right_key();
                    },
                    Key::Up => {
                        self.previous_list_item();
                    },
                    Key::Down => {
                        self.next_list_item();
                    },
                    Key::Backspace => {
                        self.delete();
                    },
                    Key::Enter => {
                        self.handel_enter();
                    },
                    _ => {},
                }
                false
            },
        }
    }
}

} // verus!
