//! The login screen: two input fields and two buttons on a focus ring, and
//! the two actions behind the buttons.

use vstd::prelude::*;
use crate::cursor::{next_index, previous_index};
use crate::database::{user_rows, QueryUser, StorageError, TodoDatabase, UserRow};
use crate::identifier::{is_offered, next_step, random_id, Step, MAX_ATTEMPTS, NO_ID};
use crate::key::Key;
use crate::text::{erase_last, take_text, without_last};
use crate::user::{User, UserModel};

verus! {

/// Where the login screen stands.
#[derive(Clone, Copy, Debug, PartialEq, Eq, Structural)]
pub enum AuthenticationState {
    /// Nothing is being entered; the screen can be left.
    Default,
    /// The fields and buttons react to keys.
    UserInput,
    /// A login succeeded; the session takes over.
    LoggedIn,
}

/// The four positions of the focus ring, in order.
#[derive(Clone, Copy, Debug, PartialEq, Eq, Structural)]
pub enum SelectedChunk {
    UsernameInput,
    PasswordInput,
    LoginButton,
    CreateAccountButton,
}

/// How many positions the focus ring has.
pub const FOCUS_POSITIONS: u32 = 4;

/// The login screen as a mathematical value.
pub struct AuthModel {
    pub state: AuthenticationState,
    pub username_input: Seq<char>,
    pub password_input: Seq<char>,
    pub index: u32,
    pub selected_chunk: SelectedChunk,
    pub message: Seq<char>,
    /// The account that logged in, once one has.
    pub identity: Option<UserModel>,
}

/// The position of the focus ring with the given index. An index outside the
/// ring leaves the focus where it is.
pub open spec fn chunk_at(index: u32, current: SelectedChunk) -> SelectedChunk {
    if index == 0 {
        SelectedChunk::UsernameInput
    } else if index == 1 {
        SelectedChunk::PasswordInput
    } else if index == 2 {
        SelectedChunk::LoginButton
    } else if index == 3 {
        SelectedChunk::CreateAccountButton
    } else {
        current
    }
}

/// The account that a row of `users` stands for.
pub open spec fn user_of_row(row: UserRow) -> UserModel {
    UserModel { user_id: row.user_id, username: row.username, password: row.password }
}

/// What creating an account returns for the outcome of storing it.
pub open spec fn outcome_of(stored: Result<u32, StorageError>) -> Result<(), StorageError> {
    match stored {
        Ok(_) => Ok(()),
        Err(error) => Err(error),
    }
}

pub open spec fn welcome_text() -> Seq<char> {
    "Create an account or login!"@
}

pub open spec fn logged_in_text(username: Seq<char>) -> Seq<char> {
    "User: "@ + username + " Logged in! Press any key to proceed."@
}

pub open spec fn not_found_text(username: Seq<char>) -> Seq<char> {
    "User: "@ + username + " does not exist. Create an account!"@
}

pub open spec fn created_text(username: Seq<char>) -> Seq<char> {
    "Account create for User: "@ + username
}

pub open spec fn exists_text(username: Seq<char>) -> Seq<char> {
    "User: "@ + username + " alredy exists, pick a new username and password"@
}

impl AuthModel {
    /// The screen as it is first shown.
    pub open spec fn initial() -> AuthModel {
        AuthModel {
            state: AuthenticationState::Default,
            username_input: Seq::empty(),
            password_input: Seq::empty(),
            index: 0,
            selected_chunk: SelectedChunk::UsernameInput,
            message: welcome_text(),
            identity: None,
        }
    }

    /// Whether a submission is ignored because a field is empty.
    pub open spec fn incomplete(self) -> bool {
        self.username_input.len() == 0 || self.password_input.len() == 0
    }

    /// Both fields emptied.
    pub open spec fn drained(self) -> AuthModel {
        AuthModel { username_input: Seq::empty(), password_input: Seq::empty(), ..self }
    }

    /// The focus moved to the index given.
    pub open spec fn focused(self, index: u32) -> AuthModel {
        AuthModel { index, selected_chunk: chunk_at(index, self.selected_chunk), ..self }
    }

    /// The focus one position further down the ring.
    pub open spec fn focus_next(self) -> AuthModel {
        self.focused(next_index(self.index as int, FOCUS_POSITIONS as int) as u32)
    }

    /// The focus one position further up the ring.
    pub open spec fn focus_previous(self) -> AuthModel {
        self.focused(previous_index(self.index as int, FOCUS_POSITIONS as int) as u32)
    }

    /// A character typed: it goes to the field that has the focus, and
    /// nowhere if a button has it.
    pub open spec fn typed(self, c: char) -> AuthModel {
        match self.selected_chunk {
            SelectedChunk::UsernameInput => AuthModel {
                username_input: self.username_input.push(c),
                ..self
            },
            SelectedChunk::PasswordInput => AuthModel {
                password_input: self.password_input.push(c),
                ..self
            },
            _ => self,
        }
    }

    /// Backspace: the field that has the focus loses its last character.
    pub open spec fn erased(self) -> AuthModel {
        match self.selected_chunk {
            SelectedChunk::UsernameInput => AuthModel {
                username_input: without_last(self.username_input),
                ..self
            },
            SelectedChunk::PasswordInput => AuthModel {
                password_input: without_last(self.password_input),
                ..self
            },
            _ => self,
        }
    }

    /// Input begins: only from the resting state.
    pub open spec fn entered(self) -> AuthModel {
        if self.state == AuthenticationState::Default {
            AuthModel { state: AuthenticationState::UserInput, ..self }
        } else {
            self
        }
    }

    /// Input is abandoned: back to the resting state, both fields
    /// discarded.
    pub open spec fn left(self) -> AuthModel {
        if self.state == AuthenticationState::UserInput {
            AuthModel { state: AuthenticationState::Default, ..self.drained() }
        } else {
            self
        }
    }

    /// The screen after the store answered a login for `username` with the
    /// rows `found`: exactly one row logs that account in, any other number
    /// logs nobody in.
    pub open spec fn login_answered(self, username: Seq<char>, found: Seq<UserRow>) -> AuthModel {
        if found.len() == 1 {
            AuthModel {
                identity: Some(user_of_row(found[0])),
                state: AuthenticationState::LoggedIn,
                message: logged_in_text(username),
                ..self
            }
        } else {
            AuthModel { message: not_found_text(username), ..self }
        }
    }

    /// The screen after the store answered the lookup that comes before an
    /// account is created, with the rows `found`: if there is a row, the
    /// account exists already and the message says so; if there is none,
    /// nothing changes and the account can be stored.
    pub open spec fn lookup_answered(self, username: Seq<char>, found: Seq<UserRow>) -> AuthModel {
        if found.len() == 0 {
            self
        } else {
            AuthModel { message: exists_text(username), ..self }
        }
    }

    /// The screen after an attempt to store a new account for `username`.
    pub open spec fn account_answered(
        self,
        username: Seq<char>,
        stored: Result<u32, StorageError>,
    ) -> AuthModel {
        match stored {
            Ok(_) => AuthModel { message: created_text(username), ..self },
            Err(StorageError::ConstraintViolation) => AuthModel {
                message: exists_text(username),
                ..self
            },
            Err(StorageError::Other) => self,
        }
    }
}

/// What a login leaves behind, whatever the store answered.
///
/// Both fields are emptied in any case. With an empty field nothing else
/// happens and the login succeeds trivially. Otherwise the store is asked: if
/// it fails, nothing else changes and its error is returned; if it answers,
/// the screen is the one that `login_answered` gives for the rows it found.
pub open spec fn login_post(pre: AuthModel, post: AuthModel, outcome: Result<(), StorageError>) -> bool {
    if pre.incomplete() {
        outcome is Ok && post == pre.drained()
    } else {
        match outcome {
            Ok(()) => exists|found: Seq<UserRow>|
                post == pre.drained().login_answered(pre.username_input, found),
            Err(_) => post == pre.drained(),
        }
    }
}

/// What an attempt to create an account leaves behind, whatever the store
/// answered.
///
/// Both fields are emptied in any case. With an empty field nothing else
/// happens. Otherwise the store is asked for an account with these
/// credentials. If the lookup fails, nothing else changes. If it finds a
/// row, the screen is the one that `lookup_answered` gives and nothing is
/// stored. If it finds none, the account is stored under a fresh identifier,
/// and the screen and the result are the ones that `account_answered` and
/// `outcome_of` give for the outcome of that.
pub open spec fn create_account_post(
    pre: AuthModel,
    post: AuthModel,
    outcome: Result<(), StorageError>,
) -> bool {
    let base = pre.drained();
    let username = pre.username_input;
    if pre.incomplete() {
        outcome is Ok && post == base
    } else {
        ||| outcome == Err::<(), StorageError>(StorageError::Other) && post == base
        ||| exists|found: Seq<UserRow>|
            found.len() > 0 && outcome == Ok::<(), StorageError>(()) && post
                == base.lookup_answered(username, found)
        ||| exists|stored: Result<u32, StorageError>|
            (stored matches Ok(user_id) ==> user_id != NO_ID) && outcome == outcome_of(stored)
                && post == base.account_answered(username, stored)
    }
}

/// What the confirm key leaves behind: the action of the button that has the
/// focus, and nothing while a field has it.
pub open spec fn enter_post(pre: AuthModel, post: AuthModel, outcome: Result<(), StorageError>) -> bool {
    match pre.selected_chunk {
        SelectedChunk::LoginButton => login_post(pre, post, outcome),
        SelectedChunk::CreateAccountButton => create_account_post(pre, post, outcome),
        _ => outcome is Ok && post == pre,
    }
}

/// What one key press leaves behind, and whether it ends the login screen.
pub open spec fn key_post(
    pre: AuthModel,
    post: AuthModel,
    key: Key,
    outcome: Result<bool, StorageError>,
) -> bool {
    match pre.state {
        AuthenticationState::Default => match key {
            Key::Char(c) => if c == '1' {
                outcome == Ok::<bool, StorageError>(false) && post == pre.entered()
            } else {
                outcome == Ok::<bool, StorageError>(c == 'q') && post == pre
            },
            _ => outcome == Ok::<bool, StorageError>(false) && post == pre,
        },
        AuthenticationState::UserInput => match key {
            Key::Up => outcome == Ok::<bool, StorageError>(false) && post == pre.focus_previous(),
            Key::Down => outcome == Ok::<bool, StorageError>(false) && post == pre.focus_next(),
            Key::Enter => match outcome {
                Ok(done) => !done && enter_post(pre, post, Ok(())),
                Err(error) => enter_post(pre, post, Err(error)),
            },
            Key::Char(c) => outcome == Ok::<bool, StorageError>(false) && post == pre.typed(c),
            Key::Backspace => outcome == Ok::<bool, StorageError>(false) && post == pre.erased(),
            Key::Esc => outcome == Ok::<bool, StorageError>(false) && post == pre.left(),
            _ => outcome == Ok::<bool, StorageError>(false) && post == pre,
        },
        AuthenticationState::LoggedIn => outcome == Ok::<bool, StorageError>(true) && post == pre,
    }
}

fn logged_in_message(username: &str) -> (message: String)
    ensures
        message@ == logged_in_text(username@),
{
    String::from_str("User: ").concat(username).concat(" Logged in! Press any key to proceed.")
}

fn not_found_message(username: &str) -> (message: String)
    ensures
        message@ == not_found_text(username@),
{
    String::from_str("User: ").concat(username).concat(" does not exist. Create an account!")
}

fn created_message(username: &str) -> (message: String)
    ensures
        message@ == created_text(username@),
{
    String::from_str("Account create for User: ").concat(username)
}

fn exists_message(username: &str) -> (message: String)
    ensures
        message@ == exists_text(username@),
{
    String::from_str("User: ").concat(username).concat(
        " alredy exists, pick a new username and password",
    )
}

/// The login screen and the store it checks credentials against.
pub struct Authentication<'a> {
    pub authentication_state: AuthenticationState,
    pub username_input: String,
    pub password_input: String,
    pub index: u32,
    pub database: &'a TodoDatabase,
    pub selected_chunk: SelectedChunk,
    pub message: String,
    /// The account that logged in, once one has.
    pub identity: Option<User>,
}

impl<'a> View for Authentication<'a> {
    type V = AuthModel;

    open spec fn view(&self) -> AuthModel {
        AuthModel {
            state: self.authentication_state,
            username_input: self.username_input@,
            password_input: self.password_input@,
            index: self.index,
            selected_chunk: self.selected_chunk,
            message: self.message@,
            identity: match self.identity {
                Some(user) => Some(user@),
                None => None,
            },
        }
    }
}

impl<'a> Authentication<'a> {
    /// The screen as it is first shown, with nobody logged in.
    pub fn new(database: &'a TodoDatabase) -> (screen: Authentication<'a>)
        ensures
            screen@ == AuthModel::initial(),
    {
        Authentication {
            authentication_state: AuthenticationState::Default,
            username_input: String::new(),
            password_input: String::new(),
            message: String::from_str("Create an account or login!"),
            index: 0,
            database,
            selected_chunk: SelectedChunk::UsernameInput,
            identity: None,
        }
    }

    /// Submits both fields as credentials of an existing account.
    pub fn login(&mut self) -> (outcome: Result<(), StorageError>)
        ensures
            login_post(old(self)@, final(self)@, outcome),
    {
        let username = take_text(&mut self.username_input);
        let password = take_text(&mut self.password_input);
        if username.as_str().is_empty() || password.as_str().is_empty() {
            return Ok(());
        }
        match self.database.get_user_id(username.as_str(), password.as_str()) {
            Ok(found) => {
                self.finish_login(username.as_str(), &found);
                Ok(())
            },
            Err(error) => Err(error),
        }
    }

    /// Takes the store's answer to a login for `username`: exactly one row
    /// logs that account in; any other number leaves the screen where it is
    /// and says that there is no such user.
    pub fn finish_login(&mut self, username: &str, found: &Vec<QueryUser>)
        ensures
            final(self)@ == old(self)@.login_answered(username@, user_rows(found@)),
    {
        if found.len() == 1 {
            self.identity = Some(
                User::new(found[0].user_id, found[0].username.clone(), found[0].password.clone()),
            );
            self.authentication_state = AuthenticationState::LoggedIn;
            self.message = logged_in_message(username);
        } else {
            self.message = not_found_message(username);
        }
    }

    /// Submits both fields as credentials of a new account.
    pub fn create_account(&mut self) -> (outcome: Result<(), StorageError>)
        ensures
            create_account_post(old(self)@, final(self)@, outcome),
    {
        let username = take_text(&mut self.username_input);
        let password = take_text(&mut self.password_input);
        if username.as_str().is_empty() || password.as_str().is_empty() {
            return Ok(());
        }
        match self.database.get_user_id(username.as_str(), password.as_str()) {
            Ok(found) => {
                if self.finish_lookup(username.as_str(), &found) {
                    let stored = self.store_account(username.as_str(), password.as_str());
                    self.finish_create_account(username.as_str(), stored)
                } else {
                    assert(user_rows(found@).len() > 0);
                    Ok(())
                }
            },
            // A lookup inserts nothing: whatever it reports, it is no
            // collision.
            Err(_) => Err(StorageError::Other),
        }
    }

    /// Takes the store's answer to the lookup that comes before an account is
    /// created, and says whether the account can be stored: it can if no row
    /// was found. If a row was found the account exists already, the message
    /// says so and nothing is to be stored.
    pub fn finish_lookup(&mut self, username: &str, found: &Vec<QueryUser>) -> (free: bool)
        ensures
            free == (found@.len() == 0),
            final(self)@ == old(self)@.lookup_answered(username@, user_rows(found@)),
    {
        if found.len() == 0 {
            true
        } else {
            self.message = exists_message(username);
            false
        }
    }

    /// Draws identifiers until the store accepts the account under one of
    /// them, and gives that identifier. What follows each candidate is
    /// decided by `next_step`.
    fn store_account(&self, username: &str, password: &str) -> (stored: Result<u32, StorageError>)
        ensures
            stored matches Ok(user_id) ==> user_id != NO_ID,
    {
        let mut attempts: usize = 0;
        loop
            invariant
                attempts < MAX_ATTEMPTS,
            decreases MAX_ATTEMPTS - attempts,
        {
            let candidate = random_id();
            let answer = if is_offered(candidate) {
                Some(self.database.create_user_account(username, password, candidate))
            } else {
                None
            };
            match next_step(attempts, candidate, answer) {
                Step::Stored(user_id) => {
                    return Ok(user_id);
                },
                Step::Again => {
                    attempts += 1;
                },
                Step::Failed(error) => {
                    return Err(error);
                },
            }
        }
    }

    /// Takes the outcome of storing a new account for `username`: success is
    /// announced; a constraint that no candidate got past means that the
    /// username is taken, and the message says so; any other failure is passed
    /// on untouched.
    pub fn finish_create_account(&mut self, username: &str, stored: Result<u32, StorageError>) -> (outcome:
        Result<(), StorageError>)
        ensures
            final(self)@ == old(self)@.account_answered(username@, stored),
            outcome == outcome_of(stored),
    {
        match stored {
            Ok(_) => {
                self.message = created_message(username);
                Ok(())
            },
            Err(StorageError::ConstraintViolation) => {
                self.message = exists_message(username);
                Err(StorageError::ConstraintViolation)
            },
            Err(StorageError::Other) => Err(StorageError::Other),
        }
    }

    /// Moves the focus one position down the ring, from the last to the
    /// first.
    pub fn next_index(&mut self)
        ensures
            final(self)@ == old(self)@.focus_next(),
    {
        if self.index < FOCUS_POSITIONS - 1 {
            self.index += 1;
        } else {
            self.index = 0;
        }
        self.selected_box();
    }

    /// Moves the focus one position up the ring, from the first to the last.
    pub fn previous_index(&mut self)
        ensures
            final(self)@ == old(self)@.focus_previous(),
    {
        if 0 < self.index && self.index < FOCUS_POSITIONS {
            self.index -= 1;
        } else {
            self.index = FOCUS_POSITIONS - 1;
        }
        self.selected_box();
    }

    /// The confirm key: runs the action of the button that has the focus.
    pub fn process_enter(&mut self) -> (outcome: Result<(), StorageError>)
        ensures
            enter_post(old(self)@, final(self)@, outcome),
    {
        match self.selected_chunk {
            SelectedChunk::LoginButton => self.login(),
            SelectedChunk::CreateAccountButton => self.create_account(),
            _ => Ok(()),
        }
    }

    /// Appends a typed character to the field that has the focus.
    pub fn add_input(&mut self, c: char)
        ensures
            final(self)@ == old(self)@.typed(c),
    {
        match self.selected_chunk {
            SelectedChunk::UsernameInput => {
                self.username_input.push(c);
            },
            SelectedChunk::PasswordInput => {
                self.password_input.push(c);
            },
            _ => {},
        }
    }

    /// Removes the last character of the field that has the focus.
    pub fn remove_input(&mut self)
        ensures
            final(self)@ == old(self)@.erased(),
    {
        match self.selected_chunk {
            SelectedChunk::UsernameInput => {
                erase_last(&mut self.username_input);
            },
            SelectedChunk::PasswordInput => {
                erase_last(&mut self.password_input);
            },
            _ => {},
        }
    }

    /// Brings the focus in line with the index.
    fn selected_box(&mut self)
        ensures
            final(self)@ == old(self)@.focused(old(self)@.index),
    {
        if self.index == 0 {
            self.selected_chunk = SelectedChunk::UsernameInput;
        } else if self.index == 1 {
            self.selected_chunk = SelectedChunk::PasswordInput;
        } else if self.index == 2 {
            self.selected_chunk = SelectedChunk::LoginButton;
        } else if self.index == 3 {
            self.selected_chunk = SelectedChunk::CreateAccountButton;
        }
    }

    /// Starts input, from the resting state only.
    pub fn user_input(&mut self)
        ensures
            final(self)@ == old(self)@.entered(),
    {
        match self.authentication_state {
            AuthenticationState::Default => {
                self.authentication_state = AuthenticationState::UserInput;
            },
            _ => {},
        }
    }

    /// Abandons input and discards what was typed.
    pub fn default(&mut self)
        ensures
            final(self)@ == old(self)@.left(),
    {
        match self.authentication_state {
            AuthenticationState::UserInput => {
                self.authentication_state = AuthenticationState::Default;
                let _ = take_text(&mut self.username_input);
                let _ = take_text(&mut self.password_input);
            },
            _ => {},
        }
    }

    /// The account that logged in, if one has.
    pub fn get_user(&self) -> (user: Option<User>)
        ensures
            match user {
                Some(user) => self@.identity == Some(user@),
                None => self@.identity is None,
            },
    {
        match &self.identity {
            Some(user) => Some(
                User::new(user.get_user_id(), user.get_username(), user.get_password()),
            ),
            None => None,
        }
    }

    /// Reacts to one key press. The result says whether the login screen is
    /// done: left with `q` from the resting state, or any key after a login.
    pub fn handle_key(&mut self, key: Key) -> (outcome: Result<bool, StorageError>)
        ensures
            key_post(old(self)@, final(self)@, key, outcome),
    {
        match self.authentication_state {
            AuthenticationState::Default => match key {
                Key::Char(c) => {
                    if c == '1' {
                        self.user_input();
                        Ok(false)
                    } else {
                        Ok(c == 'q')
                    }
                },
                _ => Ok(false),
            },
            AuthenticationState::UserInput => match key {
                Key::Up => {
                    self.previous_index();
                    Ok(false)
                },
                Key::Down => {
                    self.next_index();
                    Ok(false)
                },
                Key::Enter => match self.process_enter() {
                    Ok(()) => Ok(false),
                    Err(error) => Err(error),
                },
                Key::Char(c) => {
                    self.add_input(c);
                    Ok(false)
                },
                Key::Backspace => {
                    self.remove_input();
                    Ok(false)
                },
                Key::Esc => {
                    self.default();
                    Ok(false)
                },
                _ => Ok(false),
            },
            AuthenticationState::LoggedIn => Ok(true),
        }
    }
}

/// The focus ring wraps around: from any of its four positions, four steps
/// down lead back to it, and so do four steps up; one step up from the first
/// position leads to the last.
pub proof fn lemma_focus_ring_wraps(screen: AuthModel)
    requires
        screen.index < FOCUS_POSITIONS,
    ensures
        screen.focus_next().focus_next().focus_next().focus_next() == screen.focused(screen.index),
        screen.focus_previous().focus_previous().focus_previous().focus_previous()
            == screen.focused(screen.index),
        screen.index == 0 ==> screen.focus_previous().index == FOCUS_POSITIONS - 1,
        screen.focus_previous().focus_next() == screen.focused(screen.index),
{
}

} // verus!
