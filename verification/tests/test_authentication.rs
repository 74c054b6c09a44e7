use todo_list_rust::database::{QueryUser, StorageError, TodoDatabase};
use todo_list_rust::key::Key;
use todo_list_rust::user_authentication::{Authentication, AuthenticationState, SelectedChunk};

fn store() -> TodoDatabase {
    TodoDatabase::new(String::from(":memory:")).unwrap()
}

fn fill(screen: &mut Authentication, username: &str, password: &str) {
    screen.username_input = String::from(username);
    screen.password_input = String::from(password);
}

#[test]
fn the_screen_starts_at_rest_with_nobody_logged_in() {
    let database = store();
    let screen = Authentication::new(&database);
    assert_eq!(AuthenticationState::Default, screen.authentication_state);
    assert_eq!(String::new(), screen.username_input);
    assert_eq!(String::new(), screen.password_input);
    assert_eq!(0, screen.index);
    assert_eq!(SelectedChunk::UsernameInput, screen.selected_chunk);
    assert_eq!(String::from("Create an account or login!"), screen.message);
    assert_eq!(true, screen.get_user().is_none());
}

#[test]
fn the_focus_ring_has_four_positions() {
    let database = store();
    let mut screen = Authentication::new(&database);
    screen.next_index();
    assert_eq!(1, screen.index);
    assert_eq!(SelectedChunk::PasswordInput, screen.selected_chunk);
    screen.next_index();
    assert_eq!(2, screen.index);
    assert_eq!(SelectedChunk::LoginButton, screen.selected_chunk);
    screen.next_index();
    assert_eq!(3, screen.index);
    assert_eq!(SelectedChunk::CreateAccountButton, screen.selected_chunk);
    screen.next_index();
    assert_eq!(0, screen.index);
    assert_eq!(SelectedChunk::UsernameInput, screen.selected_chunk);
    screen.previous_index();
    assert_eq!(3, screen.index);
    assert_eq!(SelectedChunk::CreateAccountButton, screen.selected_chunk);
    screen.previous_index();
    assert_eq!(2, screen.index);
    assert_eq!(SelectedChunk::LoginButton, screen.selected_chunk);
}

#[test]
fn typing_reaches_the_field_that_has_the_focus() {
    let database = store();
    let mut screen = Authentication::new(&database);
    screen.add_input('a');
    screen.add_input('l');
    screen.next_index();
    screen.add_input('p');
    screen.add_input('w');
    screen.add_input('x');
    screen.remove_input();
    assert_eq!(String::from("al"), screen.username_input);
    assert_eq!(String::from("pw"), screen.password_input);
    screen.next_index();
    screen.add_input('z');
    screen.remove_input();
    screen.next_index();
    screen.add_input('z');
    screen.remove_input();
    assert_eq!(String::from("al"), screen.username_input);
    assert_eq!(String::from("pw"), screen.password_input);
    screen.next_index();
    screen.remove_input();
    screen.remove_input();
    screen.remove_input();
    assert_eq!(String::new(), screen.username_input);
}

#[test]
fn escape_returns_to_rest_and_discards_the_fields() {
    let database = store();
    let mut screen = Authentication::new(&database);
    screen.default();
    assert_eq!(AuthenticationState::Default, screen.authentication_state);
    screen.user_input();
    assert_eq!(AuthenticationState::UserInput, screen.authentication_state);
    screen.user_input();
    assert_eq!(AuthenticationState::UserInput, screen.authentication_state);
    fill(&mut screen, "alice", "pw1");
    screen.default();
    assert_eq!(AuthenticationState::Default, screen.authentication_state);
    assert_eq!(String::new(), screen.username_input);
    assert_eq!(String::new(), screen.password_input);
}

#[test]
fn an_empty_field_is_ignored_in_silence() {
    let database = store();
    let mut screen = Authentication::new(&database);
    screen.user_input();
    fill(&mut screen, "alice", "");
    assert_eq!(Ok(()), screen.login());
    assert_eq!(String::from("Create an account or login!"), screen.message);
    assert_eq!(String::new(), screen.username_input);
    fill(&mut screen, "", "pw1");
    assert_eq!(Ok(()), screen.create_account());
    assert_eq!(String::from("Create an account or login!"), screen.message);
    assert_eq!(String::new(), screen.password_input);
    assert_eq!(AuthenticationState::UserInput, screen.authentication_state);
    assert_eq!(0, database.get_user_id("", "pw1").unwrap().len());
    assert_eq!(true, screen.get_user().is_none());
}

#[test]
fn alice_creates_an_account_and_logs_in() {
    let database = store();
    let mut screen = Authentication::new(&database);
    screen.user_input();

    fill(&mut screen, "alice", "pw1");
    assert_eq!(Ok(()), screen.create_account());
    assert_eq!(String::from("Account create for User: alice"), screen.message);
    assert_eq!(String::new(), screen.username_input);
    assert_eq!(String::new(), screen.password_input);
    assert_eq!(AuthenticationState::UserInput, screen.authentication_state);
    assert_eq!(true, screen.get_user().is_none());
    let stored = database.get_user_id("alice", "pw1").unwrap();
    assert_eq!(1, stored.len());
    assert_ne!(u32::MAX, stored[0].user_id);

    // the same username again, with another password
    fill(&mut screen, "alice", "pw2");
    assert_eq!(Err(StorageError::ConstraintViolation), screen.create_account());
    assert_eq!(
        String::from("User: alice alredy exists, pick a new username and password"),
        screen.message
    );
    assert_eq!(0, database.get_user_id("alice", "pw2").unwrap().len());
    assert_eq!(1, database.get_user_id("alice", "pw1").unwrap().len());

    // the same account again
    fill(&mut screen, "alice", "pw1");
    assert_eq!(Ok(()), screen.create_account());
    assert_eq!(
        String::from("User: alice alredy exists, pick a new username and password"),
        screen.message
    );
    assert_eq!(1, database.get_user_id("alice", "pw1").unwrap().len());

    // a wrong password
    fill(&mut screen, "alice", "wrong");
    assert_eq!(Ok(()), screen.login());
    assert_eq!(String::from("User: alice does not exist. Create an account!"), screen.message);
    assert_eq!(AuthenticationState::UserInput, screen.authentication_state);
    assert_eq!(true, screen.get_user().is_none());

    // the right one
    fill(&mut screen, "alice", "pw1");
    assert_eq!(Ok(()), screen.login());
    assert_eq!(
        String::from("User: alice Logged in! Press any key to proceed."),
        screen.message
    );
    assert_eq!(AuthenticationState::LoggedIn, screen.authentication_state);
    let user = screen.get_user().unwrap();
    assert_eq!(stored[0].user_id, user.get_user_id());
    assert_eq!(String::from("alice"), user.get_username());
    assert_eq!(String::from("pw1"), user.get_password());
}

#[test]
fn exactly_one_row_logs_in() {
    let database = store();
    let mut screen = Authentication::new(&database);
    screen.user_input();
    screen.finish_login("alice", &Vec::new());
    assert_eq!(String::from("User: alice does not exist. Create an account!"), screen.message);
    assert_eq!(AuthenticationState::UserInput, screen.authentication_state);
    assert_eq!(true, screen.get_user().is_none());

    let two = vec![
        QueryUser { user_id: 1, username: String::from("alice"), password: String::from("a") },
        QueryUser { user_id: 2, username: String::from("alice"), password: String::from("a") },
    ];
    screen.finish_login("alice", &two);
    assert_eq!(String::from("User: alice does not exist. Create an account!"), screen.message);
    assert_eq!(AuthenticationState::UserInput, screen.authentication_state);
    assert_eq!(true, screen.get_user().is_none());

    let one =
        vec![QueryUser { user_id: 5, username: String::from("alice"), password: String::from("a") }];
    screen.finish_login("alice", &one);
    assert_eq!(
        String::from("User: alice Logged in! Press any key to proceed."),
        screen.message
    );
    assert_eq!(AuthenticationState::LoggedIn, screen.authentication_state);
    let user = screen.get_user().unwrap();
    assert_eq!(5, user.get_user_id());
    assert_eq!(String::from("alice"), user.get_username());
    assert_eq!(String::from("a"), user.get_password());
}

#[test]
fn one_row_logs_in_whatever_its_identifier() {
    let database = store();
    let mut screen = Authentication::new(&database);
    let one = vec![QueryUser {
        user_id: u32::MAX,
        username: String::from("ghost"),
        password: String::from("g"),
    }];
    screen.finish_login("ghost", &one);
    assert_eq!(AuthenticationState::LoggedIn, screen.authentication_state);
    let user = screen.get_user().unwrap();
    assert_eq!(u32::MAX, user.get_user_id());
    assert_eq!(String::from("ghost"), user.get_username());
    assert_eq!(String::from("g"), user.get_password());
}

#[test]
fn a_row_found_before_creation_means_the_account_exists() {
    let database = store();
    let mut screen = Authentication::new(&database);
    screen.user_input();
    // no row: the account is free and nothing changes
    assert_eq!(true, screen.finish_lookup("alice", &Vec::new()));
    assert_eq!(String::from("Create an account or login!"), screen.message);
    // a row: the message says that the account exists
    let one = vec![QueryUser {
        user_id: 5,
        username: String::from("alice"),
        password: String::from("pw1"),
    }];
    assert_eq!(false, screen.finish_lookup("alice", &one));
    assert_eq!(
        String::from("User: alice alredy exists, pick a new username and password"),
        screen.message
    );
    assert_eq!(AuthenticationState::UserInput, screen.authentication_state);
    assert_eq!(true, screen.get_user().is_none());
    assert_eq!(0, database.get_user_id("alice", "pw1").unwrap().len());
}

#[test]
fn the_outcome_of_storing_an_account_decides_the_message() {
    let database = store();
    let mut screen = Authentication::new(&database);
    assert_eq!(Err(StorageError::Other), screen.finish_create_account("bob", Err(StorageError::Other)));
    assert_eq!(String::from("Create an account or login!"), screen.message);
    assert_eq!(
        Err(StorageError::ConstraintViolation),
        screen.finish_create_account("bob", Err(StorageError::ConstraintViolation))
    );
    assert_eq!(
        String::from("User: bob alredy exists, pick a new username and password"),
        screen.message
    );
    assert_eq!(Ok(()), screen.finish_create_account("bob", Ok(17)));
    assert_eq!(String::from("Account create for User: bob"), screen.message);
    assert_eq!(true, screen.get_user().is_none());
}

#[test]
fn enter_runs_the_button_that_has_the_focus() {
    let database = store();
    let mut screen = Authentication::new(&database);
    screen.user_input();
    fill(&mut screen, "alice", "pw1");
    // on a field nothing happens
    assert_eq!(Ok(()), screen.process_enter());
    assert_eq!(String::from("alice"), screen.username_input);
    screen.next_index();
    assert_eq!(Ok(()), screen.process_enter());
    assert_eq!(String::from("pw1"), screen.password_input);
    assert_eq!(String::from("Create an account or login!"), screen.message);
    // on the login button
    screen.next_index();
    assert_eq!(Ok(()), screen.process_enter());
    assert_eq!(String::from("User: alice does not exist. Create an account!"), screen.message);
    // on the button that creates an account
    screen.next_index();
    fill(&mut screen, "alice", "pw1");
    assert_eq!(Ok(()), screen.process_enter());
    assert_eq!(String::from("Account create for User: alice"), screen.message);
    assert_eq!(1, database.get_user_id("alice", "pw1").unwrap().len());
}

#[test]
fn keys_drive_the_login_screen() {
    let database = store();
    let mut screen = Authentication::new(&database);
    // at rest only '1' and 'q' mean something
    assert_eq!(Ok(false), screen.handle_key(Key::Char('x')));
    assert_eq!(Ok(false), screen.handle_key(Key::Enter));
    assert_eq!(Ok(false), screen.handle_key(Key::Down));
    assert_eq!(0, screen.index);
    assert_eq!(String::new(), screen.username_input);
    assert_eq!(Ok(false), screen.handle_key(Key::Char('1')));
    assert_eq!(AuthenticationState::UserInput, screen.authentication_state);

    for c in "bob".chars() {
        assert_eq!(Ok(false), screen.handle_key(Key::Char(c)));
    }
    assert_eq!(Ok(false), screen.handle_key(Key::Char('q')));
    assert_eq!(Ok(false), screen.handle_key(Key::Backspace));
    assert_eq!(Ok(false), screen.handle_key(Key::Down));
    for c in "pw".chars() {
        assert_eq!(Ok(false), screen.handle_key(Key::Char(c)));
    }
    assert_eq!(String::from("bob"), screen.username_input);
    assert_eq!(String::from("pw"), screen.password_input);
    assert_eq!(Ok(false), screen.handle_key(Key::Left));
    assert_eq!(Ok(false), screen.handle_key(Key::Other));
    assert_eq!(1, screen.index);

    // up twice: username, then the button that creates an account
    assert_eq!(Ok(false), screen.handle_key(Key::Up));
    assert_eq!(Ok(false), screen.handle_key(Key::Up));
    assert_eq!(SelectedChunk::CreateAccountButton, screen.selected_chunk);
    assert_eq!(Ok(false), screen.handle_key(Key::Enter));
    assert_eq!(String::from("Account create for User: bob"), screen.message);

    // log in
    assert_eq!(Ok(false), screen.handle_key(Key::Down));
    for c in "bob".chars() {
        assert_eq!(Ok(false), screen.handle_key(Key::Char(c)));
    }
    assert_eq!(Ok(false), screen.handle_key(Key::Down));
    for c in "pw".chars() {
        assert_eq!(Ok(false), screen.handle_key(Key::Char(c)));
    }
    assert_eq!(Ok(false), screen.handle_key(Key::Down));
    assert_eq!(SelectedChunk::LoginButton, screen.selected_chunk);
    assert_eq!(Ok(false), screen.handle_key(Key::Enter));
    assert_eq!(AuthenticationState::LoggedIn, screen.authentication_state);
    // any key ends the screen now
    assert_eq!(Ok(true), screen.handle_key(Key::Other));
    assert_eq!(String::from("bob"), screen.get_user().unwrap().get_username());
}

#[test]
fn q_leaves_the_screen_without_an_identity() {
    let database = store();
    let mut screen = Authentication::new(&database);
    assert_eq!(Ok(true), screen.handle_key(Key::Char('q')));
    assert_eq!(true, screen.get_user().is_none());
    assert_eq!(Ok(false), screen.handle_key(Key::Char('1')));
    assert_eq!(Ok(false), screen.handle_key(Key::Esc));
    assert_eq!(AuthenticationState::Default, screen.authentication_state);
    assert_eq!(Ok(true), screen.handle_key(Key::Char('q')));
}
