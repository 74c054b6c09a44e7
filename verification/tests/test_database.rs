use todo_list_rust::database::{QueryItems, QueryLists, StorageError, TodoDatabase};
use todo_list_rust::todo::TodoList;

fn open(file_path: &str) -> TodoDatabase {
    match TodoDatabase::new(String::from(file_path)) {
        Ok(database) => database,
        Err(err) => panic!("Cound not open database: {:?}", err),
    }
}

#[test]
fn test_all() {
    let test_db = open(":memory:");
    println!("Test: test_user_create_remove...");
    test_user_create_remove(&test_db);
    println!("Pass");
    println!("Test: test_list_items_insert...");
    test_list_items_insert(&test_db);
    println!("Pass");

    match test_db.close_connection() {
        Err(err) => {
            panic!("{:?}", err);
        }
        Ok(()) => {}
    }
}

fn test_user_create_remove(test_db: &TodoDatabase) {
    // Add a user
    match test_db.create_user_account("user_one", "pass", 1) {
        Err(err) => {
            panic!("{:?}", err);
        }
        Ok(()) => {}
    };

    // Username UNIQUE ConstraintViolation
    match test_db.create_user_account("user_one", "pass", 2) {
        Err(err) => {
            assert_eq!(err, StorageError::ConstraintViolation);
        }
        Ok(()) => {
            panic!("Added user with duplicate username")
        }
    };

    // User_Id UNIQUE ConstraintViolation
    match test_db.create_user_account("user_two", "pass", 1) {
        Err(err) => {
            assert_eq!(err, StorageError::ConstraintViolation);
        }
        Ok(()) => {
            panic!("Added user with duplicate user_id")
        }
    };

    // Get user in database
    match test_db.get_user_id("user_one", "pass") {
        Err(err) => {
            panic!("{:?}", err)
        }
        Ok(result) => {
            assert_eq!(1, result.len());
        }
    };

    // Get non existant user in database
    match test_db.get_user_id("no_user", "user_not_in_db") {
        Err(err) => {
            panic!("{:?}", err)
        }
        Ok(result) => {
            assert_eq!(0, result.len());
        }
    };

    //Remove user
    match test_db.remove_user(1) {
        Err(err) => {
            panic!("{:?}", err)
        }
        Ok(()) => {}
    };

    match test_db.get_user_id("user_one", "pass") {
        Err(err) => {
            panic!("{:?}", err)
        }
        Ok(result) => {
            assert_eq!(0, result.len());
        }
    };
}

fn test_list_items_insert(_test_db: &TodoDatabase) {
    let test_db = open(":memory:");

    // User_Id UNIQUE ConstraintViolation
    match test_db.create_user_account("list_items_user", "pass", 2) {
        Err(err) => {
            assert_eq!(err, StorageError::ConstraintViolation);
        }
        _ => {}
    };

    // create list and items
    for list_id in 0..10 {
        match test_db.insert_into_list(String::from("list") + &list_id.to_string(), list_id, 2) {
            Err(err) => {
                panic!("{:?}", err)
            }
            Ok(()) => {}
        };
        for item_id in 0..10 {
            match test_db.insert_into_items(
                String::from("item") + &item_id.to_string(),
                item_id + (list_id * 100),
                list_id,
                0,
            ) {
                Err(err) => {
                    panic!("{:?}", err)
                }
                Ok(()) => {}
            };
        }
    }

    // Check all lists were inserted
    let all_todos: Vec<TodoList> = test_db.load_user_data(2);
    assert_eq!(10, all_todos.len());

    //check all items were inserted
    for todo_list in all_todos {
        assert_eq!(10, todo_list.list.len());
        // remove an item
        let _ = test_db.remove_item(todo_list.get_item_id(0), todo_list.get_list_id());
    }

    // remove a list
    match test_db.remove_list(0, 2) {
        Err(err) => {
            panic!("{:?}", err)
        }
        Ok(()) => {}
    };

    let all_todos_after_remove: Vec<TodoList> = test_db.load_user_data(2);
    assert_eq!(9, all_todos_after_remove.len());

    for todo_list in &all_todos_after_remove {
        assert_eq!(9, todo_list.list.len());
        // complete off items
        for item_index in 0..todo_list.get_list_len() {
            let _ = test_db.update_item(
                todo_list.get_item_id(item_index),
                todo_list.get_list_id(),
                1,
            );
        }
    }
    // check items were complete
    let all_todos_after_check_off: Vec<TodoList> = test_db.load_user_data(2);
    for todo_list in &all_todos_after_check_off {
        for item_index in 0..todo_list.get_list_len() {
            assert_eq!(true, todo_list.get_item_complete_status(item_index));
        }
    }

    // remove list and items
    for i in 0..10 {
        match test_db.remove_list(i, 2) {
            Err(err) => {
                panic!("{:?}", err)
            }
            Ok(()) => {}
        };
    }

    //Remove user
    match test_db.remove_user(2) {
        Err(err) => {
            panic!("{:?}", err)
        }
        Ok(()) => {}
    };
    let user_removed: Vec<TodoList> = test_db.load_user_data(2);
    assert_eq!(0, user_removed.len());
}

#[test]
fn build_db_may_run_again() {
    let database = open(":memory:");
    assert_eq!(Ok(()), database.build_db());
    assert_eq!(Ok(()), database.create_user_account("alice", "pw1", 1));
    assert_eq!(Ok(()), database.build_db());
    assert_eq!(1, database.get_user_id("alice", "pw1").unwrap().len());
}

#[test]
fn a_file_that_cannot_be_opened_is_no_constraint_violation() {
    match TodoDatabase::new(String::from("/no/such/directory/at/all/data.db")) {
        Ok(_) => panic!("opened a database below a directory that does not exist"),
        Err(err) => assert_eq!(err, StorageError::Other),
    }
}

#[test]
fn duplicate_identifiers_are_constraint_violations() {
    let database = open(":memory:");
    assert_eq!(Ok(()), database.insert_into_list(String::from("a"), 5, 1));
    assert_eq!(
        Err(StorageError::ConstraintViolation),
        database.insert_into_list(String::from("b"), 5, 1)
    );
    assert_eq!(
        Err(StorageError::ConstraintViolation),
        database.insert_into_list(String::from("b"), 5, 2)
    );
    assert_eq!(Ok(()), database.insert_into_items(String::from("x"), 9, 5, 0));
    assert_eq!(
        Err(StorageError::ConstraintViolation),
        database.insert_into_items(String::from("y"), 9, 5, 0)
    );
    // the rows that were refused are not there
    let lists: Vec<QueryLists> = database.get_user_lists(1).unwrap();
    assert_eq!(1, lists.len());
    assert_eq!(String::from("a"), lists[0].list_name);
    assert_eq!(5, lists[0].list_id);
    assert_eq!(1, lists[0].user_id);
    assert_eq!(0, database.get_user_lists(2).unwrap().len());
    let items: Vec<QueryItems> = database.get_list_items(5).unwrap();
    assert_eq!(1, items.len());
    assert_eq!(String::from("x"), items[0].item_name);
    assert_eq!(9, items[0].item_id);
    assert_eq!(5, items[0].list_id);
    assert_eq!(0, items[0].complete);
    // once the row is gone its identifier is free again
    assert_eq!(Ok(()), database.remove_list(5, 1));
    assert_eq!(Ok(()), database.insert_into_list(String::from("b"), 5, 1));
    assert_eq!(Ok(()), database.insert_into_items(String::from("y"), 9, 5, 1));
}

#[test]
fn removing_a_list_removes_its_items() {
    let database = open(":memory:");
    assert_eq!(Ok(()), database.insert_into_list(String::from("first"), 1, 7));
    assert_eq!(Ok(()), database.insert_into_list(String::from("second"), 2, 7));
    assert_eq!(Ok(()), database.insert_into_items(String::from("a"), 10, 1, 0));
    assert_eq!(Ok(()), database.insert_into_items(String::from("b"), 11, 1, 1));
    assert_eq!(Ok(()), database.insert_into_items(String::from("c"), 12, 2, 0));
    assert_eq!(2, database.get_list_items(1).unwrap().len());

    assert_eq!(Ok(()), database.remove_list(1, 7));

    assert_eq!(0, database.get_list_items(1).unwrap().len());
    assert_eq!(1, database.get_list_items(2).unwrap().len());
    let left = database.load_user_data(7);
    assert_eq!(1, left.len());
    assert_eq!(String::from("second"), left[0].get_name());
    assert_eq!(2, left[0].get_list_id());
    assert_eq!(1, left[0].get_list_len());
    assert_eq!(12, left[0].get_item_id(0));
}

#[test]
fn load_user_data_rebuilds_lists_with_their_items() {
    let database = open(":memory:");
    assert_eq!(Ok(()), database.insert_into_list(String::from("mine"), 1, 7));
    assert_eq!(Ok(()), database.insert_into_list(String::from("theirs"), 2, 8));
    assert_eq!(Ok(()), database.insert_into_items(String::from("a"), 10, 1, 0));
    assert_eq!(Ok(()), database.insert_into_items(String::from("b"), 11, 1, 1));
    assert_eq!(Ok(()), database.insert_into_items(String::from("c"), 12, 2, 1));

    let mine = database.load_user_data(7);
    assert_eq!(1, mine.len());
    assert_eq!(String::from("mine"), mine[0].get_name());
    assert_eq!(1, mine[0].get_list_id());
    assert_eq!(2, mine[0].get_list_len());
    assert_eq!(String::from("a"), mine[0].list[0].get_item_name());
    assert_eq!(10, mine[0].get_item_id(0));
    assert_eq!(false, mine[0].get_item_complete_status(0));
    assert_eq!(String::from("b"), mine[0].list[1].get_item_name());
    assert_eq!(11, mine[0].get_item_id(1));
    assert_eq!(true, mine[0].get_item_complete_status(1));

    // a user without rows has no lists, and that is no error
    assert_eq!(0, database.load_user_data(99).len());
}

#[test]
fn update_item_and_remove_item_touch_one_row() {
    let database = open(":memory:");
    assert_eq!(Ok(()), database.insert_into_list(String::from("l"), 1, 7));
    assert_eq!(Ok(()), database.insert_into_items(String::from("a"), 10, 1, 0));
    assert_eq!(Ok(()), database.insert_into_items(String::from("b"), 11, 1, 0));

    assert_eq!(Ok(()), database.update_item(11, 1, 1));
    let items = database.get_list_items(1).unwrap();
    assert_eq!(2, items.len());
    assert_eq!(0, items[0].complete);
    assert_eq!(1, items[1].complete);

    // the list must match too
    assert_eq!(Ok(()), database.update_item(10, 2, 1));
    assert_eq!(0, database.get_list_items(1).unwrap()[0].complete);
    assert_eq!(Ok(()), database.remove_item(10, 2));
    assert_eq!(2, database.get_list_items(1).unwrap().len());

    assert_eq!(Ok(()), database.remove_item(10, 1));
    let items = database.get_list_items(1).unwrap();
    assert_eq!(1, items.len());
    assert_eq!(11, items[0].item_id);
}

#[test]
fn remove_user_removes_lists_and_items_too() {
    let database = open(":memory:");
    assert_eq!(Ok(()), database.create_user_account("alice", "pw1", 7));
    assert_eq!(Ok(()), database.create_user_account("bob", "pw2", 8));
    assert_eq!(Ok(()), database.insert_into_list(String::from("a"), 1, 7));
    assert_eq!(Ok(()), database.insert_into_list(String::from("b"), 2, 8));
    assert_eq!(Ok(()), database.insert_into_items(String::from("x"), 10, 1, 0));
    assert_eq!(Ok(()), database.insert_into_items(String::from("y"), 11, 2, 0));

    assert_eq!(Ok(()), database.remove_user(7));

    assert_eq!(0, database.get_user_id("alice", "pw1").unwrap().len());
    assert_eq!(0, database.get_user_lists(7).unwrap().len());
    assert_eq!(0, database.get_list_items(1).unwrap().len());
    assert_eq!(1, database.get_user_id("bob", "pw2").unwrap().len());
    assert_eq!(1, database.load_user_data(8).len());
    assert_eq!(1, database.get_list_items(2).unwrap().len());
}

#[test]
fn creating_the_same_account_twice_is_refused() {
    let database = open(":memory:");
    assert_eq!(Ok(()), database.create_user_account("alice", "pw1", 1));
    assert_eq!(
        Err(StorageError::ConstraintViolation),
        database.create_user_account("alice", "other", 2)
    );
    // no second row
    assert_eq!(0, database.get_user_id("alice", "other").unwrap().len());
    // the right password finds exactly the one account
    let found = database.get_user_id("alice", "pw1").unwrap();
    assert_eq!(1, found.len());
    assert_eq!(1, found[0].user_id);
    assert_eq!(String::from("alice"), found[0].username);
    assert_eq!(String::from("pw1"), found[0].password);
    // a wrong password finds nobody
    assert_eq!(0, database.get_user_id("alice", "wrong").unwrap().len());
}
