use todo_list_rust::database::{
    found_or_nothing, list_from_rows, lists_from_rows, QueryItems, QueryLists, StorageError,
};
use todo_list_rust::identifier::{
    is_offered, judge, next_step, Attempt, Step, MAX_ATTEMPTS, NO_ID,
};
use todo_list_rust::text::{erase_last, take_text};

#[test]
fn list_from_rows_reads_any_non_zero_flag_as_complete() {
    let list = QueryLists { user_id: 3, list_id: 8, list_name: String::from("Groceries") };
    let items = vec![
        QueryItems { item_id: 1, list_id: 8, item_name: String::from("Milk"), complete: 0 },
        QueryItems { item_id: 2, list_id: 8, item_name: String::from("Eggs"), complete: 1 },
        QueryItems { item_id: 3, list_id: 8, item_name: String::from("Tea"), complete: 2 },
    ];
    let loaded = list_from_rows(&list, &items);
    assert_eq!(String::from("Groceries"), loaded.get_name());
    assert_eq!(8, loaded.get_list_id());
    assert_eq!(3, loaded.get_list_len());
    assert_eq!(String::from("Milk"), loaded.list[0].get_item_name());
    assert_eq!(String::from("Eggs"), loaded.list[1].get_item_name());
    assert_eq!(String::from("Tea"), loaded.list[2].get_item_name());
    assert_eq!(1, loaded.get_item_id(0));
    assert_eq!(2, loaded.get_item_id(1));
    assert_eq!(3, loaded.get_item_id(2));
    assert_eq!(false, loaded.get_item_complete_status(0));
    assert_eq!(true, loaded.get_item_complete_status(1));
    assert_eq!(true, loaded.get_item_complete_status(2));
}

#[test]
fn list_from_rows_without_items_is_an_empty_list() {
    let list = QueryLists { user_id: 3, list_id: 8, list_name: String::from("Empty") };
    let loaded = list_from_rows(&list, &Vec::new());
    assert_eq!(String::from("Empty"), loaded.get_name());
    assert_eq!(0, loaded.get_list_len());
}

#[test]
fn a_collision_asks_for_another_candidate() {
    assert_eq!(Attempt::Stored, judge(Ok(())));
    assert_eq!(Attempt::Retry, judge(Err(StorageError::ConstraintViolation)));
    assert_eq!(Attempt::Abort, judge(Err(StorageError::Other)));
}

#[test]
fn the_sentinel_is_the_largest_identifier() {
    assert_eq!(u32::MAX, NO_ID);
    assert_eq!(1000, MAX_ATTEMPTS);
}

#[test]
fn take_text_empties_the_buffer() {
    let mut buffer = String::from("Groceries");
    assert_eq!(String::from("Groceries"), take_text(&mut buffer));
    assert_eq!(String::new(), buffer);
    assert_eq!(String::new(), take_text(&mut buffer));
}

#[test]
fn erase_last_removes_one_character() {
    let mut buffer = String::from("ab\u{e9}");
    erase_last(&mut buffer);
    assert_eq!(String::from("ab"), buffer);
    erase_last(&mut buffer);
    erase_last(&mut buffer);
    assert_eq!(String::new(), buffer);
    erase_last(&mut buffer);
    assert_eq!(String::new(), buffer);
}

#[test]
fn lists_from_rows_builds_one_list_for_each_row() {
    let lists = vec![
        QueryLists { user_id: 3, list_id: 8, list_name: String::from("Groceries") },
        QueryLists { user_id: 3, list_id: 2, list_name: String::from("Chores") },
        QueryLists { user_id: 3, list_id: 5, list_name: String::from("Books") },
    ];
    let items = vec![
        vec![
            QueryItems { item_id: 1, list_id: 8, item_name: String::from("Milk"), complete: 0 },
            QueryItems { item_id: 2, list_id: 8, item_name: String::from("Eggs"), complete: 1 },
        ],
        Vec::new(),
        vec![QueryItems { item_id: 7, list_id: 5, item_name: String::from("Emma"), complete: 1 }],
    ];
    let loaded = lists_from_rows(&lists, &items);
    assert_eq!(3, loaded.len());
    assert_eq!(String::from("Groceries"), loaded[0].get_name());
    assert_eq!(8, loaded[0].get_list_id());
    assert_eq!(2, loaded[0].get_list_len());
    assert_eq!(String::from("Eggs"), loaded[0].list[1].get_item_name());
    assert_eq!(true, loaded[0].get_item_complete_status(1));
    assert_eq!(false, loaded[0].get_item_complete_status(0));
    assert_eq!(String::from("Chores"), loaded[1].get_name());
    assert_eq!(2, loaded[1].get_list_id());
    assert_eq!(0, loaded[1].get_list_len());
    assert_eq!(String::from("Books"), loaded[2].get_name());
    assert_eq!(5, loaded[2].get_list_id());
    assert_eq!(7, loaded[2].get_item_id(0));
}

#[test]
fn no_row_gives_no_list() {
    assert_eq!(0, lists_from_rows(&Vec::new(), &Vec::new()).len());
}

#[test]
fn a_query_that_failed_found_nothing() {
    let found: Result<Vec<u32>, StorageError> = Ok(vec![4, 5]);
    assert_eq!(vec![4, 5], found_or_nothing(found));
    let failed: Result<Vec<u32>, StorageError> = Err(StorageError::Other);
    assert_eq!(Vec::<u32>::new(), found_or_nothing(failed));
    let refused: Result<Vec<u32>, StorageError> = Err(StorageError::ConstraintViolation);
    assert_eq!(Vec::<u32>::new(), found_or_nothing(refused));
}

#[test]
fn the_sentinel_is_never_offered() {
    assert_eq!(false, is_offered(u32::MAX));
    assert_eq!(true, is_offered(0));
    assert_eq!(true, is_offered(u32::MAX - 1));
    // whatever is said of it, the sentinel asks for another candidate
    assert_eq!(Step::Again, next_step(0, u32::MAX, None));
    assert_eq!(Step::Again, next_step(0, u32::MAX, Some(Ok(()))));
    assert_eq!(Step::Again, next_step(0, u32::MAX, Some(Err(StorageError::Other))));
}

#[test]
fn an_accepted_candidate_ends_the_search() {
    assert_eq!(Step::Stored(17), next_step(0, 17, Some(Ok(()))));
    assert_eq!(Step::Stored(0), next_step(998, 0, Some(Ok(()))));
    assert_eq!(Step::Stored(17), next_step(999, 17, Some(Ok(()))));
}

#[test]
fn a_collision_goes_on_until_the_last_candidate() {
    let collision = Some(Err(StorageError::ConstraintViolation));
    assert_eq!(Step::Again, next_step(0, 17, collision));
    assert_eq!(Step::Again, next_step(500, 17, collision));
    assert_eq!(Step::Again, next_step(998, 17, collision));
    assert_eq!(Step::Failed(StorageError::ConstraintViolation), next_step(999, 17, collision));
    assert_eq!(Step::Failed(StorageError::ConstraintViolation), next_step(999, u32::MAX, None));
    assert_eq!(Step::Again, next_step(998, 17, None));
}

#[test]
fn another_failure_ends_the_search_at_once() {
    assert_eq!(Step::Failed(StorageError::Other), next_step(0, 17, Some(Err(StorageError::Other))));
    assert_eq!(
        Step::Failed(StorageError::Other),
        next_step(999, 17, Some(Err(StorageError::Other)))
    );
}
