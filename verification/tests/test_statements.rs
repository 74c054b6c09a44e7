use todo_list_rust::database::{
    create_user_statement, find_user_statement, insert_item_statement, insert_list_statement,
    list_items_statement, remove_item_statement, remove_items_statement, remove_list_statement,
    remove_user_statement, schema_statements, update_item_statement, user_lists_statement,
    SqlParam, Statement,
};

fn text(value: &str) -> SqlParam {
    SqlParam::Text(String::from(value))
}

#[test]
fn the_schema_has_three_tables() {
    let statements = schema_statements();
    assert_eq!(3, statements.len());
    assert_eq!(true, statements[0].sql.starts_with("CREATE TABLE IF NOT EXISTS users ("));
    assert_eq!(true, statements[0].sql.contains("user_id INTEGER PRIMARY KEY"));
    assert_eq!(true, statements[0].sql.contains("UNIQUE(username)"));
    assert_eq!(true, statements[1].sql.starts_with("CREATE TABLE IF NOT EXISTS lists ("));
    assert_eq!(true, statements[1].sql.contains("list_id INTEGER PRIMARY KEY"));
    assert_eq!(true, statements[2].sql.starts_with("CREATE TABLE IF NOT EXISTS items ("));
    assert_eq!(true, statements[2].sql.contains("item_id INTEGER PRIMARY KEY"));
    assert_eq!(true, statements[2].sql.contains("complete INTEGER"));
    for statement in &statements {
        assert_eq!(0, statement.params.len());
    }
}

#[test]
fn a_user_is_inserted_with_name_password_and_identifier() {
    assert_eq!(
        Statement {
            sql: String::from("INSERT INTO users (username, password, user_id) values(?, ?, ?);"),
            params: vec![text("alice"), text("pw1"), SqlParam::Number(7)],
        },
        create_user_statement("alice", "pw1", 7)
    );
}

#[test]
fn a_user_is_looked_up_by_name_and_password() {
    assert_eq!(
        Statement {
            sql: String::from("SELECT * FROM users WHERE username = ? AND password = ?;"),
            params: vec![text("alice"), text("pw1")],
        },
        find_user_statement("alice", "pw1")
    );
}

#[test]
fn lists_are_asked_for_by_owner_and_items_by_list() {
    assert_eq!(
        Statement {
            sql: String::from("SELECT * FROM lists WHERE user_id = ?;"),
            params: vec![SqlParam::Number(7)],
        },
        user_lists_statement(7)
    );
    assert_eq!(
        Statement {
            sql: String::from("SELECT * FROM items WHERE list_id = ?;"),
            params: vec![SqlParam::Number(3)],
        },
        list_items_statement(3)
    );
}

#[test]
fn a_list_is_inserted_with_identifier_owner_and_name() {
    assert_eq!(
        Statement {
            sql: String::from("INSERT INTO lists (list_id, user_id, list_name) values(?, ?, ?)"),
            params: vec![SqlParam::Number(3), SqlParam::Number(7), text("Groceries")],
        },
        insert_list_statement(String::from("Groceries"), 3, 7)
    );
}

#[test]
fn an_item_is_inserted_with_identifier_list_name_and_flag() {
    assert_eq!(
        Statement {
            sql: String::from(
                "INSERT INTO items (item_id, list_id, item_name, complete) values(?, ?, ?, ?)"
            ),
            params: vec![SqlParam::Number(11), SqlParam::Number(3), text("Milk"), SqlParam::Number(1)],
        },
        insert_item_statement(String::from("Milk"), 11, 3, 1)
    );
}

#[test]
fn removals_name_what_they_remove() {
    assert_eq!(
        Statement {
            sql: String::from("DELETE FROM users WHERE user_id = ?;"),
            params: vec![SqlParam::Number(7)],
        },
        remove_user_statement(7)
    );
    assert_eq!(
        Statement {
            sql: String::from("DELETE FROM items WHERE list_id = ?;"),
            params: vec![SqlParam::Number(3)],
        },
        remove_items_statement(3)
    );
    assert_eq!(
        Statement {
            sql: String::from("DELETE FROM lists WHERE list_id = ? AND user_id = ?;"),
            params: vec![SqlParam::Number(3), SqlParam::Number(7)],
        },
        remove_list_statement(3, 7)
    );
    // the list comes first in the text, so it comes first among the values
    assert_eq!(
        Statement {
            sql: String::from("DELETE FROM items WHERE list_id = ? AND item_id = ?;"),
            params: vec![SqlParam::Number(3), SqlParam::Number(11)],
        },
        remove_item_statement(11, 3)
    );
}

#[test]
fn an_update_binds_flag_item_and_list() {
    assert_eq!(
        Statement {
            sql: String::from("UPDATE items SET complete = ? WHERE item_id = ? AND list_id = ?;"),
            params: vec![SqlParam::Number(1), SqlParam::Number(11), SqlParam::Number(3)],
        },
        update_item_statement(11, 3, 1)
    );
}
