//! The persistence gateway: users, lists and items in three SQLite tables,
//! reached through one connection.
//!
//! Nothing here knows what the store holds. Each operation hands a statement
//! and its parameters to SQLite and reports whether it ran, telling a
//! violated constraint apart from every other failure.

use vstd::prelude::*;
use crate::todo::{item_models, list_models, ListModel, TodoList};
use crate::todo_item::{ItemModel, TodoItem};

verus! {

#[verifier::external_type_specification]
#[verifier::external_body]
pub struct ExConnection(rusqlite::Connection);

#[verifier::external_type_specification]
#[verifier::external_body]
pub struct ExSqliteError(rusqlite::Error);

/// Why a storage operation failed.
#[derive(Clone, Copy, Debug, PartialEq, Eq, Structural)]
pub enum StorageError {
    /// A primary key or a unique column already holds the value.
    ConstraintViolation,
    /// Anything else: the store cannot be reached, the statement is
    /// malformed, a column holds a value of the wrong type.
    Other,
}

/// What a lookup may come back without.
#[derive(Clone, Copy, Debug, PartialEq, Eq, Structural)]
pub enum TodoDatabaseErrorCode {
    NoUserFound,
    ListNotFound,
    ItemNotFound,
}

/// A failed lookup: the identifier that was asked for, a message and a code.
pub struct TodoDatabaseError {
    id: u32,
    message: String,
    code: TodoDatabaseErrorCode,
}

/// A row of the `users` table.
pub struct QueryUser {
    pub user_id: u32,
    pub username: String,
    pub password: String,
}

/// A row of the `lists` table.
pub struct QueryLists {
    pub user_id: u32,
    pub list_id: u32,
    pub list_name: String,
}

/// A row of the `items` table. `complete` is 0 for an open item and 1 for one
/// that is checked off.
pub struct QueryItems {
    pub item_id: u32,
    pub list_id: u32,
    pub item_name: String,
    pub complete: u32,
}

/// A row of `users` as a mathematical value.
pub struct UserRow {
    pub user_id: u32,
    pub username: Seq<char>,
    pub password: Seq<char>,
}

/// A row of `lists` as a mathematical value.
pub struct ListRow {
    pub user_id: u32,
    pub list_id: u32,
    pub list_name: Seq<char>,
}

/// A row of `items` as a mathematical value.
pub struct ItemRow {
    pub item_id: u32,
    pub list_id: u32,
    pub item_name: Seq<char>,
    pub complete: u32,
}

impl View for QueryUser {
    type V = UserRow;

    open spec fn view(&self) -> UserRow {
        UserRow { user_id: self.user_id, username: self.username@, password: self.password@ }
    }
}

impl View for QueryLists {
    type V = ListRow;

    open spec fn view(&self) -> ListRow {
        ListRow { user_id: self.user_id, list_id: self.list_id, list_name: self.list_name@ }
    }
}

impl View for QueryItems {
    type V = ItemRow;

    open spec fn view(&self) -> ItemRow {
        ItemRow {
            item_id: self.item_id,
            list_id: self.list_id,
            item_name: self.item_name@,
            complete: self.complete,
        }
    }
}

/// The rows of a vector, each taken as its model.
pub open spec fn user_rows(rows: Seq<QueryUser>) -> Seq<UserRow> {
    Seq::new(rows.len(), |i: int| rows[i]@)
}

/// The rows of a vector, each taken as its model.
pub open spec fn item_rows(rows: Seq<QueryItems>) -> Seq<ItemRow> {
    Seq::new(rows.len(), |i: int| rows[i]@)
}

/// A value bound to a `?` of a statement.
#[derive(Debug, PartialEq, Eq)]
pub enum SqlParam {
    Number(u32),
    Text(String),
}

/// A bound value as a mathematical value.
pub enum ParamModel {
    Number(u32),
    Text(Seq<char>),
}

impl View for SqlParam {
    type V = ParamModel;

    open spec fn view(&self) -> ParamModel {
        match self {
            SqlParam::Number(number) => ParamModel::Number(*number),
            SqlParam::Text(text) => ParamModel::Text(text@),
        }
    }
}

/// A statement as it is handed to SQLite: its text, and the values for its
/// `?` in the order in which they stand in the text.
#[derive(Debug, PartialEq, Eq)]
pub struct Statement {
    pub sql: String,
    pub params: Vec<SqlParam>,
}

/// A statement as a mathematical value.
pub struct StatementModel {
    pub sql: Seq<char>,
    pub params: Seq<ParamModel>,
}

/// The values of a vector, each taken as its model.
pub open spec fn param_models(params: Seq<SqlParam>) -> Seq<ParamModel> {
    Seq::new(params.len(), |i: int| params[i]@)
}

impl View for Statement {
    type V = StatementModel;

    open spec fn view(&self) -> StatementModel {
        StatementModel { sql: self.sql@, params: param_models(self.params@) }
    }
}

/// The item that a row of `items` stands for: any non-zero flag counts as
/// complete.
pub open spec fn item_of_row(row: ItemRow) -> ItemModel {
    ItemModel { name: row.item_name, item_id: row.item_id, complete: row.complete > 0 }
}

/// The list that a row of `lists` and the rows of its items stand for, the
/// items in the order of their rows.
pub open spec fn list_of_rows(list: ListRow, items: Seq<ItemRow>) -> ListModel {
    ListModel {
        name: list.list_name,
        list_id: list.list_id,
        items: Seq::new(items.len(), |i: int| item_of_row(items[i])),
    }
}

/// The lists that the rows of `lists` stand for, in the order of the rows,
/// each with the items that the rows at the same position of `items` stand
/// for.
pub open spec fn lists_of_rows(lists: Seq<QueryLists>, items: Seq<Vec<QueryItems>>) -> Seq<
    ListModel,
> {
    Seq::new(lists.len(), |i: int| list_of_rows(lists[i]@, item_rows(items[i]@)))
}

/// Whether `loaded` is what some rows of `lists`, each with some rows of
/// `items`, stand for.
pub open spec fn built_from_rows(loaded: Seq<ListModel>) -> bool {
    exists|lists: Seq<QueryLists>, items: Seq<Vec<QueryItems>>|
        items.len() == lists.len() && loaded == #[trigger] lists_of_rows(lists, items)
}

/// Builds the in-memory list for one row of `lists` and the rows of its
/// items.
pub fn list_from_rows(list: &QueryLists, items: &Vec<QueryItems>) -> (loaded: TodoList)
    ensures
        loaded@ == list_of_rows(list@, item_rows(items@)),
{
    let mut loaded_items: Vec<TodoItem> = Vec::new();
    let mut i: usize = 0;
    while i < items.len()
        invariant
            i <= items.len(),
            loaded_items.len() == i,
            forall|k: int| 0 <= k < i ==> (#[trigger] loaded_items[k])@ == item_of_row(items[k]@),
        decreases items.len() - i,
    {
        let row = &items[i];
        loaded_items.push(
            TodoItem::new_from_load(row.item_name.clone(), row.item_id, row.complete > 0),
        );
        i += 1;
    }
    assert(item_models(loaded_items@) =~= list_of_rows(list@, item_rows(items@)).items);
    TodoList::new_from_load(list.list_name.clone(), list.list_id, loaded_items)
}

/// Builds the in-memory lists for the rows of `lists`, one list for each row
/// and in the order of the rows, each with the items of the rows at the same
/// position of `items`. No row gives no list.
pub fn lists_from_rows(lists: &Vec<QueryLists>, items: &Vec<Vec<QueryItems>>) -> (loaded: Vec<
    TodoList,
>)
    requires
        items@.len() == lists@.len(),
    ensures
        loaded@.len() == lists@.len(),
        forall|i: int|
            0 <= i < lists@.len() ==> (#[trigger] loaded@[i])@ == list_of_rows(
                lists@[i]@,
                item_rows(items@[i]@),
            ),
        list_models(loaded@) == lists_of_rows(lists@, items@),
{
    let mut loaded: Vec<TodoList> = Vec::new();
    let mut i: usize = 0;
    while i < lists.len()
        invariant
            i <= lists.len(),
            items@.len() == lists@.len(),
            loaded.len() == i,
            forall|k: int|
                0 <= k < i ==> (#[trigger] loaded@[k])@ == list_of_rows(
                    lists@[k]@,
                    item_rows(items@[k]@),
                ),
        decreases lists.len() - i,
    {
        loaded.push(list_from_rows(&lists[i], &items[i]));
        i += 1;
    }
    assert(list_models(loaded@) =~= lists_of_rows(lists@, items@));
    loaded
}

/// The rows that a query found. A query that failed counts as one that found
/// none.
pub fn found_or_nothing<Row>(found: Result<Vec<Row>, StorageError>) -> (rows: Vec<Row>)
    ensures
        rows@ == match found {
            Ok(found_rows) => found_rows@,
            Err(_) => Seq::<Row>::empty(),
        },
{
    match found {
        Ok(found_rows) => found_rows,
        Err(_) => Vec::new(),
    }
}

/// Puts a statement together from its text and its values.
fn statement(sql: &str, params: Vec<SqlParam>) -> (built: Statement)
    ensures
        built@ == (StatementModel { sql: sql@, params: param_models(params@) }),
{
    Statement { sql: String::from_str(sql), params }
}

/// The three statements that create the tables `users`, `lists` and `items`
/// unless they exist, in that order.
pub fn schema_statements() -> (statements: Vec<Statement>)
    ensures
        statements@.len() == 3,
        statements@[0]@ == (StatementModel {
            sql: "CREATE TABLE IF NOT EXISTS users (
                     user_id INTEGER PRIMARY KEY,
                     username TEXT,
                     password TEXT,
                     UNIQUE(username)
                 );"@,
            params: Seq::empty(),
        }),
        statements@[1]@ == (StatementModel {
            sql: "CREATE TABLE IF NOT EXISTS lists (
                    list_id INTEGER PRIMARY KEY,
                    user_id INTEGER,
                    list_name TEXT,
                    FOREIGN KEY(user_id) REFERENCES users(user_id)
                 );"@,
            params: Seq::empty(),
        }),
        statements@[2]@ == (StatementModel {
            sql: "CREATE TABLE IF NOT EXISTS items (
                    item_id INTEGER PRIMARY KEY,
                    list_id INTEGER,
                    item_name TEXT,
                    complete INTEGER,
                    FOREIGN KEY(list_id) REFERENCES lists(list_id)
                 );"@,
            params: Seq::empty(),
        }),
{
    let users = statement(
        "CREATE TABLE IF NOT EXISTS users (
                     user_id INTEGER PRIMARY KEY,
                     username TEXT,
                     password TEXT,
                     UNIQUE(username)
                 );",
        Vec::new(),
    );
    let lists = statement(
        "CREATE TABLE IF NOT EXISTS lists (
                    list_id INTEGER PRIMARY KEY,
                    user_id INTEGER,
                    list_name TEXT,
                    FOREIGN KEY(user_id) REFERENCES users(user_id)
                 );",
        Vec::new(),
    );
    let items = statement(
        "CREATE TABLE IF NOT EXISTS items (
                    item_id INTEGER PRIMARY KEY,
                    list_id INTEGER,
                    item_name TEXT,
                    complete INTEGER,
                    FOREIGN KEY(list_id) REFERENCES lists(list_id)
                 );",
        Vec::new(),
    );
    assert(users@.params =~= Seq::empty());
    assert(lists@.params =~= Seq::empty());
    assert(items@.params =~= Seq::empty());
    let mut statements: Vec<Statement> = Vec::new();
    statements.push(users);
    statements.push(lists);
    statements.push(items);
    statements
}

/// The statement that inserts a user: username, password and identifier, in
/// that order.
pub fn create_user_statement(username: &str, password: &str, user_id: u32) -> (built: Statement)
    ensures
        built@ == (StatementModel {
            sql: "INSERT INTO users (username, password, user_id) values(?, ?, ?);"@,
            params: seq![
                ParamModel::Text(username@),
                ParamModel::Text(password@),
                ParamModel::Number(user_id),
            ],
        }),
{
    let mut params: Vec<SqlParam> = Vec::new();
    params.push(SqlParam::Text(username.to_owned()));
    params.push(SqlParam::Text(password.to_owned()));
    params.push(SqlParam::Number(user_id));
    assert(param_models(params@) =~= seq![
        ParamModel::Text(username@),
        ParamModel::Text(password@),
        ParamModel::Number(user_id),
    ]);
    statement("INSERT INTO users (username, password, user_id) values(?, ?, ?);", params)
}

/// The query for the users with exactly this username and this password, in
/// that order.
pub fn find_user_statement(username: &str, password: &str) -> (built: Statement)
    ensures
        built@ == (StatementModel {
            sql: "SELECT * FROM users WHERE username = ? AND password = ?;"@,
            params: seq![ParamModel::Text(username@), ParamModel::Text(password@)],
        }),
{
    let mut params: Vec<SqlParam> = Vec::new();
    params.push(SqlParam::Text(username.to_owned()));
    params.push(SqlParam::Text(password.to_owned()));
    assert(param_models(params@) =~= seq![
        ParamModel::Text(username@),
        ParamModel::Text(password@),
    ]);
    statement("SELECT * FROM users WHERE username = ? AND password = ?;", params)
}

/// The query for the lists of a user.
pub fn user_lists_statement(user_id: u32) -> (built: Statement)
    ensures
        built@ == (StatementModel {
            sql: "SELECT * FROM lists WHERE user_id = ?;"@,
            params: seq![ParamModel::Number(user_id)],
        }),
{
    let mut params: Vec<SqlParam> = Vec::new();
    params.push(SqlParam::Number(user_id));
    assert(param_models(params@) =~= seq![ParamModel::Number(user_id)]);
    statement("SELECT * FROM lists WHERE user_id = ?;", params)
}

/// The query for the items of a list.
pub fn list_items_statement(list_id: u32) -> (built: Statement)
    ensures
        built@ == (StatementModel {
            sql: "SELECT * FROM items WHERE list_id = ?;"@,
            params: seq![ParamModel::Number(list_id)],
        }),
{
    let mut params: Vec<SqlParam> = Vec::new();
    params.push(SqlParam::Number(list_id));
    assert(param_models(params@) =~= seq![ParamModel::Number(list_id)]);
    statement("SELECT * FROM items WHERE list_id = ?;", params)
}

/// The statement that inserts a list: identifier, owner and name, in that
/// order.
pub fn insert_list_statement(list_name: String, list_id: u32, user_id: u32) -> (built: Statement)
    ensures
        built@ == (StatementModel {
            sql: "INSERT INTO lists (list_id, user_id, list_name) values(?, ?, ?)"@,
            params: seq![
                ParamModel::Number(list_id),
                ParamModel::Number(user_id),
                ParamModel::Text(list_name@),
            ],
        }),
{
    let ghost name = list_name@;
    let mut params: Vec<SqlParam> = Vec::new();
    params.push(SqlParam::Number(list_id));
    params.push(SqlParam::Number(user_id));
    params.push(SqlParam::Text(list_name));
    assert(param_models(params@) =~= seq![
        ParamModel::Number(list_id),
        ParamModel::Number(user_id),
        ParamModel::Text(name),
    ]);
    statement("INSERT INTO lists (list_id, user_id, list_name) values(?, ?, ?)", params)
}

/// The statement that inserts an item: identifier, list, name and flag, in
/// that order.
pub fn insert_item_statement(item_name: String, item_id: u32, list_id: u32, complete: u32) -> (built:
    Statement)
    ensures
        built@ == (StatementModel {
            sql: "INSERT INTO items (item_id, list_id, item_name, complete) values(?, ?, ?, ?)"@,
            params: seq![
                ParamModel::Number(item_id),
                ParamModel::Number(list_id),
                ParamModel::Text(item_name@),
                ParamModel::Number(complete),
            ],
        }),
{
    let ghost name = item_name@;
    let mut params: Vec<SqlParam> = Vec::new();
    params.push(SqlParam::Number(item_id));
    params.push(SqlParam::Number(list_id));
    params.push(SqlParam::Text(item_name));
    params.push(SqlParam::Number(complete));
    assert(param_models(params@) =~= seq![
        ParamModel::Number(item_id),
        ParamModel::Number(list_id),
        ParamModel::Text(name),
        ParamModel::Number(complete),
    ]);
    statement(
        "INSERT INTO items (item_id, list_id, item_name, complete) values(?, ?, ?, ?)",
        params,
    )
}

/// The statement that removes a user.
pub fn remove_user_statement(user_id: u32) -> (built: Statement)
    ensures
        built@ == (StatementModel {
            sql: "DELETE FROM users WHERE user_id = ?;"@,
            params: seq![ParamModel::Number(user_id)],
        }),
{
    let mut params: Vec<SqlParam> = Vec::new();
    params.push(SqlParam::Number(user_id));
    assert(param_models(params@) =~= seq![ParamModel::Number(user_id)]);
    statement("DELETE FROM users WHERE user_id = ?;", params)
}

/// The statement that removes every item of a list.
pub fn remove_items_statement(list_id: u32) -> (built: Statement)
    ensures
        built@ == (StatementModel {
            sql: "DELETE FROM items WHERE list_id = ?;"@,
            params: seq![ParamModel::Number(list_id)],
        }),
{
    let mut params: Vec<SqlParam> = Vec::new();
    params.push(SqlParam::Number(list_id));
    assert(param_models(params@) =~= seq![ParamModel::Number(list_id)]);
    statement("DELETE FROM items WHERE list_id = ?;", params)
}

/// The statement that removes a list of a user: list and owner, in that
/// order.
pub fn remove_list_statement(list_id: u32, user_id: u32) -> (built: Statement)
    ensures
        built@ == (StatementModel {
            sql: "DELETE FROM lists WHERE list_id = ? AND user_id = ?;"@,
            params: seq![ParamModel::Number(list_id), ParamModel::Number(user_id)],
        }),
{
    let mut params: Vec<SqlParam> = Vec::new();
    params.push(SqlParam::Number(list_id));
    params.push(SqlParam::Number(user_id));
    assert(param_models(params@) =~= seq![
        ParamModel::Number(list_id),
        ParamModel::Number(user_id),
    ]);
    statement("DELETE FROM lists WHERE list_id = ? AND user_id = ?;", params)
}

/// The statement that removes an item of a list: list and item, in that
/// order.
pub fn remove_item_statement(item_id: u32, list_id: u32) -> (built: Statement)
    ensures
        built@ == (StatementModel {
            sql: "DELETE FROM items WHERE list_id = ? AND item_id = ?;"@,
            params: seq![ParamModel::Number(list_id), ParamModel::Number(item_id)],
        }),
{
    let mut params: Vec<SqlParam> = Vec::new();
    params.push(SqlParam::Number(list_id));
    params.push(SqlParam::Number(item_id));
    assert(param_models(params@) =~= seq![
        ParamModel::Number(list_id),
        ParamModel::Number(item_id),
    ]);
    statement("DELETE FROM items WHERE list_id = ? AND item_id = ?;", params)
}

/// The statement that sets the flag of an item of a list: flag, item and
/// list, in that order.
pub fn update_item_statement(item_id: u32, list_id: u32, complete: u32) -> (built: Statement)
    ensures
        built@ == (StatementModel {
            sql: "UPDATE items SET complete = ? WHERE item_id = ? AND list_id = ?;"@,
            params: seq![
                ParamModel::Number(complete),
                ParamModel::Number(item_id),
                ParamModel::Number(list_id),
            ],
        }),
{
    let mut params: Vec<SqlParam> = Vec::new();
    params.push(SqlParam::Number(complete));
    params.push(SqlParam::Number(item_id));
    params.push(SqlParam::Number(list_id));
    assert(param_models(params@) =~= seq![
        ParamModel::Number(complete),
        ParamModel::Number(item_id),
        ParamModel::Number(list_id),
    ]);
    statement("UPDATE items SET complete = ? WHERE item_id = ? AND list_id = ?;", params)
}

/// Opens the database file with `rusqlite::Connection::open`. Whether that
/// succeeds depends on the file system, so nothing is claimed of the result.
#[verifier::external_body]
fn open_connection(file_path: &str) -> (opened: Result<rusqlite::Connection, rusqlite::Error>) {
    rusqlite::Connection::open(file_path)
}

/// Closes the connection with `rusqlite::Connection::close` and lets go of it
/// either way.
#[verifier::external_body]
fn close(connection: rusqlite::Connection) {
    let _ = connection.close();
}

/// Runs one statement with `rusqlite::Connection::execute`, its values bound
/// to its `?` in order. What comes back depends on what the store holds, so
/// nothing is claimed of the result.
#[verifier::external_body]
fn execute(connection: &rusqlite::Connection, statement: &Statement) -> (changed: Result<
    usize,
    rusqlite::Error,
>) {
    let values = statement.params.iter().map(|param| match param {
        SqlParam::Number(number) => rusqlite::types::Value::from(*number),
        SqlParam::Text(text) => rusqlite::types::Value::from(text.clone()),
    });
    connection.execute(statement.sql.as_str(), rusqlite::params_from_iter(values))
}

/// Runs a query on `users` with `rusqlite::Statement::query_map`, its values
/// bound to its `?` in order, and collects the rows. Nothing is claimed of
/// the result.
#[verifier::external_body]
fn query_users(connection: &rusqlite::Connection, statement: &Statement) -> (rows: Result<
    Vec<QueryUser>,
    rusqlite::Error,
>) {
    let values = statement.params.iter().map(|param| match param {
        SqlParam::Number(number) => rusqlite::types::Value::from(*number),
        SqlParam::Text(text) => rusqlite::types::Value::from(text.clone()),
    });
    let mut prepared = connection.prepare(statement.sql.as_str())?;
    let rows = prepared.query_map(rusqlite::params_from_iter(values), |row| {
        let (user_id, username, password) =
            (row.get("user_id")?, row.get("username")?, row.get("password")?);
        Ok(QueryUser { user_id, username, password })
    })?;
    rows.collect()
}

/// Runs a query on `lists` with `rusqlite::Statement::query_map`, its values
/// bound to its `?` in order, and collects the rows. Nothing is claimed of
/// the result.
#[verifier::external_body]
fn query_lists(connection: &rusqlite::Connection, statement: &Statement) -> (rows: Result<
    Vec<QueryLists>,
    rusqlite::Error,
>) {
    let values = statement.params.iter().map(|param| match param {
        SqlParam::Number(number) => rusqlite::types::Value::from(*number),
        SqlParam::Text(text) => rusqlite::types::Value::from(text.clone()),
    });
    let mut prepared = connection.prepare(statement.sql.as_str())?;
    let rows = prepared.query_map(rusqlite::params_from_iter(values), |row| {
        let (user_id, list_id, list_name) =
            (row.get("user_id")?, row.get("list_id")?, row.get("list_name")?);
        Ok(QueryLists { user_id, list_id, list_name })
    })?;
    rows.collect()
}

/// Runs a query on `items` with `rusqlite::Statement::query_map`, its values
/// bound to its `?` in order, and collects the rows. Nothing is claimed of
/// the result.
#[verifier::external_body]
fn query_items(connection: &rusqlite::Connection, statement: &Statement) -> (rows: Result<
    Vec<QueryItems>,
    rusqlite::Error,
>) {
    let values = statement.params.iter().map(|param| match param {
        SqlParam::Number(number) => rusqlite::types::Value::from(*number),
        SqlParam::Text(text) => rusqlite::types::Value::from(text.clone()),
    });
    let mut prepared = connection.prepare(statement.sql.as_str())?;
    let rows = prepared.query_map(rusqlite::params_from_iter(values), |row| {
        let (item_id, list_id) = (row.get("item_id")?, row.get("list_id")?);
        let (item_name, complete) = (row.get("item_name")?, row.get("complete")?);
        Ok(QueryItems { item_id, list_id, item_name, complete })
    })?;
    rows.collect()
}

/// Reads the SQLite result code with `rusqlite::Error::sqlite_error_code` and
/// tells a violated constraint apart from everything else, an error that did
/// not come from SQLite included.
#[verifier::external_body]
fn storage_error(error: &rusqlite::Error) -> (kind: StorageError) {
    match error.sqlite_error_code() {
        Some(rusqlite::ErrorCode::ConstraintViolation) => StorageError::ConstraintViolation,
        _ => StorageError::Other,
    }
}

/// The outcome of a statement that changes rows: it ran, or why it did not.
fn settle(outcome: Result<usize, rusqlite::Error>) -> (settled: Result<(), StorageError>)
    ensures
        settled is Ok <==> outcome is Ok,
{
    match outcome {
        Ok(_) => Ok(()),
        Err(error) => Err(storage_error(&error)),
    }
}

/// The store of users, lists and items.
pub struct TodoDatabase {
    connection: rusqlite::Connection,
}

impl TodoDatabase {
    /// Opens the database file, creating it if need be, and makes sure the
    /// three tables exist.
    pub fn new(file_path: String) -> (opened: Result<TodoDatabase, StorageError>) {
        let connection = match open_connection(file_path.as_str()) {
            Ok(connection) => connection,
            Err(error) => {
                return Err(storage_error(&error));
            },
        };
        let database = TodoDatabase { connection };
        match database.build_db() {
            Ok(()) => Ok(database),
            Err(error) => Err(error),
        }
    }

    /// Closes the connection. A failure to close is not reported.
    pub fn close_connection(self) -> (closed: Result<(), StorageError>)
        ensures
            closed is Ok,
    {
        close(self.connection);
        Ok(())
    }

    /// Runs one statement that changes rows.
    fn run(&self, statement: &Statement) -> (ran: Result<(), StorageError>) {
        settle(execute(&self.connection, statement))
    }

    /// Creates the tables `users`, `lists` and `items` unless they exist: runs
    /// the statements of `schema_statements` in order and stops at the first
    /// that fails.
    pub fn build_db(&self) -> (built: Result<(), StorageError>) {
        let statements = schema_statements();
        let mut i: usize = 0;
        while i < statements.len()
            invariant
                i <= statements.len(),
            decreases statements.len() - i,
        {
            let created = self.run(&statements[i]);
            if created.is_err() {
                return created;
            }
            i += 1;
        }
        Ok(())
    }

    /// Inserts a user with the statement of `create_user_statement`. The
    /// store refuses a `user_id` or a `username` that it already holds.
    pub fn create_user_account(&self, username: &str, password: &str, user_id: u32) -> (created:
        Result<(), StorageError>) {
        self.run(&create_user_statement(username, password, user_id))
    }

    /// The users with exactly this username and this password, asked for
    /// with the statement of `find_user_statement`.
    pub fn get_user_id(&self, username: &str, password: &str) -> (found: Result<
        Vec<QueryUser>,
        StorageError,
    >) {
        match query_users(&self.connection, &find_user_statement(username, password)) {
            Ok(rows) => Ok(rows),
            Err(error) => Err(storage_error(&error)),
        }
    }

    /// Every list of the user with its items: what `lists_from_rows` builds
    /// from the rows that `get_user_lists` finds and, for each of them, the
    /// rows that `get_list_items` finds for its identifier. A query that
    /// fails counts as one that found nothing, so a user without rows has no
    /// lists.
    pub fn load_user_data(&self, user_id: u32) -> (loaded: Vec<TodoList>)
        ensures
            built_from_rows(list_models(loaded@)),
    {
        let user_lists = found_or_nothing(self.get_user_lists(user_id));
        let mut list_items: Vec<Vec<QueryItems>> = Vec::new();
        let mut i: usize = 0;
        while i < user_lists.len()
            invariant
                i <= user_lists.len(),
                list_items.len() == i,
            decreases user_lists.len() - i,
        {
            list_items.push(found_or_nothing(self.get_list_items(user_lists[i].list_id)));
            i += 1;
        }
        let loaded = lists_from_rows(&user_lists, &list_items);
        assert(list_models(loaded@) == lists_of_rows(user_lists@, list_items@));
        loaded
    }

    /// The rows of `lists` that belong to the user, asked for with the
    /// statement of `user_lists_statement`.
    pub fn get_user_lists(&self, user_id: u32) -> (found: Result<Vec<QueryLists>, StorageError>) {
        match query_lists(&self.connection, &user_lists_statement(user_id)) {
            Ok(rows) => Ok(rows),
            Err(error) => Err(storage_error(&error)),
        }
    }

    /// The rows of `items` that belong to the list, asked for with the
    /// statement of `list_items_statement`.
    pub fn get_list_items(&self, list_id: u32) -> (found: Result<Vec<QueryItems>, StorageError>) {
        match query_items(&self.connection, &list_items_statement(list_id)) {
            Ok(rows) => Ok(rows),
            Err(error) => Err(storage_error(&error)),
        }
    }

    /// Inserts a list owned by the user with the statement of
    /// `insert_list_statement`. The store refuses a `list_id` that it already
    /// holds.
    pub fn insert_into_list(&self, list_name: String, list_id: u32, user_id: u32) -> (inserted:
        Result<(), StorageError>) {
        self.run(&insert_list_statement(list_name, list_id, user_id))
    }

    /// Inserts an item owned by the list with the statement of
    /// `insert_item_statement`. The store refuses an `item_id` that it
    /// already holds.
    pub fn insert_into_items(&self, item_name: String, item_id: u32, list_id: u32, complete: u32) -> (inserted:
        Result<(), StorageError>) {
        self.run(&insert_item_statement(item_name, item_id, list_id, complete))
    }

    /// Removes the user's lists, each with its items, and then the user with
    /// the statement of `remove_user_statement`. A list that cannot be
    /// removed does not stop the rest; failing to read the lists does.
    pub fn remove_user(&self, user_id: u32) -> (removed: Result<(), StorageError>) {
        let lists = match self.get_user_lists(user_id) {
            Ok(rows) => rows,
            Err(error) => {
                return Err(error);
            },
        };
        let mut i: usize = 0;
        while i < lists.len()
            invariant
                i <= lists.len(),
            decreases lists.len() - i,
        {
            let _ = self.remove_list(lists[i].list_id, user_id);
            i += 1;
        }
        self.run(&remove_user_statement(user_id))
    }

    /// Removes the items of the list with the statement of
    /// `remove_items_statement` and then the list itself with the statement
    /// of `remove_list_statement`. If the first fails the second is not
    /// tried.
    pub fn remove_list(&self, list_id: u32, user_id: u32) -> (removed: Result<(), StorageError>) {
        let items = self.run(&remove_items_statement(list_id));
        if items.is_err() {
            return items;
        }
        self.run(&remove_list_statement(list_id, user_id))
    }

    /// Removes one item of the list with the statement of
    /// `remove_item_statement`.
    pub fn remove_item(&self, item_id: u32, list_id: u32) -> (removed: Result<(), StorageError>) {
        self.run(&remove_item_statement(item_id, list_id))
    }

    /// Sets the completion flag of one item of the list, 1 for complete and 0
    /// for open, with the statement of `update_item_statement`.
    pub fn update_item(&self, item_id: u32, list_id: u32, complete: u32) -> (updated: Result<
        (),
        StorageError,
    >) {
        self.run(&update_item_statement(item_id, list_id, complete))
    }
}

} // verus!
