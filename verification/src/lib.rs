//! A personal to-do list manager: named lists of items with completion
//! tracking, a login step, and a session controller that keeps the lists in
//! memory in step with a relational store.

pub mod todo_item;
pub mod todo;
pub mod user;
pub mod database;
pub mod text;
pub mod key;
pub mod identifier;
pub mod cursor;
pub mod seq_facts;
pub mod user_authentication;
pub mod session_model;
pub mod app_state;
pub mod store_model;
pub mod sync;
