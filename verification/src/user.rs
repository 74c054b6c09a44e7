//! The identity of the person using the lists.

use vstd::prelude::*;

verus! {

/// What a user is, as a mathematical value.
pub struct UserModel {
    pub user_id: u32,
    pub username: Seq<char>,
    pub password: Seq<char>,
}

/// An account: the identifier of its stored row and the credentials it logs
/// in with.
pub struct User {
    user_id: u32,
    username: String,
    password: String,
}

impl View for User {
    type V = UserModel;

    closed spec fn view(&self) -> UserModel {
        UserModel { user_id: self.user_id, username: self.username@, password: self.password@ }
    }
}

impl User {
    pub fn new(user_id: u32, username: String, password: String) -> (user: User)
        ensures
            user@ == (UserModel { user_id, username: username@, password: password@ }),
    {
        User { user_id, username, password }
    }

    pub fn get_user_id(&self) -> (user_id: u32)
        ensures
            user_id == self@.user_id,
    {
        self.user_id
    }

    /// A copy of the username.
    pub fn get_username(&self) -> (username: String)
        ensures
            username@ == self@.username,
    {
        self.username.clone()
    }

    /// A copy of the password.
    pub fn get_password(&self) -> (password: String)
        ensures
            password@ == self@.password,
    {
        self.password.clone()
    }

    /// Replaces the username and leaves identifier and password alone.
    pub fn change_username(&mut self, new_username: String)
        ensures
            final(self)@ == (UserModel { username: new_username@, ..old(self)@ }),
    {
        self.username = new_username;
    }

    /// Replaces the password and leaves identifier and username alone.
    pub fn change_password(&mut self, new_password: String)
        ensures
            final(self)@ == (UserModel { password: new_password@, ..old(self)@ }),
    {
        self.password = new_password;
    }
}

} // verus!
