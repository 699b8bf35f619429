//! Users as the record store holds them.

use vstd::prelude::*;

verus! {

/// A stored user. `password` holds the one-way hash, never the plaintext.
#[derive(Debug)]
pub struct User {
    pub id: i64,
    pub login: String,
    pub password: String,
    pub companyid: Option<i64>,
    pub employeeid: Option<i64>,
}

/// A user about to be stored.
#[derive(Debug)]
pub struct NewUser {
    pub login: String,
    pub password: String,
}

/// What a `User` is to the contracts.
pub struct UserView {
    pub id: i64,
    pub login: Seq<char>,
    pub password: Seq<char>,
    pub companyid: Option<i64>,
    pub employeeid: Option<i64>,
}

impl View for User {
    type V = UserView;

    open spec fn view(&self) -> UserView {
        UserView {
            id: self.id,
            login: self.login@,
            password: self.password@,
            companyid: self.companyid,
            employeeid: self.employeeid,
        }
    }
}

impl Clone for User {
    fn clone(&self) -> (copy: Self)
        ensures
            copy@ == self@,
    {
        User {
            id: self.id,
            login: self.login.clone(),
            password: self.password.clone(),
            companyid: self.companyid,
            employeeid: self.employeeid,
        }
    }
}

/// What looking a user up gave, as the contracts see it.
pub open spec fn found_view(found: Option<User>) -> Option<UserView> {
    match found {
        Some(user) => Some(user@),
        None => None,
    }
}

/// What a `NewUser` is to the contracts.
pub struct NewUserView {
    pub login: Seq<char>,
    pub password: Seq<char>,
}

impl View for NewUser {
    type V = NewUserView;

    open spec fn view(&self) -> NewUserView {
        NewUserView { login: self.login@, password: self.password@ }
    }
}

impl Clone for NewUser {
    fn clone(&self) -> (copy: Self)
        ensures
            copy@ == self@,
    {
        NewUser { login: self.login.clone(), password: self.password.clone() }
    }
}

} // verus!
