//! A registered nickname.

use vstd::prelude::*;
use super::{password_hash, password_hash_of, HashError};
use super::store::{Store, StoreError};
use crate::text::same;
use crate::wire::Action;

verus! {

/// The record of a registered nickname.
#[derive(Debug, PartialEq, Eq)]
pub struct User {
    pub nickname: String,
    pub password: String,
    pub email: Option<String>,
}

/// What a user record holds.
pub struct UserView {
    pub nickname: Seq<char>,
    pub password: Seq<char>,
    pub email: Option<Seq<char>>,
}

/// The characters of an optional text.
pub open spec fn text_of(s: Option<String>) -> Option<Seq<char>> {
    match s {
        Some(t) => Some(t@),
        None => None,
    }
}

/// The characters of an optional borrowed text.
pub open spec fn str_of(s: Option<&str>) -> Option<Seq<char>> {
    match s {
        Some(t) => Some(t@),
        None => None,
    }
}

impl View for User {
    type V = UserView;

    open spec fn view(&self) -> UserView {
        UserView { nickname: self.nickname@, password: self.password@, email: text_of(self.email) }
    }
}

impl User {
    /// The record of a nickname, given the stored form of its password or
    /// the failure to compute it.
    pub fn from_hash(nickname: &str, hash: Result<String, HashError>, email: Option<&str>) -> (r:
        Result<User, HashError>)
        ensures
            match hash {
                Ok(h) => r matches Ok(u) && u@ == (UserView {
                    nickname: nickname@,
                    password: h@,
                    email: str_of(email),
                }),
                Err(e) => r == Err::<User, HashError>(e),
            },
    {
        match hash {
            Ok(hash) => Ok(
                User {
                    nickname: nickname.to_owned(),
                    password: hash,
                    email: match email {
                        Some(e) => Some(e.to_owned()),
                        None => None,
                    },
                },
            ),
            Err(e) => Err(e),
        }
    }

    /// The record of a nickname registered under `password`. It fails only
    /// where the password cannot be digested.
    pub fn new(nickname: &str, password: &str, email: Option<&str>) -> (r: Result<User, HashError>)
        ensures
            r matches Ok(u) ==> u@ == (UserView {
                nickname: nickname@,
                password: password_hash_of(password@),
                email: str_of(email),
            }),
    {
        User::from_hash(nickname, password_hash(password), email)
    }

    /// Replaces the stored form of the password, or passes the failure to
    /// compute it on and leaves the record as it was.
    pub fn take_hash(&mut self, hash: Result<String, HashError>) -> (r: Result<(), HashError>)
        ensures
            match hash {
                Ok(h) => r is Ok && final(self)@ == (UserView { password: h@, ..old(self)@ }),
                Err(e) => r == Err::<(), HashError>(e) && final(self)@ == old(self)@,
            },
    {
        match hash {
            Ok(hash) => {
                self.password = hash;
                Ok(())
            },
            Err(e) => Err(e),
        }
    }

    /// Replaces the password. It fails only where the password cannot be
    /// digested, and then the record is as it was.
    pub fn update_password(&mut self, password: &str) -> (r: Result<(), HashError>)
        ensures
            r is Ok ==> final(self)@ == (UserView {
                password: password_hash_of(password@),
                ..old(self)@
            }),
            r is Err ==> final(self)@ == old(self)@,
    {
        self.take_hash(password_hash(password))
    }

    /// Whether the stored form of a password is that of the user's
    /// password; a failure to compute it is passed on.
    pub fn matches_hash(&self, hash: Result<String, HashError>) -> (r: Result<bool, HashError>)
        ensures
            match hash {
                Ok(h) => r == Ok::<bool, HashError>(self.password@ == h@),
                Err(e) => r == Err::<bool, HashError>(e),
            },
    {
        match hash {
            Ok(hash) => Ok(same(self.password.as_str(), hash.as_str())),
            Err(e) => Err(e),
        }
    }

    /// Whether `password` is the user's password. It fails only where the
    /// password cannot be digested.
    pub fn is_password(&self, password: &str) -> (r: Result<bool, HashError>)
        ensures
            r matches Ok(b) ==> b == (self.password@ == password_hash_of(password@)),
    {
        self.matches_hash(password_hash(password))
    }

    /// A copy of the record.
    pub fn copy(&self) -> (u: User)
        ensures
            u@ == self@,
    {
        User {
            nickname: self.nickname.clone(),
            password: self.password.clone(),
            email: match &self.email {
                Some(e) => Some(e.clone()),
                None => None,
            },
        }
    }

    /// Whether the store lists a user of that nickname.
    pub fn registered(store: &Store, nickname: &str) -> (r: bool)
        requires
            store.wf(),
        ensures
            r == store.user_listed(nickname@),
    {
        store.user_exists(nickname)
    }

    /// The stored record of a nickname.
    pub fn load(store: &Store, nickname: &str) -> (r: Result<User, StoreError>)
        requires
            store.wf(),
        ensures
            match r {
                Ok(u) => store.user(nickname@) == Some(u@),
                Err(StoreError::Missing) => !store.user_listed(nickname@),
                Err(StoreError::Unreadable) => store.user_listed(nickname@) && store.user(nickname@)
                    is None,
            },
    {
        store.load_user(nickname)
    }

    /// Puts the record into the store, under the nickname, and answers with
    /// the action that writes it out.
    pub fn save(&self, store: &mut Store) -> (a: Action)
        requires
            old(store).wf(),
        ensures
            final(store).wf(),
            final(store)@ == old(store)@.with_user(self@),
            a@ == crate::wire::save_user(self@),
    {
        store.put_user(self.copy());
        Action::save_user(self.copy())
    }
}

} // verus!
