//! A registered channel.

use vstd::prelude::*;
use super::{password_hash, password_hash_of, HashError};
use super::store::{Store, StoreError};
use crate::text::{copied, same, texts};
use crate::wire::Action;

verus! {

/// The record of a registered channel.
#[derive(Debug, PartialEq, Eq)]
pub struct Channel {
    pub name: String,
    pub password: String,
    pub owner: String,
    pub admins: Vec<String>,
    pub opers: Vec<String>,
    pub voice: Vec<String>,
    pub topic: String,
    pub mode: String,
}

/// What a channel record holds.
pub struct ChannelView {
    pub name: Seq<char>,
    pub password: Seq<char>,
    pub owner: Seq<char>,
    pub admins: Seq<Seq<char>>,
    pub opers: Seq<Seq<char>>,
    pub voice: Seq<Seq<char>>,
    pub topic: Seq<char>,
    pub mode: Seq<char>,
}

impl View for Channel {
    type V = ChannelView;

    open spec fn view(&self) -> ChannelView {
        ChannelView {
            name: self.name@,
            password: self.password@,
            owner: self.owner@,
            admins: texts(self.admins@),
            opers: texts(self.opers@),
            voice: texts(self.voice@),
            topic: self.topic@,
            mode: self.mode@,
        }
    }
}

/// A fresh record: nobody but the owner has a role, no topic and no mode.
pub open spec fn fresh_channel(name: Seq<char>, password: Seq<char>, owner: Seq<char>) -> ChannelView {
    ChannelView {
        name,
        password: password_hash_of(password),
        owner,
        admins: Seq::empty(),
        opers: Seq::empty(),
        voice: Seq::empty(),
        topic: Seq::empty(),
        mode: Seq::empty(),
    }
}

impl Channel {
    /// The record of a channel that `owner` registers, given the stored
    /// form of the password or the failure to compute it.
    pub fn from_hash(name: &str, hash: Result<String, HashError>, owner: &str) -> (r: Result<
        Channel,
        HashError,
    >)
        ensures
            match hash {
                Ok(h) => r matches Ok(c) && c@ == (ChannelView {
                    password: h@,
                    ..fresh_channel(name@, Seq::empty(), owner@)
                }),
                Err(e) => r == Err::<Channel, HashError>(e),
            },
    {
        match hash {
            Ok(hash) => {
                let c = Channel {
                    name: name.to_owned(),
                    password: hash,
                    owner: owner.to_owned(),
                    admins: Vec::new(),
                    opers: Vec::new(),
                    voice: Vec::new(),
                    topic: String::new(),
                    mode: String::new(),
                };
                assert(c@.admins =~= Seq::empty() && c@.opers =~= Seq::empty() && c@.voice
                    =~= Seq::empty());
                Ok(c)
            },
            Err(e) => Err(e),
        }
    }

    /// The record of a channel that `owner` registers under `password`. It
    /// fails only where the password cannot be digested.
    pub fn new(name: &str, password: &str, owner: &str) -> (r: Result<Channel, HashError>)
        ensures
            r matches Ok(c) ==> c@ == fresh_channel(name@, password@, owner@),
    {
        Channel::from_hash(name, password_hash(password), owner)
    }

    /// Whether the stored form of a password is that of the channel's
    /// password; a failure to compute it is passed on.
    pub fn matches_hash(&self, hash: Result<String, HashError>) -> (r: Result<bool, HashError>)
        ensures
            match hash {
                Ok(h) => r == Ok::<bool, HashError>(self.password@ == h@),
                Err(e) => r == Err::<bool, HashError>(e),
            },
    {
        match hash {
            Ok(hash) => Ok(same(self.password.as_str(), hash.as_str())),
            Err(e) => Err(e),
        }
    }

    /// Whether `password` is the channel's password. It fails only where
    /// the password cannot be digested.
    pub fn is_password(&self, password: &str) -> (r: Result<bool, HashError>)
        ensures
            r matches Ok(b) ==> b == (self.password@ == password_hash_of(password@)),
    {
        self.matches_hash(password_hash(password))
    }

    /// A copy of the record.
    pub fn copy(&self) -> (c: Channel)
        ensures
            c@ == self@,
    {
        Channel {
            name: self.name.clone(),
            password: self.password.clone(),
            owner: self.owner.clone(),
            admins: copied(&self.admins),
            opers: copied(&self.opers),
            voice: copied(&self.voice),
            topic: self.topic.clone(),
            mode: self.mode.clone(),
        }
    }

    /// Whether the store lists a channel of that name.
    pub fn registered(store: &Store, name: &str) -> (r: bool)
        requires
            store.wf(),
        ensures
            r == store.channel_listed(name@),
    {
        store.channel_exists(name)
    }

    /// The stored record of a channel.
    pub fn load(store: &Store, name: &str) -> (r: Result<Channel, StoreError>)
        requires
            store.wf(),
        ensures
            match r {
                Ok(c) => store.channel(name@) == Some(c@),
                Err(StoreError::Missing) => !store.channel_listed(name@),
                Err(StoreError::Unreadable) => store.channel_listed(name@) && store.channel(name@)
                    is None,
            },
    {
        store.load_channel(name)
    }

    /// Puts the record into the store, under the channel's name, and answers
    /// with the action that writes it out.
    pub fn save(&self, store: &mut Store) -> (a: Action)
        requires
            old(store).wf(),
        ensures
            final(store).wf(),
            final(store)@ == old(store)@.with_channel(self@),
            a@ == crate::wire::save_channel(self@),
    {
        store.put_channel(self.copy());
        Action::save_channel(self.copy())
    }
}

} // verus!
