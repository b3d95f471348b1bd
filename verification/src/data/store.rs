//! The stored records, as the handlers see them.
//!
//! The store is an image in memory of what is kept on disk: the channel and
//! user records by name, and the derp counter. A name may be listed without
//! a record that can be read. Handlers read the image and change it; the
//! actions they answer with say what has to be written out.

use vstd::prelude::*;
use super::channel::{Channel, ChannelView};
use super::derp::DerpCounter;
use super::user::{User, UserView};
use crate::namemap::NameMap;

verus! {

/// Why a record could not be loaded.
#[derive(Debug, Clone, Copy, PartialEq, Eq, Structural)]
pub enum StoreError {
    /// The store lists no such name.
    Missing,
    /// The name is listed, but its record cannot be read.
    Unreadable,
}

/// The image of the stored records.
pub struct Store {
    channels: NameMap<Option<Channel>>,
    users: NameMap<Option<User>>,
    derps: Option<DerpCounter>,
}

/// What the store holds. A listed name maps to its record, or to `None`
/// where the record cannot be read.
pub struct StoreView {
    pub channels: Map<Seq<char>, Option<ChannelView>>,
    /// The listed channel names, in the order in which they came.
    pub channel_names: Seq<Seq<char>>,
    pub users: Map<Seq<char>, Option<UserView>>,
    /// The derp count, or `None` where it cannot be read.
    pub derps: Option<nat>,
}

impl StoreView {
    /// Whether a channel of that name is listed.
    pub open spec fn channel_listed(self, name: Seq<char>) -> bool {
        self.channels.dom().contains(name)
    }

    /// The record of a channel, where it is listed and can be read.
    pub open spec fn channel(self, name: Seq<char>) -> Option<ChannelView> {
        if self.channel_listed(name) {
            self.channels[name]
        } else {
            None
        }
    }

    /// Whether a user of that nickname is listed.
    pub open spec fn user_listed(self, name: Seq<char>) -> bool {
        self.users.dom().contains(name)
    }

    /// The record of a user, where it is listed and can be read.
    pub open spec fn user(self, name: Seq<char>) -> Option<UserView> {
        if self.user_listed(name) {
            self.users[name]
        } else {
            None
        }
    }

    /// The store after a channel record was saved.
    pub open spec fn with_channel(self, c: ChannelView) -> StoreView {
        StoreView {
            channels: self.channels.insert(c.name, Some(c)),
            channel_names: if self.channels.dom().contains(c.name) {
                self.channel_names
            } else {
                self.channel_names.push(c.name)
            },
            ..self
        }
    }

    /// The store after a user record was saved.
    pub open spec fn with_user(self, u: UserView) -> StoreView {
        StoreView { users: self.users.insert(u.nickname, Some(u)), ..self }
    }

    /// The store after the derp counter was saved.
    pub open spec fn with_derps(self, n: nat) -> StoreView {
        StoreView { derps: Some(n), ..self }
    }
}

/// What was saved can be loaded, and saving a record leaves the records
/// under other names alone.
pub proof fn saved_records_are_kept(
    store: StoreView,
    c: ChannelView,
    u: UserView,
    other: Seq<char>,
)
    ensures
        store.with_channel(c).channel(c.name) == Some(c),
        store.with_channel(c).channel_listed(c.name),
        other != c.name ==> store.with_channel(c).channel(other) == store.channel(other),
        other != c.name ==> store.with_channel(c).channel_listed(other) == store.channel_listed(
            other,
        ),
        store.with_channel(c).users == store.users,
        store.with_user(u).user(u.nickname) == Some(u),
        store.with_user(u).user_listed(u.nickname),
        other != u.nickname ==> store.with_user(u).user(other) == store.user(other),
        other != u.nickname ==> store.with_user(u).user_listed(other) == store.user_listed(other),
        store.with_user(u).channels == store.channels,
{
}

/// What a slot for a channel holds.
pub open spec fn channel_view(c: Option<Channel>) -> Option<ChannelView> {
    match c {
        Some(c) => Some(c@),
        None => None,
    }
}

/// What a slot for a user holds.
pub open spec fn user_view(u: Option<User>) -> Option<UserView> {
    match u {
        Some(u) => Some(u@),
        None => None,
    }
}

impl View for Store {
    type V = StoreView;

    closed spec fn view(&self) -> StoreView {
        StoreView {
            channels: Map::new(
                |n: Seq<char>| self.channels.has(n),
                |n: Seq<char>| channel_view(self.channels.at(n)),
            ),
            channel_names: self.channels.keys(),
            users: Map::new(
                |n: Seq<char>| self.users.has(n),
                |n: Seq<char>| user_view(self.users.at(n)),
            ),
            derps: match self.derps {
                Some(c) => Some(c.value()),
                None => None,
            },
        }
    }
}

impl Store {
    /// No name is listed twice.
    pub closed spec fn wf(&self) -> bool {
        self.channels.wf() && self.users.wf()
    }

    /// Whether a channel of that name is listed.
    pub open spec fn channel_listed(&self, name: Seq<char>) -> bool {
        self@.channel_listed(name)
    }

    /// The record of a channel, where it is listed and can be read.
    pub open spec fn channel(&self, name: Seq<char>) -> Option<ChannelView> {
        self@.channel(name)
    }

    /// Whether a user of that nickname is listed.
    pub open spec fn user_listed(&self, name: Seq<char>) -> bool {
        self@.user_listed(name)
    }

    /// The record of a user, where it is listed and can be read.
    pub open spec fn user(&self, name: Seq<char>) -> Option<UserView> {
        self@.user(name)
    }

    /// A store with nothing in it; its derp counter stands at zero.
    pub fn new() -> (s: Store)
        ensures
            s.wf(),
            s@ == (StoreView {
                channels: Map::empty(),
                channel_names: Seq::empty(),
                users: Map::empty(),
                derps: Some(0nat),
            }),
    {
        let s = Store { channels: NameMap::new(), users: NameMap::new(), derps: Some(DerpCounter::of(0)) };
        assert(s@.channels =~= Map::empty());
        assert(s@.users =~= Map::empty());
        s
    }

    /// Whether a channel of that name is listed.
    pub fn channel_exists(&self, name: &str) -> (r: bool)
        requires
            self.wf(),
        ensures
            r == self.channel_listed(name@),
    {
        self.channels.contains_key(name)
    }

    /// The record of a channel: a copy of it, or why there is none.
    pub fn load_channel(&self, name: &str) -> (r: Result<Channel, StoreError>)
        requires
            self.wf(),
        ensures
            match r {
                Ok(c) => self.channel(name@) == Some(c@),
                Err(StoreError::Missing) => !self.channel_listed(name@),
                Err(StoreError::Unreadable) => self.channel_listed(name@) && self.channel(name@)
                    is None,
            },
    {
        match self.channels.find(name) {
            Some(i) => match self.channels.item(i) {
                Some(c) => Ok(c.copy()),
                None => Err(StoreError::Unreadable),
            },
            None => Err(StoreError::Missing),
        }
    }

    /// Lists `c` under its name, in place of what the name had.
    pub fn put_channel(&mut self, c: Channel)
        requires
            old(self).wf(),
        ensures
            final(self).wf(),
            final(self)@ == old(self)@.with_channel(c@),
    {
        let name = c.name.clone();
        self.channels.insert(name.as_str(), Some(c));
        assert(self@.channels =~= old(self)@.with_channel(c@).channels);
    }

    /// Lists a channel name whose record cannot be read.
    pub fn put_unreadable_channel(&mut self, name: &str)
        requires
            old(self).wf(),
        ensures
            final(self).wf(),
            final(self)@ == (StoreView {
                channels: old(self)@.channels.insert(name@, None),
                channel_names: if old(self).channel_listed(name@) {
                    old(self)@.channel_names
                } else {
                    old(self)@.channel_names.push(name@)
                },
                ..old(self)@
            }),
    {
        self.channels.insert(name, None);
        assert(self@.channels =~= old(self)@.channels.insert(name@, None));
    }

    /// The listed channel names, in the order in which they came.
    pub fn channel_names(&self) -> (r: Vec<String>)
        requires
            self.wf(),
        ensures
            crate::text::texts(r@) == self@.channel_names,
    {
        let mut r: Vec<String> = Vec::new();
        let mut i: usize = 0;
        while i < self.channels.len()
            invariant
                self.wf(),
                i <= self.channels.keys().len(),
                r.len() == i,
                forall|j: int| 0 <= j < i ==> r[j]@ == self.channels.keys()[j],
            decreases self.channels.keys().len() - i,
        {
            r.push(self.channels.key(i).clone());
            i = i + 1;
        }
        r
    }

    /// Whether a user of that nickname is listed.
    pub fn user_exists(&self, name: &str) -> (r: bool)
        requires
            self.wf(),
        ensures
            r == self.user_listed(name@),
    {
        self.users.contains_key(name)
    }

    /// The record of a user: a copy of it, or why there is none.
    pub fn load_user(&self, name: &str) -> (r: Result<User, StoreError>)
        requires
            self.wf(),
        ensures
            match r {
                Ok(u) => self.user(name@) == Some(u@),
                Err(StoreError::Missing) => !self.user_listed(name@),
                Err(StoreError::Unreadable) => self.user_listed(name@) && self.user(name@) is None,
            },
    {
        match self.users.find(name) {
            Some(i) => match self.users.item(i) {
                Some(u) => Ok(u.copy()),
                None => Err(StoreError::Unreadable),
            },
            None => Err(StoreError::Missing),
        }
    }

    /// Lists `u` under its nickname, in place of what the name had.
    pub fn put_user(&mut self, u: User)
        requires
            old(self).wf(),
        ensures
            final(self).wf(),
            final(self)@ == old(self)@.with_user(u@),
    {
        let name = u.nickname.clone();
        self.users.insert(name.as_str(), Some(u));
        assert(self@.users =~= old(self)@.with_user(u@).users);
    }

    /// Lists a nickname whose record cannot be read.
    pub fn put_unreadable_user(&mut self, name: &str)
        requires
            old(self).wf(),
        ensures
            final(self).wf(),
            final(self)@ == (StoreView {
                users: old(self)@.users.insert(name@, None),
                ..old(self)@
            }),
    {
        self.users.insert(name, None);
        assert(self@.users =~= old(self)@.users.insert(name@, None));
    }

    /// The derp counter, where it can be read.
    pub fn load_derps(&self) -> (r: Result<DerpCounter, StoreError>)
        ensures
            match r {
                Ok(c) => self@.derps == Some(c.value()),
                Err(e) => e == StoreError::Unreadable && self@.derps is None,
            },
    {
        match self.derps {
            Some(c) => Ok(c),
            None => Err(StoreError::Unreadable),
        }
    }

    /// Replaces the derp counter.
    pub fn put_derps(&mut self, c: DerpCounter)
        requires
            old(self).wf(),
        ensures
            final(self).wf(),
            final(self)@ == old(self)@.with_derps(c.value()),
    {
        self.derps = Some(c);
    }

    /// Records that the derp counter cannot be read.
    pub fn put_unreadable_derps(&mut self)
        requires
            old(self).wf(),
        ensures
            final(self).wf(),
            final(self)@ == (StoreView { derps: None, ..old(self)@ }),
    {
        self.derps = None;
    }
}

} // verus!
