//! What the services remember while they run: who is identified, and the
//! session of each channel.

use vstd::prelude::*;
use crate::data::channel::Channel;
use crate::data::democracy::{Booth, Democracy};
use crate::data::resistance::{Game, Resistance};
use crate::data::store::{Store, StoreView};
use crate::namemap::NameMap;
use crate::text::{differs_from, holds, texts, without};

verus! {

/// The running state of the services.
pub struct State {
    /// The nicknames that have identified. A nickname may be entered more
    /// than once; it counts as identified as long as it is entered at all.
    pub identified: Vec<String>,
    /// The game of Resistance of each channel that has one.
    pub resistance: NameMap<Resistance>,
    /// The voting booth of each registered channel.
    pub democracy: NameMap<Democracy>,
}

/// What the state holds: who is identified, and the picture of each game
/// and each booth by channel.
pub struct StateView {
    pub identified: Seq<Seq<char>>,
    pub games: Map<Seq<char>, Game>,
    pub booths: Map<Seq<char>, Booth>,
}

/// A list of names without `name`: every entry that reads `name` leaves,
/// however often the name was entered, and the others stay in their order.
pub open spec fn forgotten(list: Seq<Seq<char>>, name: Seq<char>) -> Seq<Seq<char>> {
    list.filter(differs_from(name))
}

/// A name that was forgotten is not in the list any more, and every other
/// name is in the list exactly if it was before.
pub proof fn forgotten_is_gone(list: Seq<Seq<char>>, name: Seq<char>)
    ensures
        !forgotten(list, name).contains(name),
        forall|other: Seq<char>|
            other != name ==> (#[trigger] forgotten(list, name).contains(other) == list.contains(
                other,
            )),
{
    let keep = differs_from(name);
    let left = list.filter(keep);
    if left.contains(name) {
        let i = left.index_of(name);
        list.lemma_filter_pred(keep, i);
    }
    assert forall|other: Seq<char>| other != name implies (#[trigger] left.contains(other)
        == list.contains(other)) by {
        if left.contains(other) {
            list.lemma_filter_contains_rev(keep, other);
        }
        if list.contains(other) {
            let i = list.index_of(other);
            assert(keep(list[i]));
            list.lemma_filter_contains(keep, i);
        }
    }
}

/// The test that a name is in `list`.
pub open spec fn listed_in(list: Seq<Seq<char>>) -> spec_fn(Seq<char>) -> bool {
    |name: Seq<char>| list.contains(name)
}

/// How many users have voice in a channel and are among the identified;
/// zero for a channel without a readable record.
pub open spec fn online_pop(identified: Seq<Seq<char>>, store: StoreView, chan: Seq<char>) -> nat {
    match store.channel(chan) {
        Some(c) => c.voice.filter(listed_in(identified)).len(),
        None => 0,
    }
}

/// How many users have voice in a channel; zero for a channel without a
/// readable record.
pub open spec fn full_pop(store: StoreView, chan: Seq<char>) -> nat {
    match store.channel(chan) {
        Some(c) => c.voice.len(),
        None => 0,
    }
}

/// Whether `user` has voice in a channel.
pub open spec fn has_voice(store: StoreView, user: Seq<char>, chan: Seq<char>) -> bool {
    match store.channel(chan) {
        Some(c) => c.voice.contains(user),
        None => false,
    }
}

impl View for State {
    type V = StateView;

    open spec fn view(&self) -> StateView {
        StateView {
            identified: texts(self.identified@),
            games: Map::new(
                |chan: Seq<char>| self.resistance.has(chan),
                |chan: Seq<char>| self.resistance.at(chan)@,
            ),
            booths: Map::new(
                |chan: Seq<char>| self.democracy.has(chan),
                |chan: Seq<char>| self.democracy.at(chan)@,
            ),
        }
    }
}

impl State {
    /// Every channel has at most one game and one booth; every game is a
    /// proper game that is not over yet, and every booth a proper booth.
    pub open spec fn wf(&self) -> bool {
        &&& self.resistance.wf()
        &&& self.democracy.wf()
        &&& forall|i: int|
            0 <= i < self.resistance.values().len() ==> {
                &&& (#[trigger] self.resistance.values()[i]).wf()
                &&& !self.resistance.values()[i]@.is_complete()
            }
        &&& forall|i: int|
            0 <= i < self.democracy.values().len() ==> (#[trigger] self.democracy.values()[i]).wf()
    }

    /// Nobody is identified, and no channel has a session.
    pub fn new() -> (s: State)
        ensures
            s.wf(),
            s@ == (StateView {
                identified: Seq::empty(),
                games: Map::empty(),
                booths: Map::empty(),
            }),
    {
        let s = State {
            identified: Vec::new(),
            resistance: NameMap::new(),
            democracy: NameMap::new(),
        };
        assert(s@.identified =~= Seq::empty());
        assert(s@.games =~= Map::empty());
        assert(s@.booths =~= Map::empty());
        s
    }

    /// Notes that `nick` has identified.
    pub fn identify(&mut self, nick: &str)
        ensures
            final(self)@ == (StateView {
                identified: old(self)@.identified.push(nick@),
                ..old(self)@
            }),
            final(self).resistance == old(self).resistance,
            final(self).democracy == old(self).democracy,
    {
        let owned = nick.to_owned();
        assert(texts(self.identified@.push(owned)) =~= texts(self.identified@).push(nick@));
        self.identified.push(owned);
    }

    /// Whether `nick` has identified.
    pub fn is_identified(&self, nick: &str) -> (r: bool)
        ensures
            r == self@.identified.contains(nick@),
    {
        holds(&self.identified, nick)
    }

    /// Forgets that `nick` has identified, however often it did: `nick`
    /// is not identified afterwards, and for everyone else nothing changes.
    pub fn remove(&mut self, nick: &str)
        ensures
            final(self).resistance == old(self).resistance,
            final(self).democracy == old(self).democracy,
            final(self)@.identified == forgotten(old(self)@.identified, nick@),
            !final(self)@.identified.contains(nick@),
            forall|other: Seq<char>|
                other != nick@ ==> (#[trigger] final(self)@.identified.contains(other) == old(
                    self,
                )@.identified.contains(other)),
    {
        self.identified = without(&self.identified, nick);
        proof {
            forgotten_is_gone(old(self)@.identified, nick@);
        }
    }

    /// Whether nobody is identified.
    pub fn no_users_identified(&self) -> (r: bool)
        ensures
            r == (self@.identified.len() == 0),
    {
        self.identified.len() == 0
    }

    /// The games of Resistance, by channel.
    pub fn get_games(&self) -> (r: &NameMap<Resistance>)
        ensures
            *r == self.resistance,
    {
        &self.resistance
    }

    /// The voting booths, by channel.
    pub fn get_votes(&self) -> (r: &NameMap<Democracy>)
        ensures
            *r == self.democracy,
    {
        &self.democracy
    }

    /// How many users have voice in a channel and are identified.
    pub open spec fn online_voting_pop(&self, store: &Store, chan: Seq<char>) -> nat {
        online_pop(self@.identified, store@, chan)
    }

    /// How many users have voice in a channel.
    pub open spec fn voting_pop(store: &Store, chan: Seq<char>) -> nat {
        full_pop(store@, chan)
    }

    /// Whether `user` has voice in a channel.
    pub open spec fn voiced(store: &Store, user: Seq<char>, chan: Seq<char>) -> bool {
        has_voice(store@, user, chan)
    }

    /// How many users may vote on a proposal that is put to those present:
    /// the users with voice in the channel who are identified.
    pub fn get_online_voting_pop(&self, store: &Store, chan: &str) -> (n: usize)
        requires
            store.wf(),
        ensures
            n == self.online_voting_pop(store, chan@),
    {
        match Channel::load(store, chan) {
            Ok(c) => {
                let ghost keep = listed_in(self@.identified);
                let ghost voice = texts(c.voice@);
                let mut n: usize = 0;
                let mut i: usize = 0;
                while i < c.voice.len()
                    invariant
                        i <= c.voice.len(),
                        keep == listed_in(self@.identified),
                        voice == texts(c.voice@),
                        n <= i,
                        n == voice.take(i as int).filter(keep).len(),
                    decreases c.voice.len() - i,
                {
                    proof {
                        assert(voice.take(i + 1).drop_last() =~= voice.take(i as int));
                        reveal(Seq::filter);
                    }
                    if self.is_identified(c.voice[i].as_str()) {
                        n = n + 1;
                    }
                    i = i + 1;
                }
                assert(voice.take(i as int) =~= voice);
                n
            },
            Err(_) => 0,
        }
    }

    /// How many users may vote on a proposal that is put to everyone: the
    /// users with voice in the channel.
    pub fn get_voting_pop(&self, store: &Store, chan: &str) -> (n: usize)
        requires
            store.wf(),
        ensures
            n == Self::voting_pop(store, chan@),
    {
        match Channel::load(store, chan) {
            Ok(c) => c.voice.len(),
            Err(_) => 0,
        }
    }

    /// Whether `user` has voice in the channel.
    pub fn is_voiced(&self, store: &Store, user: &str, chan: &str) -> (r: bool)
        requires
            store.wf(),
        ensures
            r == Self::voiced(store, user@, chan@),
    {
        match Channel::load(store, chan) {
            Ok(c) => holds(&c.voice, user),
            Err(_) => false,
        }
    }

    /// A user with voice who is identified is one of those who may vote,
    /// whichever way the proposal is put.
    pub proof fn voter_counts(&self, store: &Store, user: Seq<char>, chan: Seq<char>)
        requires
            Self::voiced(store, user, chan),
            self@.identified.contains(user),
        ensures
            Self::voting_pop(store, chan) > 0,
            self.online_voting_pop(store, chan) > 0,
    {
        let c = store.channel(chan)->Some_0;
        let keep = listed_in(self@.identified);
        let i = c.voice.index_of(user);
        c.voice.lemma_filter_contains(keep, i);
    }
}

} // verus!
