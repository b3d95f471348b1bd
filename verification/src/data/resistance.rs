//! A game of Resistance, played in one channel.
//!
//! The rules are stated once, as functions on `Game`, the mathematical
//! picture of a session: each takes the game and an event and gives the game
//! afterwards together with the lines to send. The methods of `Resistance`
//! are proved to do exactly that.

use vstd::prelude::*;
use vstd::string::*;
use vstd::seq_lib::*;
use rand::seq::SliceRandom;
use crate::namemap::NameMap;
use crate::text::{
    copied, debug_list, debug_of, decimal, decimal_text, holds, joined, same, split_words, texts,
    words,
};
use crate::wire::{lines, no_lines, one_line, privmsg, push_line, Directive, Line};

verus! {

/// A vote on a proposal or on a mission.
#[derive(Debug, Clone, Copy, PartialEq, Eq, Structural)]
pub enum Vote {
    /// Yea.
    Success,
    /// Nay.
    Failure,
    NotYetVoted,
}

/// How many of `n` players are spies: four tenths of them, rounded to the
/// nearest whole number.
pub open spec fn spy_count(n: nat) -> nat {
    (4 * n + 5) / 10
}

/// The entry of a row of the mission-size table for a mission, counted from
/// zero; zero past the fifth mission.
pub open spec fn row_entry(mission: nat, m1: nat, m2: nat, m3: nat, m4: nat, m5: nat) -> nat {
    if mission == 0 {
        m1
    } else if mission == 1 {
        m2
    } else if mission == 2 {
        m3
    } else if mission == 3 {
        m4
    } else if mission == 4 {
        m5
    } else {
        0
    }
}

/// How many members a mission takes, by the number of players and by the
/// mission, counted from zero.
pub open spec fn mission_size(players: nat, mission: nat) -> nat {
    if players > 7 {
        row_entry(mission, 3, 4, 4, 5, 5)
    } else if players == 7 {
        row_entry(mission, 2, 3, 3, 4, 4)
    } else if players == 6 {
        row_entry(mission, 2, 3, 4, 3, 4)
    } else {
        row_entry(mission, 2, 3, 2, 3, 3)
    }
}

/// Whether one order of names is a rearrangement of another.
pub open spec fn is_shuffle(a: Seq<Seq<char>>, b: Seq<Seq<char>>) -> bool {
    a.to_multiset() == b.to_multiset()
}

/// A rearrangement has the same length and the same names, and repeats a
/// name only if the other order does.
pub proof fn shuffle_keeps(a: Seq<Seq<char>>, b: Seq<Seq<char>>)
    requires
        is_shuffle(a, b),
    ensures
        a.len() == b.len(),
        forall|x: Seq<char>| a.contains(x) <==> b.contains(x),
        b.no_duplicates() ==> a.no_duplicates(),
{
    to_multiset_len(a);
    to_multiset_len(b);
    assert forall|x: Seq<char>| a.contains(x) <==> b.contains(x) by {
        to_multiset_contains(a, x);
        to_multiset_contains(b, x);
    }
    if b.no_duplicates() {
        b.lemma_multiset_has_no_duplicates();
        a.lemma_multiset_has_no_duplicates_conv();
    }
}

/// How many of the votes are `v`.
pub open spec fn tally(votes: Seq<Vote>, v: Vote) -> nat
    decreases votes.len(),
{
    if votes.len() == 0 {
        0
    } else {
        tally(votes.drop_last(), v) + if votes.last() == v {
            1nat
        } else {
            0nat
        }
    }
}

/// The outcome of the vote on a proposal: open while anyone has yet to
/// vote, then accepted by a strict majority of yeas and rejected otherwise.
pub open spec fn proposal_result(votes: Seq<Vote>) -> Vote {
    if tally(votes, Vote::NotYetVoted) > 0 {
        Vote::NotYetVoted
    } else if tally(votes, Vote::Success) > tally(votes, Vote::Failure) {
        Vote::Success
    } else {
        Vote::Failure
    }
}

/// The outcome of a mission: open while a member has yet to vote; then a
/// success if nobody sabotaged it, or if one did and the mission is
/// `special`; a failure otherwise.
pub open spec fn mission_result(votes: Seq<Vote>, special: bool) -> Vote {
    if tally(votes, Vote::NotYetVoted) > 0 {
        Vote::NotYetVoted
    } else if tally(votes, Vote::Failure) == 0 || (special && tally(votes, Vote::Failure) == 1) {
        Vote::Success
    } else {
        Vote::Failure
    }
}

/// Whether a vote token means yea: it starts with `y` or `Y`.
pub open spec fn says_yea(token: Seq<char>) -> bool {
    token.len() > 0 && (token[0] == 'y' || token[0] == 'Y')
}

/// Whether a vote token means nay: it starts with `n` or `N`.
pub open spec fn says_nay(token: Seq<char>) -> bool {
    token.len() > 0 && (token[0] == 'n' || token[0] == 'N')
}

/// Who may vote, and how each has voted.
pub struct Ballot {
    pub voters: Seq<Seq<char>>,
    pub votes: Seq<Vote>,
}

impl Ballot {
    /// Every voter has a vote, and nobody is listed twice.
    pub open spec fn wf(self) -> bool {
        self.voters.len() == self.votes.len() && self.voters.no_duplicates()
    }

    /// A ballot without voters.
    pub open spec fn empty() -> Ballot {
        Ballot { voters: Seq::empty(), votes: Seq::empty() }
    }

    /// The ballot after `name` voted `vote`: in place of the earlier vote of
    /// `name`, or as a new entry.
    pub open spec fn cast(self, name: Seq<char>, vote: Vote) -> Ballot {
        if self.voters.contains(name) {
            Ballot { votes: self.votes.update(self.voters.index_of(name), vote), ..self }
        } else {
            Ballot { voters: self.voters.push(name), votes: self.votes.push(vote) }
        }
    }

    /// The ballot after each of `names` in turn was entered as not having
    /// voted yet.
    pub open spec fn opened(self, names: Seq<Seq<char>>) -> Ballot
        decreases names.len(),
    {
        if names.len() == 0 {
            self
        } else {
            self.opened(names.drop_last()).cast(names.last(), Vote::NotYetVoted)
        }
    }
}

/// The picture of a session that the rules speak of.
pub struct Game {
    pub chan: Seq<char>,
    pub started: bool,
    pub players: Seq<Seq<char>>,
    pub rebels: Seq<Seq<char>>,
    pub spies: Seq<Seq<char>>,
    pub missions_won: nat,
    pub missions_run: nat,
    pub rejected_proposals: nat,
    pub leader: Seq<char>,
    pub proposed_members: Seq<Seq<char>>,
    /// The vote on the pending proposal.
    pub votes_for_mission: Ballot,
    /// The vote of the members on the mission under way.
    pub mission_votes: Ballot,
}

// The texts that the game sends, word for word.

pub open spec fn text_already_begun() -> Seq<char> {
    "The game has already begun!"@
}

pub open spec fn text_need_five() -> Seq<char> {
    "You need at least five players to play."@
}

pub open spec fn text_begun() -> Seq<char> {
    "The game has begun!"@
}

pub open spec fn text_first_mission(size: nat) -> Seq<char> {
    "The first mission requires "@ + decimal_text(size) + " participants."@
}

pub open spec fn text_spy(chan: Seq<char>) -> Seq<char> {
    "You're a spy in "@ + chan + "."@
}

pub open spec fn text_rebel(chan: Seq<char>) -> Seq<char> {
    "You're a rebel in "@ + chan + "."@
}

pub open spec fn text_roster(spies: Seq<Seq<char>>) -> Seq<char> {
    "Spies: "@ + debug_of(spies)
}

pub open spec fn text_in_progress() -> Seq<char> {
    "Sorry, the game is already in progress!"@
}

pub open spec fn text_already_joined() -> Seq<char> {
    "You've already joined this game!"@
}

pub open spec fn text_joined() -> Seq<char> {
    "You've joined the game. You'll get your position when it starts."@
}

pub open spec fn text_full() -> Seq<char> {
    "Sorry, the game is full!"@
}

pub open spec fn text_mission_size(number: nat, size: nat) -> Seq<char> {
    "Mission "@ + decimal_text(number) + " should have "@ + decimal_text(size) + " members."@
}

pub open spec fn text_went_wrong() -> Seq<char> {
    "Something went wrong."@
}

pub open spec fn text_only_players() -> Seq<char> {
    "Proposals must only include registered players."@
}

pub open spec fn text_proposed(members: Seq<Seq<char>>) -> Seq<char> {
    "Proposed mission: "@ + debug_of(members)
}

pub open spec fn text_not_in_game() -> Seq<char> {
    "You're not involved in this game."@
}

pub open spec fn text_no_proposal() -> Seq<char> {
    "There is no current mission proposal."@
}

pub open spec fn text_vote_cast() -> Seq<char> {
    "A vote has been cast."@
}

pub open spec fn text_yea_or_nay() -> Seq<char> {
    "You must vote yea or nay."@
}

pub open spec fn text_live() -> Seq<char> {
    "The mission is now live!"@
}

pub open spec fn text_rejected(rejected: nat, leader: Seq<char>) -> Seq<char> {
    "The proposal was rejected ("@ + decimal_text(rejected) + " / 5). The new leader is "@ + leader
        + "."@
}

pub open spec fn text_no_mission() -> Seq<char> {
    "There is no mission in progress."@
}

pub open spec fn text_not_in_mission() -> Seq<char> {
    "You're not involved in this mission."@
}

pub open spec fn text_your_vote_cast() -> Seq<char> {
    "Your vote has been cast."@
}

/// What follows the result of a mission: the score, the new leader and the
/// size of the next mission.
pub open spec fn text_score(won: nat, run: nat, leader: Seq<char>, size: nat) -> Seq<char> {
    " (S: "@ + decimal_text(won) + " / "@ + decimal_text(run) + "). The new leader is "@ + leader
        + ". The next mission requires "@ + decimal_text(size) + " participants."@
}

pub open spec fn text_success(won: nat, run: nat, leader: Seq<char>, size: nat) -> Seq<char> {
    "The mission was a success"@ + text_score(won, run, leader, size)
}

pub open spec fn text_failure(fails: nat, won: nat, run: nat, leader: Seq<char>, size: nat) -> Seq<
    char,
> {
    "The mission was a failure with "@ + decimal_text(fails) + " saboteurs"@ + text_score(
        won,
        run,
        leader,
        size,
    )
}

pub open spec fn text_rebels_win() -> Seq<char> {
    "Game over: Rebels win!"@
}

pub open spec fn text_spies_win() -> Seq<char> {
    "Game over: Spies win!"@
}

pub open spec fn text_players(players: Seq<Seq<char>>) -> Seq<char> {
    "Players: "@ + debug_of(players)
}

impl Game {
    /// What always holds of a session.
    pub open spec fn wf(self) -> bool {
        &&& 1 <= self.players.len() <= 10
        &&& self.players.no_duplicates()
        &&& self.players.contains(self.leader)
        &&& self.missions_won <= self.missions_run <= 5
        &&& self.missions_won <= 3
        &&& self.rejected_proposals <= 5
        &&& self.votes_for_mission.wf()
        &&& self.mission_votes.wf()
        &&& (self.proposed_members.len() > 0 || self.mission_votes.voters.len() > 0
            ==> self.started)
        &&& (self.started ==> {
            &&& self.players.len() >= 5
            &&& self.spies.len() == spy_count(self.players.len())
            &&& is_shuffle(self.spies + self.rebels, self.players)
        })
        &&& (!self.started ==> self.spies.len() == 0 && self.rebels.len() == 0)
    }

    /// The session that `user` opens in `chan`.
    pub open spec fn new_game(user: Seq<char>, chan: Seq<char>) -> Game {
        Game {
            chan,
            started: false,
            players: seq![user],
            rebels: Seq::empty(),
            spies: Seq::empty(),
            missions_won: 0,
            missions_run: 0,
            rejected_proposals: 0,
            leader: user,
            proposed_members: Seq::empty(),
            votes_for_mission: Ballot::empty(),
            mission_votes: Ballot::empty(),
        }
    }

    /// The game is over once five missions were run, three were won, three
    /// were lost, or five proposals in a row were rejected.
    pub open spec fn is_complete(self) -> bool {
        self.missions_run == 5 || self.missions_won == 3 || self.rejected_proposals == 5
            || self.missions_run - self.missions_won >= 3
    }

    /// How many members the next mission takes.
    pub open spec fn next_mission_size(self) -> nat {
        mission_size(self.players.len(), self.missions_run)
    }

    /// The one line of saying `text` in the channel of the game.
    pub open spec fn say(self, text: Seq<char>) -> Seq<Line> {
        seq![privmsg(self.chan, text)]
    }

    /// A user asks to join.
    pub open spec fn add_player(self, nick: Seq<char>) -> (Game, Seq<Line>) {
        if self.started {
            (self, self.say(text_in_progress()))
        } else if self.players.contains(nick) {
            (self, self.say(text_already_joined()))
        } else if self.players.len() < 10 {
            (Game { players: self.players.push(nick), ..self }, seq![privmsg(nick, text_joined())])
        } else {
            (self, self.say(text_full()))
        }
    }

    /// What the players are told at the start, `order` being the order in
    /// which they were shuffled: each their role, the spies who the spies
    /// are, the channel that the game has begun and the size of the first
    /// mission.
    pub open spec fn start_lines(self, order: Seq<Seq<char>>) -> Seq<Line> {
        let k = spy_count(order.len());
        Seq::new(
            order.len(),
            |i: int|
                privmsg(
                    order[i],
                    if i < k {
                        text_spy(self.chan)
                    } else {
                        text_rebel(self.chan)
                    },
                ),
        ) + Seq::new(k, |i: int| privmsg(order[i], text_roster(order.take(k as int)))) + seq![
            privmsg(self.chan, text_begun()),
            privmsg(self.chan, text_first_mission(mission_size(order.len(), self.missions_run))),
        ]
    }

    /// Someone asks to start the game; `order` is the order in which the
    /// players are shuffled if it starts.
    pub open spec fn start(self, order: Seq<Seq<char>>) -> (Game, Seq<Line>) {
        if self.started {
            (self, self.say(text_already_begun()))
        } else if self.players.len() > 4 {
            let k = spy_count(order.len());
            (
                Game {
                    started: true,
                    players: order,
                    spies: order.take(k as int),
                    rebels: order.skip(k as int),
                    ..self
                },
                self.start_lines(order),
            )
        } else {
            (self, self.say(text_need_five()))
        }
    }

    /// Whether a proposal of `len` members has the size that the coming
    /// mission takes.
    pub open spec fn valid_size(self, len: nat) -> bool {
        self.missions_run < 5 && len == self.next_mission_size()
    }

    /// What a proposal of the wrong size is answered with.
    pub open spec fn size_complaint(self, len: nat) -> Seq<Line> {
        if self.valid_size(len) {
            Seq::empty()
        } else if self.missions_run < 5 {
            self.say(text_mission_size(self.missions_run + 1, self.next_mission_size()))
        } else {
            self.say(text_went_wrong())
        }
    }

    /// Whether every one of `members` is a player.
    pub open spec fn all_players(self, members: Seq<Seq<char>>) -> bool {
        forall|i: int| 0 <= i < members.len() ==> self.players.contains(#[trigger] members[i])
    }

    /// `user` proposes the members named in `users` for the coming mission.
    pub open spec fn propose_mission(self, user: Seq<char>, users: Seq<char>) -> (Game, Seq<Line>) {
        let members = split_words(users);
        if self.proposed_members.len() > 0 || user != self.leader || !self.started {
            (self, Seq::empty())
        } else if !self.all_players(members) {
            (self, self.size_complaint(members.len()) + self.say(text_only_players()))
        } else if self.valid_size(members.len()) {
            (
                Game {
                    proposed_members: members,
                    votes_for_mission: self.votes_for_mission.opened(self.rebels).opened(
                        self.spies,
                    ),
                    ..self
                },
                self.say(text_proposed(members)),
            )
        } else {
            (self, self.size_complaint(members.len()))
        }
    }

    /// The game with its players in a new order and a new leader: the
    /// first in that order who is not the leader now.
    pub open spec fn with_new_leader(self, order: Seq<Seq<char>>) -> Game {
        Game {
            players: order,
            leader: if order[0] == self.leader {
                order[1]
            } else {
                order[0]
            },
            ..self
        }
    }

    /// The game once the pending proposal was accepted: its members vote
    /// on the mission.
    pub open spec fn run_mission(self) -> Game {
        Game {
            mission_votes: self.mission_votes.opened(self.proposed_members),
            proposed_members: Seq::empty(),
            rejected_proposals: 0,
            ..self
        }
    }

    /// `user` votes on the pending proposal; `order` is the order in which
    /// the players are shuffled if the proposal is rejected.
    pub open spec fn cast_proposal_vote(
        self,
        user: Seq<char>,
        token: Seq<char>,
        order: Seq<Seq<char>>,
    ) -> (Game, Seq<Line>) {
        if !self.players.contains(user) {
            (self, seq![privmsg(user, text_not_in_game())])
        } else if self.proposed_members.len() == 0 {
            (self, seq![privmsg(user, text_no_proposal())])
        } else if !says_yea(token) && !says_nay(token) {
            (self, self.say(text_yea_or_nay()))
        } else {
            let vote = if says_yea(token) {
                Vote::Success
            } else {
                Vote::Failure
            };
            let cast = Game { votes_for_mission: self.votes_for_mission.cast(user, vote), ..self };
            let result = proposal_result(cast.votes_for_mission.votes);
            if result == Vote::NotYetVoted {
                (cast, self.say(text_vote_cast()))
            } else if result == Vote::Success {
                (cast.run_mission(), self.say(text_vote_cast()) + self.say(text_live()))
            } else {
                let next = Game {
                    rejected_proposals: cast.rejected_proposals + 1,
                    proposed_members: Seq::empty(),
                    ..cast.with_new_leader(order)
                };
                (
                    next,
                    self.say(text_vote_cast()) + self.say(
                        text_rejected(next.rejected_proposals, next.leader),
                    ) + if next.is_complete() {
                        seq![next.winner_line()]
                    } else {
                        Seq::empty()
                    },
                )
            }
        }
    }

    /// Whether one saboteur is tolerated on the coming mission: on the
    /// fifth, with more than six players.
    pub open spec fn special(self) -> bool {
        self.missions_run == 4 && self.players.len() > 6
    }

    /// Who has won a finished game.
    pub open spec fn winner_line(self) -> Line {
        privmsg(
            self.chan,
            if self.missions_won == 3 {
                text_rebels_win()
            } else {
                text_spies_win()
            },
        )
    }

    /// `user` votes on the mission under way; `order` is the order in which
    /// the players are shuffled once the mission is decided.
    pub open spec fn cast_mission_vote(
        self,
        user: Seq<char>,
        token: Seq<char>,
        order: Seq<Seq<char>>,
    ) -> (Game, Seq<Line>) {
        if !self.players.contains(user) {
            (self, seq![privmsg(user, text_not_in_game())])
        } else if self.mission_votes.voters.len() == 0 {
            (self, seq![privmsg(user, text_no_mission())])
        } else if !self.mission_votes.voters.contains(user) {
            (self, seq![privmsg(user, text_not_in_mission())])
        } else if !says_yea(token) && !says_nay(token) {
            (self, seq![privmsg(user, text_yea_or_nay())])
        } else {
            let vote = if says_yea(token) {
                Vote::Success
            } else {
                Vote::Failure
            };
            let votes = self.mission_votes.cast(user, vote).votes;
            let result = mission_result(votes, self.special());
            let said = seq![privmsg(user, text_your_vote_cast())];
            if result == Vote::NotYetVoted {
                (Game { mission_votes: self.mission_votes.cast(user, vote), ..self }, said)
            } else {
                let next = Game {
                    missions_run: self.missions_run + 1,
                    missions_won: if result == Vote::Success {
                        self.missions_won + 1
                    } else {
                        self.missions_won
                    },
                    mission_votes: Ballot::empty(),
                    ..self.with_new_leader(order)
                };
                let report = if result == Vote::Success {
                    text_success(
                        next.missions_won,
                        next.missions_run,
                        next.leader,
                        next.next_mission_size(),
                    )
                } else {
                    text_failure(
                        tally(votes, Vote::Failure),
                        next.missions_won,
                        next.missions_run,
                        next.leader,
                        next.next_mission_size(),
                    )
                };
                (
                    next,
                    said + self.say(report) + if next.is_complete() {
                        seq![next.winner_line()]
                    } else {
                        Seq::empty()
                    },
                )
            }
        }
    }

    /// Someone asks who plays.
    pub open spec fn list_players(self) -> Seq<Line> {
        self.say(text_players(self.players))
    }
}

/// A session of the game in one channel.
pub struct Resistance {
    chan: String,
    started: bool,
    players: Vec<String>,
    rebels: Vec<String>,
    spies: Vec<String>,
    missions_won: u8,
    missions_run: u8,
    rejected_proposals: u8,
    leader: String,
    proposed_members: Vec<String>,
    votes_for_mission: NameMap<Vote>,
    mission_votes: NameMap<Vote>,
}

/// The ballot that a map from voters to votes stands for.
pub open spec fn ballot_of(m: NameMap<Vote>) -> Ballot {
    Ballot { voters: m.keys(), votes: m.values() }
}

impl View for Resistance {
    type V = Game;

    closed spec fn view(&self) -> Game {
        Game {
            chan: self.chan@,
            started: self.started,
            players: texts(self.players@),
            rebels: texts(self.rebels@),
            spies: texts(self.spies@),
            missions_won: self.missions_won as nat,
            missions_run: self.missions_run as nat,
            rejected_proposals: self.rejected_proposals as nat,
            leader: self.leader@,
            proposed_members: texts(self.proposed_members@),
            votes_for_mission: ballot_of(self.votes_for_mission),
            mission_votes: ballot_of(self.mission_votes),
        }
    }
}

/// Calls `shuffle` of `rand::seq::SliceRandom` on the names, with the
/// generator that `rand::thread_rng` hands out. The call only swaps entries,
/// so the names afterwards are the names before in some order; which order
/// is left open.
#[verifier::external_body]
fn shuffle(names: &mut Vec<String>)
    ensures
        is_shuffle(texts(final(names)@), texts(old(names)@)),
{
    names.shuffle(&mut rand::thread_rng());
}

/// How many entries of a ballot are `v`.
fn count(ballot: &NameMap<Vote>, v: Vote) -> (n: usize)
    requires
        ballot.wf(),
    ensures
        n == tally(ballot.values(), v),
{
    let mut n: usize = 0;
    let mut i: usize = 0;
    while i < ballot.len()
        invariant
            ballot.wf(),
            i <= ballot.values().len(),
            n <= i,
            n == tally(ballot.values().take(i as int), v),
        decreases ballot.values().len() - i,
    {
        assert(ballot.values().take(i + 1).drop_last() =~= ballot.values().take(i as int));
        if *ballot.item(i) == v {
            n = n + 1;
        }
        i = i + 1;
    }
    assert(ballot.values().take(i as int) =~= ballot.values());
    n
}

/// Enters each of `names` into a ballot as not having voted yet.
fn open_ballot(ballot: &mut NameMap<Vote>, names: &Vec<String>)
    requires
        old(ballot).wf(),
    ensures
        final(ballot).wf(),
        ballot_of(*final(ballot)) == ballot_of(*old(ballot)).opened(texts(names@)),
{
    let mut i: usize = 0;
    while i < names.len()
        invariant
            ballot.wf(),
            i <= names.len(),
            ballot_of(*ballot) == ballot_of(*old(ballot)).opened(texts(names@).take(i as int)),
        decreases names.len() - i,
    {
        assert(texts(names@).take(i + 1).drop_last() =~= texts(names@).take(i as int));
        ballot.insert(names[i].as_str(), Vote::NotYetVoted);
        i = i + 1;
    }
    assert(texts(names@).take(i as int) =~= texts(names@));
}

/// Whether every one of `members` is in `list`.
fn all_hold(list: &Vec<String>, members: &Vec<String>) -> (r: bool)
    ensures
        r == forall|i: int|
            0 <= i < members.len() ==> texts(list@).contains(#[trigger] texts(members@)[i]),
{
    let mut i: usize = 0;
    while i < members.len()
        invariant
            i <= members.len(),
            forall|j: int| 0 <= j < i ==> texts(list@).contains(#[trigger] texts(members@)[j]),
        decreases members.len() - i,
    {
        if !holds(list, members[i].as_str()) {
            assert(!texts(list@).contains(texts(members@)[i as int]));
            return false;
        }
        i = i + 1;
    }
    true
}

/// Reads a vote token.
fn read_vote(token: &str) -> (r: Option<Vote>)
    ensures
        r == if says_yea(token@) {
            Some(Vote::Success)
        } else if says_nay(token@) {
            Some(Vote::Failure)
        } else {
            None::<Vote>
        },
{
    if token.unicode_len() == 0 {
        return None;
    }
    let c = token.get_char(0);
    if c == 'y' || c == 'Y' {
        Some(Vote::Success)
    } else if c == 'n' || c == 'N' {
        Some(Vote::Failure)
    } else {
        None
    }
}

fn first_mission_text(size: usize) -> (r: String)
    ensures
        r@ == text_first_mission(size as nat),
{
    let mut r = "The first mission requires ".to_owned();
    r.append(decimal(size).as_str());
    r.append(" participants.");
    r
}

fn role_text(role: &str, chan: &str) -> (r: String)
    ensures
        r@ == role@ + chan@ + "."@,
{
    let mut r = role.to_owned();
    r.append(chan);
    r.append(".");
    r
}

fn mission_size_text(number: usize, size: usize) -> (r: String)
    ensures
        r@ == text_mission_size(number as nat, size as nat),
{
    let mut r = "Mission ".to_owned();
    r.append(decimal(number).as_str());
    r.append(" should have ");
    r.append(decimal(size).as_str());
    r.append(" members.");
    r
}

fn rejected_text(rejected: usize, leader: &str) -> (r: String)
    ensures
        r@ == text_rejected(rejected as nat, leader@),
{
    let mut r = "The proposal was rejected (".to_owned();
    r.append(decimal(rejected).as_str());
    r.append(" / 5). The new leader is ");
    r.append(leader);
    r.append(".");
    r
}

fn score_text(won: usize, run: usize, leader: &str, size: usize) -> (r: String)
    ensures
        r@ == text_score(won as nat, run as nat, leader@, size as nat),
{
    let mut r = " (S: ".to_owned();
    r.append(decimal(won).as_str());
    r.append(" / ");
    r.append(decimal(run).as_str());
    r.append("). The new leader is ");
    r.append(leader);
    r.append(". The next mission requires ");
    r.append(decimal(size).as_str());
    r.append(" participants.");
    r
}

fn failure_text(fails: usize, score: &str) -> (r: String)
    ensures
        r@ == "The mission was a failure with "@ + decimal_text(fails as nat) + " saboteurs"@
            + score@,
{
    let mut r = "The mission was a failure with ".to_owned();
    r.append(decimal(fails).as_str());
    r.append(" saboteurs");
    r.append(score);
    r
}

impl Resistance {
    /// What always holds of a session.
    pub open spec fn wf(&self) -> bool {
        self@.wf()
    }

    /// The session that `user` opens in `chan`: a lobby with one player, who
    /// leads.
    pub fn new_game(user: &str, chan: &str) -> (g: Resistance)
        ensures
            g.wf(),
            g@ == Game::new_game(user@, chan@),
    {
        let mut players: Vec<String> = Vec::new();
        players.push(user.to_owned());
        let g = Resistance {
            chan: chan.to_owned(),
            started: false,
            players,
            rebels: Vec::new(),
            spies: Vec::new(),
            missions_won: 0u8,
            missions_run: 0u8,
            rejected_proposals: 0u8,
            leader: user.to_owned(),
            proposed_members: Vec::new(),
            votes_for_mission: NameMap::new(),
            mission_votes: NameMap::new(),
        };
        proof {
            assert(g@.players =~= seq![user@]);
            assert(g@.players[0] == user@);
            assert(g@.rebels =~= Seq::empty());
        }
        g
    }

    /// Whether the game is over.
    pub fn is_complete(&self) -> (r: bool)
        ensures
            r == self@.is_complete(),
    {
        self.missions_run == 5 || self.missions_won == 3 || self.rejected_proposals == 5 || (
        self.missions_run >= self.missions_won && self.missions_run - self.missions_won >= 3)
    }

    /// Whether `nick` leads.
    pub fn is_leader(&self, nick: &str) -> (r: bool)
        ensures
            r == (self@.leader == nick@),
    {
        same(self.leader.as_str(), nick)
    }

    fn total_players(&self) -> (n: usize)
        ensures
            n == self@.players.len(),
    {
        self.players.len()
    }

    fn say(&self, text: &str) -> (out: Vec<Directive>)
        ensures
            lines(out@) == self@.say(text@),
    {
        one_line(Directive::privmsg(self.chan.as_str(), text))
    }

    /// The players in a shuffled order.
    pub fn shuffled(&self) -> (order: Vec<String>)
        ensures
            is_shuffle(texts(order@), self@.players),
    {
        let mut order = copied(&self.players);
        shuffle(&mut order);
        order
    }

    fn mission_number_helper(&self, m1: usize, m2: usize, m3: usize, m4: usize, m5: usize) -> (n:
        usize)
        ensures
            n == row_entry(
                self@.missions_run,
                m1 as nat,
                m2 as nat,
                m3 as nat,
                m4 as nat,
                m5 as nat,
            ),
    {
        if self.missions_run == 0 {
            m1
        } else if self.missions_run == 1 {
            m2
        } else if self.missions_run == 2 {
            m3
        } else if self.missions_run == 3 {
            m4
        } else if self.missions_run == 4 {
            m5
        } else {
            0
        }
    }

    /// How many members the next mission takes.
    pub fn get_number_for_next_mission(&self) -> (n: usize)
        ensures
            n == self@.next_mission_size(),
    {
        if self.total_players() > 7 {
            self.mission_number_helper(3, 4, 4, 5, 5)
        } else if self.total_players() == 7 {
            self.mission_number_helper(2, 3, 3, 4, 4)
        } else if self.total_players() == 6 {
            self.mission_number_helper(2, 3, 4, 3, 4)
        } else {
            self.mission_number_helper(2, 3, 2, 3, 3)
        }
    }

    /// Holds the size of a proposal against the entry of a table row for
    /// the coming mission, and complains where they differ.
    fn validate_mission(
        &self,
        len: usize,
        m1: usize,
        m2: usize,
        m3: usize,
        m4: usize,
        m5: usize,
    ) -> (r: (bool, Vec<Directive>))
        requires
            self@.next_mission_size() == row_entry(
                self@.missions_run,
                m1 as nat,
                m2 as nat,
                m3 as nat,
                m4 as nat,
                m5 as nat,
            ),
        ensures
            r.0 == self@.valid_size(len as nat),
            lines(r.1@) == self@.size_complaint(len as nat),
    {
        if self.missions_run > 4 {
            return (false, self.say("Something went wrong."));
        }
        let size = self.mission_number_helper(m1, m2, m3, m4, m5);
        if len != size {
            let number: usize = self.missions_run as usize + 1;
            (false, self.say(mission_size_text(number, size).as_str()))
        } else {
            (true, no_lines())
        }
    }

    /// A user asks to join. Nothing changes unless the game has not
    /// started, the user is new to it and there is room.
    pub fn add_player(&mut self, nick: &str) -> (out: Vec<Directive>)
        requires
            old(self).wf(),
        ensures
            final(self).wf(),
            final(self)@ == old(self)@.add_player(nick@).0,
            lines(out@) == old(self)@.add_player(nick@).1,
    {
        if self.started {
            self.say("Sorry, the game is already in progress!")
        } else if holds(&self.players, nick) {
            self.say("You've already joined this game!")
        } else if self.total_players() < 10 {
            let owned = nick.to_owned();
            proof {
                assert(texts(self.players@.push(owned)) =~= texts(self.players@).push(nick@));
                let grown = texts(self.players@).push(nick@);
                let at = texts(self.players@).index_of(self.leader@);
                assert(grown[at] == self.leader@);
            }
            self.players.push(owned);
            one_line(
                Directive::privmsg(
                    nick,
                    "You've joined the game. You'll get your position when it starts.",
                ),
            )
        } else {
            self.say("Sorry, the game is full!")
        }
    }

    /// Starts the game with the players in the given order: the first four
    /// tenths of them, rounded, are the spies and the rest the rebels.
    /// Nothing changes if the game has started or has fewer than five
    /// players.
    pub fn start_shuffled(&mut self, order: Vec<String>) -> (out: Vec<Directive>)
        requires
            old(self).wf(),
            is_shuffle(texts(order@), old(self)@.players),
        ensures
            final(self).wf(),
            final(self)@ == old(self)@.start(texts(order@)).0,
            lines(out@) == old(self)@.start(texts(order@)).1,
    {
        if self.started {
            return self.say("The game has already begun!");
        }
        if self.total_players() <= 4 {
            return self.say("You need at least five players to play.");
        }
        proof {
            shuffle_keeps(texts(order@), self@.players);
        }
        let n = order.len();
        let k: usize = (4 * n + 5) / 10;
        let ghost names = texts(order@);
        let ghost chan = self.chan@;
        let mut out: Vec<Directive> = Vec::new();
        let mut spies: Vec<String> = Vec::new();
        let mut rebels: Vec<String> = Vec::new();
        let mut i: usize = 0;
        while i < k
            invariant
                i <= k <= n,
                n == order.len(),
                names == texts(order@),
                chan == self.chan@,
                out.len() == i,
                spies.len() == i,
                forall|j: int| 0 <= j < i ==> spies[j]@ == names[j],
                forall|j: int| 0 <= j < i ==> out[j]@ == privmsg(names[j], text_spy(chan)),
            decreases k - i,
        {
            spies.push(order[i].clone());
            out.push(
                Directive::privmsg(
                    order[i].as_str(),
                    role_text("You're a spy in ", self.chan.as_str()).as_str(),
                ),
            );
            i = i + 1;
        }
        while i < n
            invariant
                k <= i <= n,
                n == order.len(),
                names == texts(order@),
                chan == self.chan@,
                out.len() == i,
                rebels.len() == i - k,
                forall|j: int| 0 <= j < i - k ==> rebels[j]@ == names[k + j],
                forall|j: int|
                    0 <= j < i ==> out[j]@ == privmsg(
                        names[j],
                        if j < k {
                            text_spy(chan)
                        } else {
                            text_rebel(chan)
                        },
                    ),
            decreases n - i,
        {
            rebels.push(order[i].clone());
            out.push(
                Directive::privmsg(
                    order[i].as_str(),
                    role_text("You're a rebel in ", self.chan.as_str()).as_str(),
                ),
            );
            i = i + 1;
        }
        assert(texts(spies@) =~= names.take(k as int));
        assert(texts(rebels@) =~= names.skip(k as int));
        let mut roster = "Spies: ".to_owned();
        roster.append(debug_list(&spies).as_str());
        let mut s: usize = 0;
        while s < k
            invariant
                s <= k <= n,
                n == order.len(),
                names == texts(order@),
                chan == self.chan@,
                out.len() == n + s,
                roster@ == text_roster(names.take(k as int)),
                forall|j: int|
                    0 <= j < n ==> out[j]@ == privmsg(
                        names[j],
                        if j < k {
                            text_spy(chan)
                        } else {
                            text_rebel(chan)
                        },
                    ),
                forall|j: int| 0 <= j < s ==> out[n + j]@ == privmsg(names[j], roster@),
            decreases k - s,
        {
            out.push(Directive::privmsg(order[s].as_str(), roster.as_str()));
            s = s + 1;
        }
        out.push(Directive::privmsg(self.chan.as_str(), "The game has begun!"));
        self.started = true;
        self.players = order;
        self.spies = spies;
        self.rebels = rebels;
        let size = self.get_number_for_next_mission();
        out.push(Directive::privmsg(self.chan.as_str(), first_mission_text(size).as_str()));
        proof {
            assert(self@.spies + self@.rebels =~= names);
        }
        out
    }

    /// Starts the game, shuffling the players.
    pub fn start(&mut self) -> (out: Vec<Directive>)
        requires
            old(self).wf(),
        ensures
            final(self).wf(),
            exists|order: Seq<Seq<char>>|
                {
                    &&& is_shuffle(order, old(self)@.players)
                    &&& final(self)@ == (#[trigger] old(self)@.start(order)).0
                    &&& lines(out@) == old(self)@.start(order).1
                },
    {
        let order = self.shuffled();
        let out = self.start_shuffled(order);
        out
    }

    /// The leader proposes the members of the coming mission. Nothing
    /// happens unless `user` leads a started game with no proposal pending.
    pub fn propose_mission(&mut self, user: &str, users: &str) -> (out: Vec<Directive>)
        requires
            old(self).wf(),
        ensures
            final(self).wf(),
            final(self)@ == old(self)@.propose_mission(user@, users@).0,
            lines(out@) == old(self)@.propose_mission(user@, users@).1,
    {
        if self.proposed_members.len() > 0 || !same(user, self.leader.as_str()) || !self.started {
            return no_lines();
        }
        let members = words(users);
        let (valid, mut out) = if self.total_players() > 7 {
            self.validate_mission(members.len(), 3, 4, 4, 5, 5)
        } else if self.total_players() == 7 {
            self.validate_mission(members.len(), 2, 3, 3, 4, 4)
        } else if self.total_players() == 6 {
            self.validate_mission(members.len(), 2, 3, 4, 3, 4)
        } else {
            self.validate_mission(members.len(), 2, 3, 2, 3, 3)
        };
        if !all_hold(&self.players, &members) {
            push_line(
                &mut out,
                Directive::privmsg(
                    self.chan.as_str(),
                    "Proposals must only include registered players.",
                ),
            );
        } else if valid {
            let mut text = "Proposed mission: ".to_owned();
            text.append(debug_list(&members).as_str());
            self.proposed_members = members;
            open_ballot(&mut self.votes_for_mission, &self.rebels);
            open_ballot(&mut self.votes_for_mission, &self.spies);
            push_line(&mut out, Directive::privmsg(self.chan.as_str(), text.as_str()));
        }
        out
    }

    /// The outcome of the vote on the pending proposal.
    pub fn get_proposal_result(&self) -> (r: Vote)
        requires
            self.wf(),
        ensures
            r == proposal_result(self@.votes_for_mission.votes),
    {
        if count(&self.votes_for_mission, Vote::NotYetVoted) > 0 {
            Vote::NotYetVoted
        } else if count(&self.votes_for_mission, Vote::Success) > count(
            &self.votes_for_mission,
            Vote::Failure,
        ) {
            Vote::Success
        } else {
            Vote::Failure
        }
    }

    /// The outcome of the mission under way, and how many sabotaged it;
    /// nobody is counted while a vote is outstanding.
    pub fn get_mission_result(&self) -> (r: (Vote, usize))
        requires
            self.wf(),
        ensures
            r.0 == mission_result(self@.mission_votes.votes, self@.special()),
            r.0 != Vote::NotYetVoted ==> r.1 == tally(self@.mission_votes.votes, Vote::Failure),
            r.0 == Vote::NotYetVoted ==> r.1 == 0,
    {
        let special = self.missions_run == 4 && self.total_players() > 6;
        if count(&self.mission_votes, Vote::NotYetVoted) > 0 {
            return (Vote::NotYetVoted, 0);
        }
        let fails = count(&self.mission_votes, Vote::Failure);
        if fails == 0 || (special && fails == 1) {
            (Vote::Success, fails)
        } else {
            (Vote::Failure, fails)
        }
    }

    /// Who has won the game, once it is over, as a line for the channel.
    fn winner(&self) -> (d: Directive)
        ensures
            d@ == self@.winner_line(),
    {
        let text = if self.missions_won == 3 {
            "Game over: Rebels win!"
        } else {
            "Game over: Spies win!"
        };
        Directive::privmsg(self.chan.as_str(), text)
    }

    /// Takes the given order for the players and makes the first in it who
    /// does not lead now the leader. It takes two players for there to be
    /// another one to lead.
    pub fn get_new_leader(&mut self, order: Vec<String>)
        requires
            old(self).wf(),
            old(self)@.players.len() >= 2,
            is_shuffle(texts(order@), old(self)@.players),
        ensures
            final(self).wf(),
            final(self)@ == old(self)@.with_new_leader(texts(order@)),
            final(self)@.leader != old(self)@.leader,
            final(self)@.players.contains(final(self)@.leader),
    {
        proof {
            shuffle_keeps(texts(order@), self@.players);
            assert(texts(order@)[0] == order[0]@);
            assert(texts(order@)[1] == order[1]@);
        }
        if self.is_leader(order[0].as_str()) {
            self.leader = order[1].clone();
        } else {
            self.leader = order[0].clone();
        }
        self.players = order;
    }

    /// The pending proposal was accepted: its members are to vote on the
    /// mission.
    fn run_mission(&mut self) -> (d: Directive)
        requires
            old(self).wf(),
            old(self)@.started,
        ensures
            final(self).wf(),
            final(self)@ == old(self)@.run_mission(),
            d@ == privmsg(old(self)@.chan, text_live()),
    {
        open_ballot(&mut self.mission_votes, &self.proposed_members);
        self.proposed_members = Vec::new();
        self.rejected_proposals = 0;
        assert(self@.proposed_members =~= Seq::empty());
        Directive::privmsg(self.chan.as_str(), "The mission is now live!")
    }

    /// A player votes on the pending proposal. Once everyone has voted the
    /// proposal is accepted by a strict majority, and the mission goes live;
    /// otherwise it is rejected, and the first player in `order` who does
    /// not lead becomes the leader. The fifth rejection in a row ends the
    /// game, and the spies are named as the winners.
    pub fn cast_proposal_vote_shuffled(&mut self, user: &str, vote: &str, order: Vec<String>) -> (out:
        Vec<Directive>)
        requires
            old(self).wf(),
            !old(self)@.is_complete(),
            is_shuffle(texts(order@), old(self)@.players),
        ensures
            final(self).wf(),
            final(self)@ == old(self)@.cast_proposal_vote(user@, vote@, texts(order@)).0,
            lines(out@) == old(self)@.cast_proposal_vote(user@, vote@, texts(order@)).1,
    {
        if !holds(&self.players, user) {
            return one_line(Directive::privmsg(user, "You're not involved in this game."));
        }
        if self.proposed_members.len() == 0 {
            return one_line(Directive::privmsg(user, "There is no current mission proposal."));
        }
        let read = read_vote(vote);
        if read.is_none() {
            return self.say("You must vote yea or nay.");
        }
        self.votes_for_mission.insert(user, read.unwrap());
        let mut out = self.say("A vote has been cast.");
        let result = self.get_proposal_result();
        if result == Vote::Success {
            let live = self.run_mission();
            push_line(&mut out, live);
        } else if result == Vote::Failure {
            self.get_new_leader(order);
            self.rejected_proposals = self.rejected_proposals + 1;
            self.proposed_members = Vec::new();
            assert(self@.proposed_members =~= Seq::empty());
            let text = rejected_text(self.rejected_proposals as usize, self.leader.as_str());
            push_line(&mut out, Directive::privmsg(self.chan.as_str(), text.as_str()));
            if self.is_complete() {
                push_line(&mut out, self.winner());
            }
        }
        out
    }

    /// A player votes on the pending proposal; the players are shuffled
    /// for the case that the proposal is rejected.
    pub fn cast_proposal_vote(&mut self, user: &str, vote: &str) -> (out: Vec<Directive>)
        requires
            old(self).wf(),
            !old(self)@.is_complete(),
        ensures
            final(self).wf(),
            exists|order: Seq<Seq<char>>|
                {
                    &&& is_shuffle(order, old(self)@.players)
                    &&& final(self)@ == (#[trigger] old(self)@.cast_proposal_vote(
                        user@,
                        vote@,
                        order,
                    )).0
                    &&& lines(out@) == old(self)@.cast_proposal_vote(user@, vote@, order).1
                },
    {
        let order = self.shuffled();
        let out = self.cast_proposal_vote_shuffled(user, vote, order);
        out
    }

    /// A member votes on the mission under way. Once every member has
    /// voted the mission is decided, the score is kept, the first player in
    /// `order` who does not lead becomes the leader, and a finished game
    /// names its winner.
    pub fn cast_mission_vote_shuffled(&mut self, user: &str, vote: &str, order: Vec<String>) -> (out:
        Vec<Directive>)
        requires
            old(self).wf(),
            !old(self)@.is_complete(),
            is_shuffle(texts(order@), old(self)@.players),
        ensures
            final(self).wf(),
            final(self)@ == old(self)@.cast_mission_vote(user@, vote@, texts(order@)).0,
            lines(out@) == old(self)@.cast_mission_vote(user@, vote@, texts(order@)).1,
    {
        if !holds(&self.players, user) {
            return one_line(Directive::privmsg(user, "You're not involved in this game."));
        }
        if self.mission_votes.is_empty() {
            return one_line(Directive::privmsg(user, "There is no mission in progress."));
        }
        if !self.mission_votes.contains_key(user) {
            return one_line(Directive::privmsg(user, "You're not involved in this mission."));
        }
        let read = read_vote(vote);
        if read.is_none() {
            return one_line(Directive::privmsg(user, "You must vote yea or nay."));
        }
        self.mission_votes.insert(user, read.unwrap());
        let mut out = one_line(Directive::privmsg(user, "Your vote has been cast."));
        let (result, fails) = self.get_mission_result();
        if result != Vote::NotYetVoted {
            self.get_new_leader(order);
            self.missions_run = self.missions_run + 1;
            if result == Vote::Success {
                self.missions_won = self.missions_won + 1;
            }
            self.mission_votes = NameMap::new();
            let score = score_text(
                self.missions_won as usize,
                self.missions_run as usize,
                self.leader.as_str(),
                self.get_number_for_next_mission(),
            );
            let report = if result == Vote::Success {
                joined("The mission was a success", score.as_str())
            } else {
                failure_text(fails, score.as_str())
            };
            push_line(&mut out, Directive::privmsg(self.chan.as_str(), report.as_str()));
            if self.is_complete() {
                push_line(&mut out, self.winner());
            }
        }
        out
    }

    /// A member votes on the mission under way; the players are shuffled
    /// for the case that the mission is decided.
    pub fn cast_mission_vote(&mut self, user: &str, vote: &str) -> (out: Vec<Directive>)
        requires
            old(self).wf(),
            !old(self)@.is_complete(),
        ensures
            final(self).wf(),
            exists|order: Seq<Seq<char>>|
                {
                    &&& is_shuffle(order, old(self)@.players)
                    &&& final(self)@ == (#[trigger] old(self)@.cast_mission_vote(
                        user@,
                        vote@,
                        order,
                    )).0
                    &&& lines(out@) == old(self)@.cast_mission_vote(user@, vote@, order).1
                },
    {
        let order = self.shuffled();
        let out = self.cast_mission_vote_shuffled(user, vote, order);
        out
    }

    /// Tells the channel who plays.
    pub fn list_players(&self) -> (out: Vec<Directive>)
        ensures
            lines(out@) == self@.list_players(),
    {
        let mut text = "Players: ".to_owned();
        text.append(debug_list(&self.players).as_str());
        self.say(text.as_str())
    }
}

/// Whether a line announces the end of a game.
pub open spec fn is_game_over(line: Line) -> bool {
    line.args.len() == 2 && (line.args[1] == text_rebels_win() || line.args[1] == text_spies_win())
}

/// The number of spies is the whole number nearest to four tenths of the
/// number of players; no number of players lies halfway between two.
pub proof fn spy_count_is_nearest(n: nat)
    ensures
        -5 < 10 * spy_count(n) - 4 * n < 5,
{
}

/// The mission-size table, entry by entry. Five players or fewer share the
/// first row and eight or more the last.
pub proof fn mission_size_table(players: nat)
    ensures
        players <= 5 ==> mission_size(players, 0) == 2 && mission_size(players, 1) == 3
            && mission_size(players, 2) == 2 && mission_size(players, 3) == 3 && mission_size(
            players,
            4,
        ) == 3,
        players == 6 ==> mission_size(players, 0) == 2 && mission_size(players, 1) == 3
            && mission_size(players, 2) == 4 && mission_size(players, 3) == 3 && mission_size(
            players,
            4,
        ) == 4,
        players == 7 ==> mission_size(players, 0) == 2 && mission_size(players, 1) == 3
            && mission_size(players, 2) == 3 && mission_size(players, 3) == 4 && mission_size(
            players,
            4,
        ) == 4,
        players > 7 ==> mission_size(players, 0) == 3 && mission_size(players, 1) == 4
            && mission_size(players, 2) == 4 && mission_size(players, 3) == 5 && mission_size(
            players,
            4,
        ) == 5,
{
}

/// A proposal is only taken up with exactly as many members as the table
/// gives for the players and the mission; with any other number the game
/// stays as it is.
pub proof fn proposal_needs_table_size(g: Game, user: Seq<char>, users: Seq<char>)
    ensures
        g.propose_mission(user, users).0 != g ==> g.missions_run < 5 && split_words(users).len()
            == mission_size(g.players.len(), g.missions_run),
        split_words(users).len() != mission_size(g.players.len(), g.missions_run)
            ==> g.propose_mission(user, users).0 == g,
{
}

/// When a game of five to ten players starts, the spies are four tenths of
/// the players, rounded; nobody is both spy and rebel, and every player is
/// one of the two.
pub proof fn start_assigns_roles(g: Game, order: Seq<Seq<char>>)
    requires
        g.wf(),
        !g.started,
        5 <= g.players.len() <= 10,
        is_shuffle(order, g.players),
    ensures
        ({
            let s = g.start(order).0;
            &&& s.wf()
            &&& s.started
            &&& s.spies.len() == spy_count(g.players.len())
            &&& s.spies.len() + s.rebels.len() == g.players.len()
            &&& forall|x: Seq<char>| !(s.spies.contains(x) && s.rebels.contains(x))
            &&& forall|x: Seq<char>|
                g.players.contains(x) <==> s.spies.contains(x) || s.rebels.contains(x)
        }),
{
    let s = g.start(order).0;
    shuffle_keeps(order, g.players);
    assert(s.spies + s.rebels =~= order);
    roles_partition_players(s);
}

/// In a started game nobody is both spy and rebel, and the spies and the
/// rebels together are the players.
pub proof fn roles_partition_players(g: Game)
    requires
        g.wf(),
        g.started,
    ensures
        g.spies.len() + g.rebels.len() == g.players.len(),
        forall|x: Seq<char>| !(g.spies.contains(x) && g.rebels.contains(x)),
        forall|x: Seq<char>| g.players.contains(x) <==> g.spies.contains(x) || g.rebels.contains(x),
{
    let both = g.spies + g.rebels;
    shuffle_keeps(both, g.players);
    assert forall|x: Seq<char>| !(g.spies.contains(x) && g.rebels.contains(x)) by {
        if g.spies.contains(x) && g.rebels.contains(x) {
            let i = g.spies.index_of(x);
            let j = g.rebels.index_of(x);
            assert(both[i] == x);
            assert(both[g.spies.len() + j] == x);
        }
    }
    assert forall|x: Seq<char>|
        g.players.contains(x) <==> g.spies.contains(x) || g.rebels.contains(x) by {
        if g.spies.contains(x) {
            let i = g.spies.index_of(x);
            assert(both[i] == x);
        }
        if g.rebels.contains(x) {
            let j = g.rebels.index_of(x);
            assert(both[g.spies.len() + j] == x);
        }
        if both.contains(x) {
            let i = both.index_of(x);
            if i < g.spies.len() {
            } else {
            }
        }
    }
}

/// Asking to join twice is asking once: the second request changes nothing,
/// and before the start it is answered with the reason.
pub proof fn add_player_twice(g: Game, nick: Seq<char>)
    ensures
        ({
            let once = g.add_player(nick).0;
            &&& once.add_player(nick).0 == once
            &&& !g.started ==> once.add_player(nick).1 == if once.players.contains(nick) {
                g.say(text_already_joined())
            } else {
                g.say(text_full())
            }
            &&& !g.started && g.players.len() < 10 ==> once.players.contains(nick)
        }),
{
    let once = g.add_player(nick).0;
    if !g.started && !g.players.contains(nick) && g.players.len() < 10 {
        assert(once.players[g.players.len() as int] == nick);
    }
}

/// A vote on a proposal keeps the score within its bounds: at most three
/// missions won, five run, five proposals rejected in a row.
pub proof fn proposal_vote_keeps_bounds(
    g: Game,
    user: Seq<char>,
    token: Seq<char>,
    order: Seq<Seq<char>>,
)
    requires
        g.wf(),
        !g.is_complete(),
    ensures
        ({
            let next = g.cast_proposal_vote(user, token, order).0;
            &&& next.missions_won == g.missions_won
            &&& next.missions_run == g.missions_run
            &&& next.missions_won <= 3
            &&& next.missions_run <= 5
            &&& next.rejected_proposals <= 5
        }),
{
}

/// A vote on a proposal finishes the game only by the fifth rejection in a
/// row, and then names exactly one winner: the last line sent says that
/// the spies win, and no other line announces the end. A game that goes on
/// announces no end.
pub proof fn proposal_vote_names_one_winner(
    g: Game,
    user: Seq<char>,
    token: Seq<char>,
    order: Seq<Seq<char>>,
)
    requires
        g.wf(),
        !g.is_complete(),
    ensures
        ({
            let (next, out) = g.cast_proposal_vote(user, token, order);
            &&& next.is_complete() <==> next.rejected_proposals == 5
            &&& next.is_complete() ==> {
                &&& g.rejected_proposals == 4
                &&& out.len() > 0
                &&& out.last() == privmsg(g.chan, text_spies_win())
                &&& is_game_over(out.last())
                &&& forall|i: int| 0 <= i < out.len() - 1 ==> !is_game_over(out[i])
            }
            &&& !next.is_complete() ==> forall|i: int| 0 <= i < out.len() ==> !is_game_over(out[i])
        }),
{
    reveal_strlit("Game over: Rebels win!");
    reveal_strlit("Game over: Spies win!");
    reveal_strlit("You're not involved in this game.");
    reveal_strlit("There is no current mission proposal.");
    reveal_strlit("You must vote yea or nay.");
    reveal_strlit("A vote has been cast.");
    reveal_strlit("The mission is now live!");
    reveal_strlit("The proposal was rejected (");
    assert(text_rebels_win()[0] == 'G' && text_spies_win()[0] == 'G');
    assert(text_not_in_game()[0] == 'Y');
    assert(text_no_proposal()[0] == 'T');
    assert(text_yea_or_nay()[0] == 'Y');
    assert(text_vote_cast()[0] == 'A');
    assert(text_live()[0] == 'T');
    assert forall|n: nat, l: Seq<char>| (#[trigger] text_rejected(n, l))[0] == 'T' by {
        assert("The proposal was rejected ("@[0] == 'T');
    }
}

/// The rule of the one saboteur. Once every member has voted, a mission
/// without a saboteur succeeds, and one with two or more fails. With
/// exactly one saboteur the mission succeeds if it is the fifth and more
/// than six play, and fails otherwise.
pub proof fn one_saboteur_rule(votes: Seq<Vote>, missions_run: nat, players: nat)
    requires
        tally(votes, Vote::NotYetVoted) == 0,
    ensures
        ({
            let special = missions_run == 4 && players > 6;
            let saboteurs = tally(votes, Vote::Failure);
            &&& saboteurs == 0 ==> mission_result(votes, special) == Vote::Success
            &&& saboteurs >= 2 ==> mission_result(votes, special) == Vote::Failure
            &&& saboteurs == 1 && missions_run == 4 && players > 6 ==> mission_result(
                votes,
                special,
            ) == Vote::Success
            &&& saboteurs == 1 && !(missions_run == 4 && players > 6) ==> mission_result(
                votes,
                special,
            ) == Vote::Failure
        }),
{
}

/// The rule of the one saboteur in a game: the vote that decides a mission
/// with exactly one saboteur wins it for the rebels on the fifth mission of
/// more than six players, and loses it in any other game.
pub proof fn mission_with_one_saboteur(
    g: Game,
    user: Seq<char>,
    token: Seq<char>,
    order: Seq<Seq<char>>,
)
    requires
        g.wf(),
        g.players.contains(user),
        g.mission_votes.voters.contains(user),
        says_yea(token) || says_nay(token),
        ({
            let vote = if says_yea(token) {
                Vote::Success
            } else {
                Vote::Failure
            };
            let votes = g.mission_votes.cast(user, vote).votes;
            tally(votes, Vote::NotYetVoted) == 0 && tally(votes, Vote::Failure) == 1
        }),
    ensures
        ({
            let next = g.cast_mission_vote(user, token, order).0;
            &&& next.missions_run == g.missions_run + 1
            &&& next.missions_won == if g.missions_run == 4 && g.players.len() > 6 {
                g.missions_won + 1
            } else {
                g.missions_won
            }
        }),
{
}

/// A vote on a mission keeps the score within its bounds, and a game that
/// it finishes names exactly one winner: the last line sent says who won,
/// the rebels if and only if they won three missions, and no other line
/// announces the end. A game that goes on announces no end.
pub proof fn mission_vote_names_one_winner(
    g: Game,
    user: Seq<char>,
    token: Seq<char>,
    order: Seq<Seq<char>>,
)
    requires
        g.wf(),
        !g.is_complete(),
    ensures
        ({
            let (next, out) = g.cast_mission_vote(user, token, order);
            &&& next.missions_won <= 3
            &&& next.missions_run <= 5
            &&& next.missions_won <= next.missions_run
            &&& next.is_complete() ==> {
                &&& out.len() > 0
                &&& out.last() == privmsg(
                    g.chan,
                    if next.missions_won == 3 {
                        text_rebels_win()
                    } else {
                        text_spies_win()
                    },
                )
                &&& is_game_over(out.last())
                &&& forall|i: int| 0 <= i < out.len() - 1 ==> !is_game_over(out[i])
            }
            &&& !next.is_complete() ==> forall|i: int| 0 <= i < out.len() ==> !is_game_over(out[i])
        }),
{
    reveal_strlit("Game over: Rebels win!");
    reveal_strlit("Game over: Spies win!");
    reveal_strlit("You're not involved in this game.");
    reveal_strlit("There is no mission in progress.");
    reveal_strlit("You're not involved in this mission.");
    reveal_strlit("You must vote yea or nay.");
    reveal_strlit("Your vote has been cast.");
    reveal_strlit("The mission was a success");
    reveal_strlit("The mission was a failure with ");
    let (next, out) = g.cast_mission_vote(user, token, order);
    let over_a = text_rebels_win();
    let over_b = text_spies_win();
    assert(over_a[0] == 'G' && over_b[0] == 'G');
}

/// A vote leaves a ballot with one entry for each voter.
pub proof fn cast_keeps_ballot(b: Ballot, name: Seq<char>, vote: Vote)
    requires
        b.wf(),
    ensures
        b.cast(name, vote).wf(),
{
    if !b.voters.contains(name) {
        let grown = b.voters.push(name);
        assert forall|i: int, j: int|
            0 <= i < grown.len() && 0 <= j < grown.len() && i != j implies grown[i] != grown[j] by {
            if i == b.voters.len() {
                assert(b.voters[j] != name);
            } else if j == b.voters.len() {
                assert(b.voters[i] != name);
            }
        }
    }
}

/// Entering names leaves a ballot with one entry for each voter.
pub proof fn opened_keeps_ballot(b: Ballot, names: Seq<Seq<char>>)
    requires
        b.wf(),
    ensures
        b.opened(names).wf(),
    decreases names.len(),
{
    if names.len() > 0 {
        opened_keeps_ballot(b, names.drop_last());
        cast_keeps_ballot(b.opened(names.drop_last()), names.last(), Vote::NotYetVoted);
    }
}

/// In every game at most three missions were won, at most five run, and at
/// most five proposals rejected in a row.
pub proof fn score_is_bounded(g: Game)
    requires
        g.wf(),
    ensures
        g.missions_won <= 3,
        g.missions_won <= g.missions_run <= 5,
        g.rejected_proposals <= 5,
{
}

/// Whatever happens in a game leaves it a game: joining, starting and
/// proposing always, and a vote as long as the game is not over. `order`
/// is the shuffle of the players that the step may use.
pub proof fn steps_keep_a_game(g: Game, user: Seq<char>, text: Seq<char>, order: Seq<Seq<char>>)
    requires
        g.wf(),
        is_shuffle(order, g.players),
    ensures
        g.add_player(user).0.wf(),
        g.start(order).0.wf(),
        g.propose_mission(user, text).0.wf(),
        !g.is_complete() ==> g.cast_proposal_vote(user, text, order).0.wf(),
        !g.is_complete() ==> g.cast_mission_vote(user, text, order).0.wf(),
{
    shuffle_keeps(order, g.players);
    assert(g.add_player(user).0.wf()) by {
        if !g.started && !g.players.contains(user) && g.players.len() < 10 {
            let grown = g.players.push(user);
            assert forall|i: int, j: int|
                0 <= i < grown.len() && 0 <= j < grown.len() && i != j implies grown[i]
                != grown[j] by {
                if i == g.players.len() {
                    assert(g.players[j] != user);
                } else if j == g.players.len() {
                    assert(g.players[i] != user);
                }
            }
            assert(grown[g.players.index_of(g.leader)] == g.leader);
        }
    }
    assert(g.start(order).0.wf()) by {
        let k = spy_count(order.len()) as int;
        assert(order.take(k) + order.skip(k) =~= order);
    }
    assert(g.propose_mission(user, text).0.wf()) by {
        opened_keeps_ballot(g.votes_for_mission, g.rebels);
        opened_keeps_ballot(g.votes_for_mission.opened(g.rebels), g.spies);
    }
    if !g.is_complete() {
        let vote = if says_yea(text) {
            Vote::Success
        } else {
            Vote::Failure
        };
        cast_keeps_ballot(g.votes_for_mission, user, vote);
        cast_keeps_ballot(g.mission_votes, user, vote);
        opened_keeps_ballot(g.mission_votes, g.proposed_members);
        if g.started {
            assert(order.contains(order[0]) && order.contains(order[1]));
        }
    }
}

} // verus!
