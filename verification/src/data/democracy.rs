//! Channel governance by vote.
//!
//! A booth holds the open proposals of one channel and the votes of its
//! users. The rules are stated as functions on `Booth`, the mathematical
//! picture of a booth; the methods of `Democracy` are proved to follow them.

use std::collections::HashMap;
use vstd::prelude::*;
use vstd::string::*;
use crate::config::Config;
use crate::data::channel::{Channel, ChannelView};
use crate::data::store::{Store, StoreView};
use crate::namemap::NameMap;
use crate::text::{decimal, decimal_text, differs_from, same, texts, without};
use crate::wire::{
    empty_text, kick, no_steps, privmsg, push_step, samode, save_channel, send, steps, topic, Action,
    Directive, Step,
};

verus! {

broadcast use vstd::std_specs::hash::group_hash_axioms;

/// A vote of one user on one proposal.
#[derive(Debug, Clone, Copy, PartialEq, Eq, Structural)]
pub enum Vote {
    Yea(u8),
    Nay(u8),
}

/// The proposal that a vote is on.
pub open spec fn vote_id(v: Vote) -> u8 {
    match v {
        Vote::Yea(id) => id,
        Vote::Nay(id) => id,
    }
}

/// What a vote token says: `yea` and `nay` are votes, nothing else is.
pub open spec fn vote_of(token: Seq<char>, id: u8) -> Option<Vote> {
    if token == "yea"@ {
        Some(Vote::Yea(id))
    } else if token == "nay"@ {
        Some(Vote::Nay(id))
    } else {
        None
    }
}

impl Vote {
    /// Reads a vote token.
    pub fn from_str(vote: &str, proposal_id: u8) -> (r: Option<Vote>)
        ensures
            r == vote_of(vote@, proposal_id),
    {
        if same(vote, "yea") {
            Some(Vote::Yea(proposal_id))
        } else if same(vote, "nay") {
            Some(Vote::Nay(proposal_id))
        } else {
            None
        }
    }

    /// The proposal that the vote is on.
    pub fn id(&self) -> (r: u8)
        ensures
            r == vote_id(*self),
    {
        match self {
            Vote::Yea(id) => *id,
            Vote::Nay(id) => *id,
        }
    }
}

/// What a proposal asks for.
#[derive(Debug, Clone, Copy, PartialEq, Eq, Structural)]
pub enum ProposalKind {
    ChangeOwner,
    Oper,
    Deop,
    Kick,
    Topic,
    Mode,
}

/// A proposal: what it asks for, and for whom or with what text.
#[derive(Debug, PartialEq, Eq)]
pub struct Proposal {
    pub kind: ProposalKind,
    pub parameter: String,
}

/// What a proposal says.
pub struct ProposalView {
    pub kind: ProposalKind,
    pub parameter: Seq<char>,
}

impl View for Proposal {
    type V = ProposalView;

    open spec fn view(&self) -> ProposalView {
        ProposalView { kind: self.kind, parameter: self.parameter@ }
    }
}

/// The kind that a proposal token names.
pub open spec fn kind_of(token: Seq<char>) -> Option<ProposalKind> {
    if token == "chown"@ {
        Some(ProposalKind::ChangeOwner)
    } else if token == "oper"@ {
        Some(ProposalKind::Oper)
    } else if token == "deop"@ {
        Some(ProposalKind::Deop)
    } else if token == "kick"@ {
        Some(ProposalKind::Kick)
    } else if token == "topic"@ {
        Some(ProposalKind::Topic)
    } else if token == "mode"@ {
        Some(ProposalKind::Mode)
    } else {
        None
    }
}

/// Whether a proposal of this kind is put to everyone with voice in the
/// channel, and not only to those of them who are identified.
pub open spec fn is_full(kind: ProposalKind) -> bool {
    kind == ProposalKind::ChangeOwner || kind == ProposalKind::Oper || kind == ProposalKind::Deop
}

/// What a proposal would do, in words.
pub open spec fn display_text(p: ProposalView) -> Seq<char> {
    match p.kind {
        ProposalKind::ChangeOwner => "change the owner to "@ + p.parameter,
        ProposalKind::Oper => "oper "@ + p.parameter,
        ProposalKind::Deop => "deop "@ + p.parameter,
        ProposalKind::Kick => "kick "@ + p.parameter,
        ProposalKind::Topic => "change the topic to "@ + p.parameter,
        ProposalKind::Mode => "change the channel mode to "@ + p.parameter,
    }
}

// The texts that enacting a proposal sends, word for word.

pub open spec fn text_about_me() -> Seq<char> {
    "Votes about me cannot be enacted."@
}

pub open spec fn text_decided() -> Seq<char> {
    "It was decided so."@
}

pub open spec fn text_enacted(p: ProposalView) -> Seq<char> {
    "Enacted proposal to "@ + display_text(p) + "."@
}

pub open spec fn text_not_enacted(p: ProposalView) -> Seq<char> {
    "Failed to enact proposal to "@ + display_text(p) + "."@
}

/// The record of a channel after a proposal was enacted on it.
pub open spec fn enacted_on(p: ProposalView, c: ChannelView) -> ChannelView {
    match p.kind {
        ProposalKind::ChangeOwner => ChannelView { owner: p.parameter, ..c },
        ProposalKind::Oper => ChannelView { opers: c.opers.push(p.parameter), ..c },
        ProposalKind::Deop => ChannelView {
            opers: c.opers.filter(differs_from(p.parameter)),
            ..c
        },
        ProposalKind::Mode => ChannelView { mode: p.parameter, ..c },
        _ => c,
    }
}

/// What enacting a proposal in `chan` takes, given the stored record of
/// the channel and the nickname of the services. A proposal to oper, deop
/// or kick the services themselves is refused. A change of owner, of the
/// opers or of the mode is written out before it is applied.
pub open spec fn enact_steps(
    p: ProposalView,
    record: Option<ChannelView>,
    me: Seq<char>,
    chan: Seq<char>,
) -> Seq<Step> {
    match record {
        None => seq![send(privmsg(chan, text_not_enacted(p)))],
        Some(c) => {
            let after = enacted_on(p, c);
            let done = send(privmsg(chan, text_enacted(p)));
            match p.kind {
                ProposalKind::ChangeOwner => seq![
                    save_channel(after),
                    send(samode(chan, "-q"@, c.owner)),
                    send(samode(chan, "+q"@, p.parameter)),
                    done,
                ],
                ProposalKind::Oper => if p.parameter == me {
                    seq![send(privmsg(chan, text_about_me()))]
                } else {
                    seq![save_channel(after), send(samode(chan, "+o"@, p.parameter)), done]
                },
                ProposalKind::Deop => if p.parameter == me {
                    seq![send(privmsg(chan, text_about_me()))]
                } else {
                    seq![save_channel(after), send(samode(chan, "-o"@, p.parameter)), done]
                },
                ProposalKind::Kick => if p.parameter == me {
                    seq![send(privmsg(chan, text_about_me()))]
                } else {
                    seq![send(kick(chan, p.parameter, text_decided())), done]
                },
                ProposalKind::Topic => seq![send(topic(chan, p.parameter)), done],
                ProposalKind::Mode => seq![
                    save_channel(after),
                    send(samode(chan, p.parameter, Seq::empty())),
                    done,
                ],
            }
        },
    }
}

/// Whether enacting a proposal writes the channel's record out.
pub open spec fn enact_saves(p: ProposalView, record: Option<ChannelView>, me: Seq<char>) -> bool {
    record is Some && match p.kind {
        ProposalKind::ChangeOwner => true,
        ProposalKind::Oper => p.parameter != me,
        ProposalKind::Deop => p.parameter != me,
        ProposalKind::Mode => true,
        _ => false,
    }
}

/// The stored records after a proposal was enacted in `chan`.
pub open spec fn enact_store(
    p: ProposalView,
    store: StoreView,
    me: Seq<char>,
    chan: Seq<char>,
) -> StoreView {
    if enact_saves(p, store.channel(chan), me) {
        store.with_channel(enacted_on(p, store.channel(chan)->Some_0))
    } else {
        store
    }
}

impl Proposal {
    /// What the proposal would do, in words.
    pub fn display(&self) -> (r: String)
        ensures
            r@ == display_text(self@),
    {
        let mut r = match self.kind {
            ProposalKind::ChangeOwner => "change the owner to ".to_owned(),
            ProposalKind::Oper => "oper ".to_owned(),
            ProposalKind::Deop => "deop ".to_owned(),
            ProposalKind::Kick => "kick ".to_owned(),
            ProposalKind::Topic => "change the topic to ".to_owned(),
            ProposalKind::Mode => "change the channel mode to ".to_owned(),
        };
        r.append(self.parameter.as_str());
        r
    }

    /// Reads a proposal: one of `chown`, `oper`, `deop`, `kick`, `topic` and
    /// `mode`, with its parameter.
    pub fn from_str(proposal: &str, parameter: &str) -> (r: Option<Proposal>)
        ensures
            match kind_of(proposal@) {
                Some(kind) => r matches Some(p) && p@ == (ProposalView {
                    kind,
                    parameter: parameter@,
                }),
                None => r is None,
            },
    {
        let kind = if same(proposal, "chown") {
            ProposalKind::ChangeOwner
        } else if same(proposal, "oper") {
            ProposalKind::Oper
        } else if same(proposal, "deop") {
            ProposalKind::Deop
        } else if same(proposal, "kick") {
            ProposalKind::Kick
        } else if same(proposal, "topic") {
            ProposalKind::Topic
        } else if same(proposal, "mode") {
            ProposalKind::Mode
        } else {
            return None;
        };
        Some(Proposal { kind, parameter: parameter.to_owned() })
    }

    /// Whether the proposal is put to everyone with voice in the channel.
    pub fn is_full_vote(&self) -> (r: bool)
        ensures
            r == is_full(self@.kind),
    {
        match self.kind {
            ProposalKind::ChangeOwner => true,
            ProposalKind::Oper => true,
            ProposalKind::Deop => true,
            _ => false,
        }
    }

    /// A copy of the proposal.
    pub fn copy(&self) -> (p: Proposal)
        ensures
            p@ == self@,
    {
        Proposal { kind: self.kind, parameter: self.parameter.clone() }
    }

    /// Enacts the proposal, which has passed, in `chan`: changes the stored
    /// record of the channel where the proposal asks for it, and answers
    /// with what is to be written out and sent.
    pub fn enact(&self, store: &mut Store, config: &Config, chan: &str) -> (out: Vec<Action>)
        requires
            old(store).wf(),
        ensures
            final(store).wf(),
            steps(out@) == enact_steps(self@, old(store).channel(chan@), config.nickname@, chan@),
            final(store)@ == enact_store(self@, old(store)@, config.nickname@, chan@),
    {
        let mut out = no_steps();
        let loaded = Channel::load(store, chan);
        if loaded.is_err() {
            let mut text = "Failed to enact proposal to ".to_owned();
            text.append(self.display().as_str());
            text.append(".");
            push_step(&mut out, Action::send(Directive::privmsg(chan, text.as_str())));
            return out;
        }
        let mut channel = loaded.unwrap();
        let user = self.parameter.as_str();
        let about_me = same(user, config.nickname.as_str());
        match self.kind {
            ProposalKind::ChangeOwner => {
                let old_owner = channel.owner.clone();
                channel.owner = self.parameter.clone();
                push_step(&mut out, channel.save(store));
                push_step(&mut out, Action::send(Directive::samode(chan, "-q", old_owner.as_str())));
                push_step(&mut out, Action::send(Directive::samode(chan, "+q", user)));
            },
            ProposalKind::Oper => {
                if about_me {
                    push_step(
                        &mut out,
                        Action::send(Directive::privmsg(chan, "Votes about me cannot be enacted.")),
                    );
                    return out;
                }
                let owned = self.parameter.clone();
                assert(texts(channel.opers@.push(owned)) =~= texts(channel.opers@).push(owned@));
                channel.opers.push(owned);
                push_step(&mut out, channel.save(store));
                push_step(&mut out, Action::send(Directive::samode(chan, "+o", user)));
            },
            ProposalKind::Deop => {
                if about_me {
                    push_step(
                        &mut out,
                        Action::send(Directive::privmsg(chan, "Votes about me cannot be enacted.")),
                    );
                    return out;
                }
                channel.opers = without(&channel.opers, user);
                push_step(&mut out, channel.save(store));
                push_step(&mut out, Action::send(Directive::samode(chan, "-o", user)));
            },
            ProposalKind::Kick => {
                if about_me {
                    push_step(
                        &mut out,
                        Action::send(Directive::privmsg(chan, "Votes about me cannot be enacted.")),
                    );
                    return out;
                }
                push_step(
                    &mut out,
                    Action::send(Directive::kick(chan, user, "It was decided so.")),
                );
            },
            ProposalKind::Topic => {
                push_step(&mut out, Action::send(Directive::topic(chan, user)));
            },
            ProposalKind::Mode => {
                channel.mode = self.parameter.clone();
                push_step(&mut out, channel.save(store));
                push_step(&mut out, Action::send(Directive::samode(chan, user, "")));
            },
        }
        let mut text = "Enacted proposal to ".to_owned();
        text.append(self.display().as_str());
        text.append(".");
        push_step(&mut out, Action::send(Directive::privmsg(chan, text.as_str())));
        proof {
            empty_text();
        }
        out
    }
}

/// What became of an attempt to vote.
#[derive(Debug, Clone, Copy, PartialEq, Eq, Structural)]
pub enum VotingResult {
    VoteIssued,
    InvalidVote,
    NoSuchProposal,
}

/// Where the vote on a proposal stands.
#[derive(Debug, PartialEq, Eq)]
pub enum VoteResult {
    VotePassed(Proposal),
    VoteFailed,
    VoteInProgress,
    NoSuchVote,
}

/// Where the vote on a proposal stands, in the picture of the booth.
pub enum Verdict {
    VotePassed(ProposalView),
    VoteFailed,
    VoteInProgress,
    NoSuchVote,
}

impl View for VoteResult {
    type V = Verdict;

    open spec fn view(&self) -> Verdict {
        match self {
            VoteResult::VotePassed(p) => Verdict::VotePassed(p@),
            VoteResult::VoteFailed => Verdict::VoteFailed,
            VoteResult::VoteInProgress => Verdict::VoteInProgress,
            VoteResult::NoSuchVote => Verdict::NoSuchVote,
        }
    }
}

/// The first vote in a user's list that is on the proposal `id`.
pub open spec fn first_for(list: Seq<Vote>, id: u8) -> Option<Vote>
    decreases list.len(),
{
    if list.len() == 0 {
        None
    } else if vote_id(list.first()) == id {
        Some(list.first())
    } else {
        first_for(list.drop_first(), id)
    }
}

/// Whether a user's list counts as a yea (or, with `yea` false, as a nay)
/// on the proposal `id`: its first vote on the proposal decides.
pub open spec fn counts_as(list: Seq<Vote>, id: u8, yea: bool) -> bool {
    match first_for(list, id) {
        Some(Vote::Yea(_)) => yea,
        Some(Vote::Nay(_)) => !yea,
        None => false,
    }
}

/// How many users count as a yea (or as a nay) on the proposal `id`.
pub open spec fn count_votes(votes: Seq<Seq<Vote>>, id: u8, yea: bool) -> nat
    decreases votes.len(),
{
    if votes.len() == 0 {
        0
    } else {
        count_votes(votes.drop_last(), id, yea) + if counts_as(votes.last(), id, yea) {
            1nat
        } else {
            0nat
        }
    }
}

/// The test that a vote is on another proposal than `id`.
pub open spec fn other_than(id: u8) -> spec_fn(Vote) -> bool {
    |v: Vote| vote_id(v) != id
}

/// Whether `yea` of `pop` voters carry a proposal: six in ten where
/// everyone with voice is asked, three in ten otherwise.
pub open spec fn passes(full: bool, yea: nat, pop: nat) -> bool {
    if full {
        yea * 100 / pop >= 60
    } else {
        yea * 100 / pop >= 30
    }
}

/// Whether `nay` of `pop` voters defeat a proposal: four in ten where
/// everyone with voice is asked, seven in ten otherwise.
pub open spec fn fails(full: bool, nay: nat, pop: nat) -> bool {
    if full {
        nay * 100 / pop >= 40
    } else {
        nay * 100 / pop >= 70
    }
}

/// The line that lists an open proposal with the votes so far.
pub open spec fn text_active(id: u8, p: ProposalView, yea: nat, nay: nat) -> Seq<char> {
    "Proposal ("@ + decimal_text(id as nat) + ") to "@ + display_text(p) + " (Y: "@ + decimal_text(
        yea,
    ) + ", N: "@ + decimal_text(nay) + ")."@
}

/// The picture of a booth that the rules speak of.
pub struct Booth {
    /// The open proposals, by id.
    pub proposals: Map<u8, ProposalView>,
    /// The users who have voted, in the order of their first vote.
    pub voters: Seq<Seq<char>>,
    /// The votes of each of them, in the order in which they were cast.
    pub votes: Seq<Seq<Vote>>,
    pub last_proposal: u8,
}

impl Booth {
    /// Every voter has a list of votes, and nobody is listed twice.
    pub open spec fn wf(self) -> bool {
        self.voters.len() == self.votes.len() && self.voters.no_duplicates()
    }

    /// A booth with no proposals and no votes.
    pub open spec fn new() -> Booth {
        Booth {
            proposals: Map::empty(),
            voters: Seq::empty(),
            votes: Seq::empty(),
            last_proposal: 0,
        }
    }

    /// The id that the next proposal gets: one more than the last, unless
    /// no proposal is open, in which case the last id is used again. After
    /// 255 the ids start again at zero.
    pub open spec fn next_id(self) -> u8 {
        if self.proposals.dom() =~= Set::empty() {
            self.last_proposal
        } else if self.last_proposal == 255 {
            0
        } else {
            (self.last_proposal + 1) as u8
        }
    }

    /// A proposal is made. A known kind opens a proposal under the next
    /// id; an unknown kind changes nothing.
    pub open spec fn propose(self, token: Seq<char>, parameter: Seq<char>) -> (Booth, Option<u8>) {
        let id = self.next_id();
        match kind_of(token) {
            Some(kind) => (
                Booth {
                    proposals: self.proposals.insert(id, ProposalView { kind, parameter }),
                    last_proposal: id,
                    ..self
                },
                Some(id),
            ),
            None => (self, None),
        }
    }

    /// The votes that `user` has cast.
    pub open spec fn votes_of(self, user: Seq<char>) -> Seq<Vote> {
        if self.voters.contains(user) {
            self.votes[self.voters.index_of(user)]
        } else {
            Seq::empty()
        }
    }

    /// Whether `user` has a vote on the proposal `id`.
    pub open spec fn has_voted(self, id: u8, user: Seq<char>) -> bool {
        exists|i: int| 0 <= i < self.votes_of(user).len() && vote_id(self.votes_of(user)[i]) == id
    }

    /// The booth with one more vote of `user`.
    pub open spec fn with_vote(self, user: Seq<char>, v: Vote) -> Booth {
        if self.voters.contains(user) {
            let i = self.voters.index_of(user);
            Booth { votes: self.votes.update(i, self.votes[i].push(v)), ..self }
        } else {
            Booth { voters: self.voters.push(user), votes: self.votes.push(seq![v]), ..self }
        }
    }

    /// `user` votes on the proposal `id`. The token is looked at first.
    pub open spec fn vote(self, id: u8, token: Seq<char>, user: Seq<char>) -> (
        Booth,
        VotingResult,
    ) {
        match vote_of(token, id) {
            None => (self, VotingResult::InvalidVote),
            Some(v) => if self.proposals.contains_key(id) {
                (self.with_vote(user, v), VotingResult::VoteIssued)
            } else {
                (self, VotingResult::NoSuchProposal)
            },
        }
    }

    /// How many users count as a yea on the proposal `id`.
    pub open spec fn yeas(self, id: u8) -> nat {
        count_votes(self.votes, id, true)
    }

    /// How many users count as a nay on the proposal `id`.
    pub open spec fn nays(self, id: u8) -> nat {
        count_votes(self.votes, id, false)
    }

    /// The booth without the proposal `id` and without any vote on it.
    pub open spec fn purged(self, id: u8) -> Booth {
        Booth {
            proposals: self.proposals.remove(id),
            votes: Seq::new(self.votes.len(), |i: int| self.votes[i].filter(other_than(id))),
            ..self
        }
    }

    /// The vote on the proposal `id` is looked at, with `pop` users
    /// entitled to vote. A proposal that passes or fails leaves the booth
    /// with all votes on it.
    pub open spec fn get_result_of_vote(self, id: u8, pop: nat) -> (Booth, Verdict) {
        if !self.proposals.contains_key(id) {
            (self, Verdict::NoSuchVote)
        } else {
            let full = is_full(self.proposals[id].kind);
            if passes(full, self.yeas(id), pop) {
                (self.purged(id), Verdict::VotePassed(self.proposals[id]))
            } else if fails(full, self.nays(id), pop) {
                (self.purged(id), Verdict::VoteFailed)
            } else {
                (self, Verdict::VoteInProgress)
            }
        }
    }

    /// One line for each open proposal with an id below `n`, in the order
    /// of the ids.
    pub open spec fn active_below(self, n: nat) -> Seq<Seq<char>>
        decreases n,
    {
        if n == 0 {
            Seq::empty()
        } else {
            let id = (n - 1) as u8;
            let before = self.active_below((n - 1) as nat);
            if self.proposals.contains_key(id) {
                before.push(text_active(id, self.proposals[id], self.yeas(id), self.nays(id)))
            } else {
                before
            }
        }
    }

    /// One line for each open proposal, in the order of the ids.
    pub open spec fn get_active_proposals(self) -> Seq<Seq<char>> {
        self.active_below(256)
    }

    /// Whether the proposal `id` is open and put to everyone with voice.
    pub open spec fn is_full_vote(self, id: u8) -> bool {
        self.proposals.contains_key(id) && is_full(self.proposals[id].kind)
    }
}

/// The voting booth of a channel.
#[derive(Debug, PartialEq, Eq)]
pub struct Democracy {
    pub proposals: HashMap<u8, Proposal>,
    pub votes: NameMap<Vec<Vote>>,
    pub last_proposal: u8,
}

impl View for Democracy {
    type V = Booth;

    open spec fn view(&self) -> Booth {
        Booth {
            proposals: Map::new(
                |id: u8| self.proposals@.contains_key(id),
                |id: u8| self.proposals@[id]@,
            ),
            voters: self.votes.keys(),
            votes: Seq::new(self.votes.values().len(), |i: int| self.votes.values()[i]@),
            last_proposal: self.last_proposal,
        }
    }
}

/// The votes of a list that are on other proposals than `id`.
fn purged_list(list: &Vec<Vote>, id: u8) -> (r: Vec<Vote>)
    ensures
        r@ == list@.filter(other_than(id)),
{
    let ghost keep = other_than(id);
    let mut r: Vec<Vote> = Vec::new();
    let mut i: usize = 0;
    while i < list.len()
        invariant
            i <= list.len(),
            keep == other_than(id),
            r@ == list@.take(i as int).filter(keep),
        decreases list.len() - i,
    {
        proof {
            assert(list@.take(i + 1).drop_last() =~= list@.take(i as int));
            reveal(Seq::filter);
        }
        if list[i].id() != id {
            r.push(list[i]);
        }
        i = i + 1;
    }
    assert(list@.take(list.len() as int) =~= list@);
    r
}

impl Democracy {
    /// Nobody is listed twice among the voters.
    pub open spec fn wf(&self) -> bool {
        self.votes.wf()
    }

    /// A booth with no proposals and no votes.
    pub fn new() -> (d: Democracy)
        ensures
            d.wf(),
            d@ == Booth::new(),
    {
        let d = Democracy { proposals: HashMap::new(), votes: NameMap::new(), last_proposal: 0 };
        assert(d@.proposals =~= Map::empty());
        assert(d@.votes =~= Seq::empty());
        d
    }

    /// Opens a proposal and answers with its id. Where the kind is unknown
    /// it answers with nothing and leaves the booth as it was.
    pub fn propose(&mut self, proposal: &str, parameter: &str) -> (r: Option<u8>)
        requires
            old(self).wf(),
        ensures
            final(self).wf(),
            final(self)@ == old(self)@.propose(proposal@, parameter@).0,
            r == old(self)@.propose(proposal@, parameter@).1,
    {
        match Proposal::from_str(proposal, parameter) {
            Some(p) => {
                let ghost view = p@;
                if !self.proposals.is_empty() {
                    self.last_proposal = if self.last_proposal == 255 {
                        0
                    } else {
                        self.last_proposal + 1
                    };
                }
                self.proposals.insert(self.last_proposal, p);
                assert(self@.proposals =~= old(self)@.proposals.insert(self.last_proposal, view));
                Some(self.last_proposal)
            },
            None => None,
        }
    }

    /// Whether `user` has voted on the proposal.
    pub fn has_voted(&self, proposal_id: u8, user: &str) -> (r: bool)
        requires
            self.wf(),
        ensures
            r == self@.has_voted(proposal_id, user@),
    {
        match self.votes.find(user) {
            Some(at) => {
                let list = self.votes.item(at);
                let mut i: usize = 0;
                while i < list.len()
                    invariant
                        i <= list.len(),
                        self@.votes_of(user@) == list@,
                        forall|j: int| 0 <= j < i ==> vote_id(list@[j]) != proposal_id,
                    decreases list.len() - i,
                {
                    if list[i].id() == proposal_id {
                        return true;
                    }
                    i = i + 1;
                }
                false
            },
            None => false,
        }
    }

    /// Records a vote of `user` on the proposal. The booth does not refuse
    /// a second vote of the same user; only the first one counts.
    pub fn vote(&mut self, proposal_id: u8, vote: &str, user: &str) -> (r: VotingResult)
        requires
            old(self).wf(),
        ensures
            final(self).wf(),
            final(self)@ == old(self)@.vote(proposal_id, vote@, user@).0,
            r == old(self)@.vote(proposal_id, vote@, user@).1,
    {
        let vote = Vote::from_str(vote, proposal_id);
        if vote.is_none() {
            VotingResult::InvalidVote
        } else if self.proposals.contains_key(&proposal_id) {
            let v = vote.unwrap();
            match self.votes.find(user) {
                Some(at) => {
                    let list = self.votes.item_mut(at);
                    list.push(v);
                    assert(self@.votes =~= old(self)@.votes.update(
                        at as int,
                        old(self)@.votes[at as int].push(v),
                    ));
                },
                None => {
                    let mut list: Vec<Vote> = Vec::new();
                    list.push(v);
                    self.votes.insert(user, list);
                    assert(self@.votes =~= old(self)@.votes.push(seq![v]));
                },
            }
            VotingResult::VoteIssued
        } else {
            VotingResult::NoSuchProposal
        }
    }

    /// The first vote of a list that is on the proposal.
    fn find_vote(&self, votes: &Vec<Vote>, proposal_id: u8) -> (r: Option<Vote>)
        ensures
            r == first_for(votes@, proposal_id),
    {
        let mut i: usize = 0;
        assert(votes@.skip(0) =~= votes@);
        while i < votes.len()
            invariant
                i <= votes.len(),
                first_for(votes@, proposal_id) == first_for(votes@.skip(i as int), proposal_id),
            decreases votes.len() - i,
        {
            assert(votes@.skip(i as int).drop_first() =~= votes@.skip(i + 1));
            if votes[i].id() == proposal_id {
                return Some(votes[i]);
            }
            i = i + 1;
        }
        None
    }

    /// How many users count as yea and as nay on an open proposal.
    fn get_vote_counts(&self, proposal_id: u8) -> (r: Option<(usize, usize)>)
        requires
            self.wf(),
        ensures
            match r {
                Some((yea, nay)) => {
                    &&& self@.proposals.contains_key(proposal_id)
                    &&& yea == self@.yeas(proposal_id)
                    &&& nay == self@.nays(proposal_id)
                },
                None => !self@.proposals.contains_key(proposal_id),
            },
    {
        if !self.proposals.contains_key(&proposal_id) {
            return None;
        }
        let mut yea: usize = 0;
        let mut nay: usize = 0;
        let mut i: usize = 0;
        while i < self.votes.len()
            invariant
                self.wf(),
                i <= self.votes.values().len(),
                yea <= i,
                nay <= i,
                yea == count_votes(self@.votes.take(i as int), proposal_id, true),
                nay == count_votes(self@.votes.take(i as int), proposal_id, false),
            decreases self.votes.values().len() - i,
        {
            assert(self@.votes.take(i + 1).drop_last() =~= self@.votes.take(i as int));
            match self.find_vote(self.votes.item(i), proposal_id) {
                Some(Vote::Yea(_)) => {
                    yea = yea + 1;
                },
                Some(Vote::Nay(_)) => {
                    nay = nay + 1;
                },
                None => {},
            }
            i = i + 1;
        }
        assert(self@.votes.take(i as int) =~= self@.votes);
        Some((yea, nay))
    }

    /// Drops every vote on the proposal.
    fn delete_all_votes(&mut self, proposal_id: u8)
        requires
            old(self).wf(),
        ensures
            final(self).wf(),
            final(self)@ == (Booth {
                votes: Seq::new(
                    old(self)@.votes.len(),
                    |i: int| old(self)@.votes[i].filter(other_than(proposal_id)),
                ),
                ..old(self)@
            }),
    {
        let mut i: usize = 0;
        while i < self.votes.len()
            invariant
                self.wf(),
                i <= self.votes.values().len(),
                self.proposals == old(self).proposals,
                self.last_proposal == old(self).last_proposal,
                self.votes.keys() == old(self).votes.keys(),
                self.votes.values().len() == old(self).votes.values().len(),
                forall|j: int|
                    0 <= j < i ==> (#[trigger] self.votes.values()[j])@ == old(
                        self,
                    ).votes.values()[j]@.filter(other_than(proposal_id)),
                forall|j: int|
                    i <= j < self.votes.values().len() ==> #[trigger] self.votes.values()[j] == old(
                        self,
                    ).votes.values()[j],
            decreases self.votes.values().len() - i,
        {
            let kept = purged_list(self.votes.item(i), proposal_id);
            self.votes.set(i, kept);
            i = i + 1;
        }
        assert(self@.votes =~= Seq::new(
            old(self)@.votes.len(),
            |i: int| old(self)@.votes[i].filter(other_than(proposal_id)),
        ));
    }

    /// Looks at the vote on a proposal, `voting_pop` users being entitled
    /// to vote. A proposal that has passed or failed is closed, and every
    /// vote on it dropped.
    pub fn get_result_of_vote(&mut self, proposal_id: u8, voting_pop: usize) -> (r: VoteResult)
        requires
            old(self).wf(),
            voting_pop > 0 || !old(self)@.proposals.contains_key(proposal_id),
        ensures
            final(self).wf(),
            final(self)@ == old(self)@.get_result_of_vote(proposal_id, voting_pop as nat).0,
            r@ == old(self)@.get_result_of_vote(proposal_id, voting_pop as nat).1,
    {
        match self.get_vote_counts(proposal_id) {
            None => VoteResult::NoSuchVote,
            Some((yea, nay)) => {
                let full = self.proposals.get(&proposal_id).unwrap().is_full_vote();
                let yeas: u128 = yea as u128 * 100 / (voting_pop as u128);
                let nays: u128 = nay as u128 * 100 / (voting_pop as u128);
                if (full && yeas >= 60) || (!full && yeas >= 30) {
                    self.delete_all_votes(proposal_id);
                    let p = self.proposals.remove(&proposal_id).unwrap();
                    assert(self@.proposals =~= old(self)@.proposals.remove(proposal_id));
                    VoteResult::VotePassed(p)
                } else if (full && nays >= 40) || (!full && nays >= 70) {
                    self.proposals.remove(&proposal_id);
                    self.delete_all_votes(proposal_id);
                    assert(self@.proposals =~= old(self)@.proposals.remove(proposal_id));
                    VoteResult::VoteFailed
                } else {
                    VoteResult::VoteInProgress
                }
            },
        }
    }

    /// One line for each open proposal, with the votes so far, in the
    /// order of the ids.
    pub fn get_active_proposals(&self) -> (r: Vec<String>)
        requires
            self.wf(),
        ensures
            texts(r@) == self@.get_active_proposals(),
    {
        let mut ret: Vec<String> = Vec::new();
        let mut n: usize = 0;
        while n < 256
            invariant
                self.wf(),
                n <= 256,
                texts(ret@) == self@.active_below(n as nat),
            decreases 256 - n,
        {
            let id: u8 = n as u8;
            match self.proposals.get(&id) {
                Some(proposal) => {
                    let counts = self.get_vote_counts(id).unwrap();
                    let mut line = "Proposal (".to_owned();
                    line.append(decimal(n).as_str());
                    line.append(") to ");
                    line.append(proposal.display().as_str());
                    line.append(" (Y: ");
                    line.append(decimal(counts.0).as_str());
                    line.append(", N: ");
                    line.append(decimal(counts.1).as_str());
                    line.append(").");
                    ret.push(line);
                },
                None => {},
            }
            n = n + 1;
        }
        ret
    }

    /// Whether the proposal is open and put to everyone with voice.
    pub fn is_full_vote(&self, proposal_id: u8) -> (r: bool)
        ensures
            r == self@.is_full_vote(proposal_id),
    {
        match self.proposals.get(&proposal_id) {
            Some(p) => p.is_full_vote(),
            None => false,
        }
    }
}

/// The thresholds as fractions of the population: a proposal put to
/// everyone passes with six tenths in favour and fails with four tenths
/// against; any other passes with three tenths and fails with seven.
pub proof fn thresholds_are_fractions(count: nat, pop: nat)
    requires
        pop > 0,
    ensures
        passes(true, count, pop) <==> 10 * count >= 6 * pop,
        fails(true, count, pop) <==> 10 * count >= 4 * pop,
        passes(false, count, pop) <==> 10 * count >= 3 * pop,
        fails(false, count, pop) <==> 10 * count >= 7 * pop,
{
    assert(count * 100 / pop >= 60 <==> count * 100 >= 60 * pop) by (nonlinear_arith)
        requires
            pop > 0,
    ;
    assert(count * 100 / pop >= 40 <==> count * 100 >= 40 * pop) by (nonlinear_arith)
        requires
            pop > 0,
    ;
    assert(count * 100 / pop >= 30 <==> count * 100 >= 30 * pop) by (nonlinear_arith)
        requires
            pop > 0,
    ;
    assert(count * 100 / pop >= 70 <==> count * 100 >= 70 * pop) by (nonlinear_arith)
        requires
            pop > 0,
    ;
}

/// Where the vote on an open proposal stands, by the fractions in favour
/// and against: passed with enough in favour; else failed with enough
/// against; else still in progress.
pub proof fn result_follows_thresholds(b: Booth, id: u8, pop: nat)
    requires
        b.proposals.contains_key(id),
        pop > 0,
    ensures
        ({
            let full = is_full(b.proposals[id].kind);
            let verdict = b.get_result_of_vote(id, pop).1;
            let enough_for: int = if full {
                6
            } else {
                3
            };
            let enough_against: int = if full {
                4
            } else {
                7
            };
            &&& 10 * b.yeas(id) >= enough_for * pop ==> verdict == Verdict::VotePassed(
                b.proposals[id],
            )
            &&& 10 * b.yeas(id) < enough_for * pop && 10 * b.nays(id) >= enough_against * pop
                ==> verdict == Verdict::VoteFailed
            &&& 10 * b.yeas(id) < enough_for * pop && 10 * b.nays(id) < enough_against * pop
                ==> verdict == Verdict::VoteInProgress
        }),
{
    thresholds_are_fractions(b.yeas(id), pop);
    thresholds_are_fractions(b.nays(id), pop);
}

/// A proposal of a known kind is opened under the id it is answered with,
/// and the first vote of a user who has not voted before is issued and
/// counted: one more yea for `yea`, one more nay for `nay`.
pub proof fn proposal_and_vote_round_trip(
    b: Booth,
    token: Seq<char>,
    parameter: Seq<char>,
    vote: Seq<char>,
    user: Seq<char>,
)
    requires
        b.wf(),
        kind_of(token) is Some,
        vote == "yea"@ || vote == "nay"@,
        !b.voters.contains(user),
    ensures
        ({
            let (opened, id) = b.propose(token, parameter);
            let (voted, issued) = opened.vote(id->Some_0, vote, user);
            &&& id is Some
            &&& opened.proposals.contains_key(id->Some_0)
            &&& opened.proposals[id->Some_0] == (ProposalView {
                kind: kind_of(token)->Some_0,
                parameter,
            })
            &&& issued == VotingResult::VoteIssued
            &&& voted.wf()
            &&& voted.has_voted(id->Some_0, user)
            &&& voted.proposals == opened.proposals
            &&& voted.yeas(id->Some_0) == b.yeas(id->Some_0) + if vote == "yea"@ {
                1nat
            } else {
                0nat
            }
            &&& voted.nays(id->Some_0) == b.nays(id->Some_0) + if vote == "yea"@ {
                0nat
            } else {
                1nat
            }
        }),
{
    reveal_strlit("yea");
    reveal_strlit("nay");
    let (opened, id) = b.propose(token, parameter);
    let i = id->Some_0;
    let (voted, issued) = opened.vote(i, vote, user);
    let v = vote_of(vote, i)->Some_0;
    assert(voted.votes.drop_last() =~= b.votes);
    assert(first_for(seq![v], i) == Some(v));
    assert(voted.voters[b.voters.len() as int] == user);
    assert(voted.votes_of(user) == seq![v]);
}

/// A proposal of an unknown kind is refused and changes nothing: the
/// proposal after it gets the id that it would have got without it.
pub proof fn unknown_kind_changes_nothing(
    b: Booth,
    token: Seq<char>,
    parameter: Seq<char>,
    next: Seq<char>,
    text: Seq<char>,
)
    requires
        kind_of(token) is None,
    ensures
        b.propose(token, parameter) == (b, None::<u8>),
        b.propose(token, parameter).0.propose(next, text) == b.propose(next, text),
{
}

/// In a new booth the first proposal gets the id zero, and one yea out of
/// a population of one passes it.
pub proof fn single_voter_passes(token: Seq<char>, parameter: Seq<char>, user: Seq<char>)
    requires
        kind_of(token) is Some,
    ensures
        ({
            let (opened, id) = Booth::new().propose(token, parameter);
            let (voted, issued) = opened.vote(0, "yea"@, user);
            &&& id == Some(0u8)
            &&& issued == VotingResult::VoteIssued
            &&& voted.get_result_of_vote(0, 1).1 == Verdict::VotePassed(
                ProposalView { kind: kind_of(token)->Some_0, parameter },
            )
        }),
{
    let b = Booth::new();
    proposal_and_vote_round_trip(b, token, parameter, "yea"@, user);
    let (opened, id) = b.propose(token, parameter);
    let (voted, issued) = opened.vote(0, "yea"@, user);
    result_follows_thresholds(voted, 0, 1);
}

/// Whatever happens in a booth leaves it a booth.
pub proof fn steps_keep_a_booth(
    b: Booth,
    id: u8,
    token: Seq<char>,
    text: Seq<char>,
    user: Seq<char>,
    pop: nat,
)
    requires
        b.wf(),
    ensures
        b.propose(token, text).0.wf(),
        b.vote(id, token, user).0.wf(),
        b.get_result_of_vote(id, pop).0.wf(),
{
    if !b.voters.contains(user) {
        let grown = b.voters.push(user);
        assert forall|i: int, j: int|
            0 <= i < grown.len() && 0 <= j < grown.len() && i != j implies grown[i] != grown[j] by {
            if i == b.voters.len() {
                assert(b.voters[j] != user);
            } else if j == b.voters.len() {
                assert(b.voters[i] != user);
            }
        }
    }
}

/// A proposal that has passed or failed is gone from the booth, and with
/// it every vote on it: nobody has voted on its id any more.
pub proof fn resolved_proposal_is_purged(b: Booth, id: u8, pop: nat, user: Seq<char>)
    requires
        b.wf(),
    ensures
        ({
            let (closed, verdict) = b.get_result_of_vote(id, pop);
            verdict is VotePassed || verdict is VoteFailed ==> {
                &&& !closed.proposals.contains_key(id)
                &&& !closed.has_voted(id, user)
                &&& closed.yeas(id) == 0
                &&& closed.nays(id) == 0
            }
        }),
{
    let (closed, verdict) = b.get_result_of_vote(id, pop);
    if verdict is VotePassed || verdict is VoteFailed {
        assert forall|k: int| 0 <= k < closed.votes.len() implies first_for(
            #[trigger] closed.votes[k],
            id,
        ) is None by {
            no_vote_left(b.votes[k], id);
        }
        if closed.voters.contains(user) {
            let at = closed.voters.index_of(user);
            let list = closed.votes[at];
            assert forall|i: int| 0 <= i < list.len() implies vote_id(list[i]) != id by {
                b.votes[at].lemma_filter_pred(other_than(id), i);
            }
        }
        no_votes_counted(closed.votes, id, true);
        no_votes_counted(closed.votes, id, false);
    }
}

/// A list from which the votes on a proposal were taken has no first vote
/// on it.
proof fn no_vote_left(list: Seq<Vote>, id: u8)
    ensures
        first_for(list.filter(other_than(id)), id) is None,
{
    let kept = list.filter(other_than(id));
    assert forall|i: int| 0 <= i < kept.len() implies vote_id(kept[i]) != id by {
        list.lemma_filter_pred(other_than(id), i);
    }
    first_is_none(kept, id);
}

/// A list without a vote on a proposal has no first vote on it.
proof fn first_is_none(list: Seq<Vote>, id: u8)
    requires
        forall|i: int| 0 <= i < list.len() ==> vote_id(list[i]) != id,
    ensures
        first_for(list, id) is None,
    decreases list.len(),
{
    if list.len() > 0 {
        let rest = list.drop_first();
        assert forall|i: int| 0 <= i < rest.len() implies vote_id(rest[i]) != id by {
            assert(rest[i] == list[i + 1]);
        }
        first_is_none(rest, id);
    }
}

/// Where no list has a first vote on a proposal, nobody counts as a yea or
/// as a nay on it.
proof fn no_votes_counted(votes: Seq<Seq<Vote>>, id: u8, yea: bool)
    requires
        forall|k: int| 0 <= k < votes.len() ==> first_for(#[trigger] votes[k], id) is None,
    ensures
        count_votes(votes, id, yea) == 0,
    decreases votes.len(),
{
    if votes.len() > 0 {
        let rest = votes.drop_last();
        assert forall|k: int| 0 <= k < rest.len() implies first_for(#[trigger] rest[k], id)
            is None by {
            assert(rest[k] == votes[k]);
        }
        no_votes_counted(rest, id, yea);
    }
}

} // verus!
