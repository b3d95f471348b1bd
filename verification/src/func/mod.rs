//! The handlers: what the services do with each line that reaches them.

use vstd::prelude::*;
use vstd::string::*;
use crate::config::Config;
use crate::data::channel::{Channel, ChannelView};
use crate::data::democracy::{
    enact_steps, enact_store, Booth, Democracy, Verdict, VoteResult, VotingResult,
};
use crate::data::derp::DerpCounter;
use crate::data::HashError;
use crate::data::resistance::{is_shuffle, Game, Resistance};
use crate::data::state::{forgotten, full_pop, has_voice, online_pop, State, StateView};
use crate::data::store::{Store, StoreView};
use crate::text::{
    after, begins_with, decimal, decimal_text, differs_from, holds, join_lines, joined_lines,
    parse_u8, pieces, same, split_spaces, split_words, texts, u8_of, without, words,
};
use crate::text::{to_uppercase, uppercase_of};
use crate::wire::{
    empty_text, identify, join, lines, no_lines, no_steps, one_line, one_step, oper, privmsg,
    push_step, push_steps, samode, save_channel, save_derps_or, send, sends, steps, to_actions,
    topic, Action, Directive, Line, Step,
};

pub mod chanserv;
pub mod nickserv;

verus! {

/// What carrying a command of the services out comes to: who is identified
/// afterwards, the stored records afterwards, and the steps to take.
pub struct Effect {
    pub identified: Seq<Seq<char>>,
    pub store: StoreView,
    pub steps: Seq<Step>,
    /// Whether carrying it out takes the digest of a password. Only then
    /// can it fail.
    pub digests: bool,
}

/// A command of the nickname or the channel service, read and ready to be
/// carried out.
pub trait Functionality {
    /// What carrying the command out comes to, given who is identified,
    /// the stored records, and the nickname of the services.
    spec fn effect(&self, identified: Seq<Seq<char>>, store: StoreView, me: Seq<char>) -> Effect;

    /// Carries the command out. It fails only where it takes the digest of
    /// a password and that cannot be computed, and then changes nothing.
    fn do_func(&self, state: &mut State, store: &mut Store, config: &Config) -> (r: Result<
        Vec<Action>,
        HashError,
    >)
        requires
            old(state).wf(),
            old(store).wf(),
        ensures
            final(state).wf(),
            final(store).wf(),
            final(state).resistance == old(state).resistance,
            final(state).democracy == old(state).democracy,
            !self.effect(old(state)@.identified, old(store)@, config.nickname@).digests ==> r is Ok,
            match r {
                Ok(out) => {
                    let e = self.effect(old(state)@.identified, old(store)@, config.nickname@);
                    &&& final(state)@.identified == e.identified
                    &&& final(store)@ == e.store
                    &&& steps(out@) == e.steps
                },
                Err(_) => final(state)@.identified == old(state)@.identified && final(store)@
                    == old(store)@,
            },
    ;
}

/// What a command for the game comes to: the games afterwards, whether the
/// line was one for the game at all, and the lines to send.
pub struct Played {
    pub games: Map<Seq<char>, Game>,
    pub handled: bool,
    pub lines: Seq<Line>,
}

// The texts that the handlers send, word for word.

pub open spec fn text_dropped() -> Seq<char> {
    "The game of Resistance has been dropped."@
}

pub open spec fn text_may_join() -> Seq<char> {
    "Players may now join the game. Use `!start` to start."@
}

pub open spec fn text_not_in_private() -> Seq<char> {
    "You cannot start a game in a private message."@
}

pub open spec fn text_no_game_here() -> Seq<char> {
    "There's no Resistance game on this channel."@
}

pub open spec fn text_vote_like_so() -> Seq<char> {
    "You must vote like so: `!vote #chan <yea/nay>`."@
}

pub open spec fn text_no_game_there() -> Seq<char> {
    "There's no game on that channel."@
}

/// The games with the game of `chan` in its new state, or without it once
/// it is over.
pub open spec fn games_after(games: Map<Seq<char>, Game>, chan: Seq<char>, game: Game) -> Map<
    Seq<char>,
    Game,
> {
    if game.is_complete() {
        games.remove(chan)
    } else {
        games.insert(chan, game)
    }
}

/// The channel whose game a line is about, if any: the channel it was said
/// in, if that has a game, and otherwise the channel that a private vote
/// names.
pub open spec fn concerned(games: Map<Seq<char>, Game>, message: Seq<char>, chan: Seq<char>) -> Option<
    Seq<char>,
> {
    if games.contains_key(chan) {
        Some(chan)
    } else if "!vote "@.is_prefix_of(message) && games.contains_key(
        split_spaces(message.skip(6))[0],
    ) {
        Some(split_spaces(message.skip(6))[0])
    } else {
        None
    }
}

/// Whether `order` will do as a shuffle for a line: it rearranges the
/// players of the game that the line is about, if there is one.
pub open spec fn fits(
    games: Map<Seq<char>, Game>,
    message: Seq<char>,
    chan: Seq<char>,
    order: Seq<Seq<char>>,
) -> bool {
    match concerned(games, message, chan) {
        Some(c) => is_shuffle(order, games[c].players),
        None => true,
    }
}

/// What `user` saying `message` in `chan` (or, where `chan` is no channel,
/// in private) means for the games. `owners` are the owners of the
/// services, and `order` is the order in which the players of the game
/// concerned are shuffled where the rules call for it.
///
/// In a channel with a game: `!join`, `!start`, `!propose`, `!vote` on the
/// proposal, `!drop` by the leader or an owner, and `!players`. Elsewhere:
/// `!resistance` opens a game in a channel, `!players` finds none, and a
/// private `!vote #chan yea` is a vote on the mission. A game that a vote
/// finishes is taken away.
pub open spec fn resistance_step(
    games: Map<Seq<char>, Game>,
    owners: Seq<Seq<char>>,
    user: Seq<char>,
    message: Seq<char>,
    chan: Seq<char>,
    order: Seq<Seq<char>>,
) -> Played {
    if games.contains_key(chan) {
        let game = games[chan];
        if "!join"@.is_prefix_of(message) {
            let (g, l) = game.add_player(user);
            Played { games: games.insert(chan, g), handled: true, lines: l }
        } else if "!start"@.is_prefix_of(message) {
            let (g, l) = game.start(order);
            Played { games: games.insert(chan, g), handled: true, lines: l }
        } else if "!propose "@.is_prefix_of(message) {
            let (g, l) = game.propose_mission(user, message.skip(9));
            Played { games: games.insert(chan, g), handled: true, lines: l }
        } else if "!vote "@.is_prefix_of(message) {
            let (g, l) = game.cast_proposal_vote(user, message.skip(6), order);
            Played { games: games_after(games, chan, g), handled: true, lines: l }
        } else if "!drop"@.is_prefix_of(message) && (game.leader == user || owners.contains(user)) {
            Played {
                games: games.remove(chan),
                handled: true,
                lines: seq![privmsg(chan, text_dropped())],
            }
        } else if "!players"@.is_prefix_of(message) {
            Played { games, handled: true, lines: game.list_players() }
        } else {
            Played { games, handled: false, lines: Seq::empty() }
        }
    } else if "!resistance"@.is_prefix_of(message) && "#"@.is_prefix_of(chan) {
        Played {
            games: games.insert(chan, Game::new_game(user, chan)),
            handled: true,
            lines: seq![privmsg(chan, text_may_join())],
        }
    } else if "!resistance"@.is_prefix_of(message) {
        Played { games, handled: true, lines: seq![privmsg(user, text_not_in_private())] }
    } else if "!players"@.is_prefix_of(message) {
        Played { games, handled: true, lines: seq![privmsg(chan, text_no_game_here())] }
    } else if !"#"@.is_prefix_of(chan) && "!vote "@.is_prefix_of(message) {
        let tokens = split_spaces(message.skip(6));
        if tokens.len() != 2 {
            Played { games, handled: true, lines: seq![privmsg(user, text_vote_like_so())] }
        } else if games.contains_key(tokens[0]) {
            let (g, l) = games[tokens[0]].cast_mission_vote(user, tokens[1], order);
            Played { games: games_after(games, tokens[0], g), handled: true, lines: l }
        } else {
            Played { games, handled: true, lines: seq![privmsg(user, text_no_game_there())] }
        }
    } else {
        Played { games, handled: false, lines: Seq::empty() }
    }
}

/// Whether every game is a proper game that is not over.
pub open spec fn games_go_on(games: Map<Seq<char>, Game>) -> bool {
    forall|c: Seq<char>| #[trigger]
        games.contains_key(c) ==> games[c].wf() && !games[c].is_complete()
}

/// No line leaves a game that is over behind: where every game was a
/// proper game that was not over, every game still is.
pub proof fn finished_games_leave(
    games: Map<Seq<char>, Game>,
    owners: Seq<Seq<char>>,
    user: Seq<char>,
    message: Seq<char>,
    chan: Seq<char>,
    order: Seq<Seq<char>>,
)
    requires
        games_go_on(games),
        fits(games, message, chan, order),
    ensures
        games_go_on(resistance_step(games, owners, user, message, chan, order).games),
{
    let after = resistance_step(games, owners, user, message, chan, order).games;
    let fresh = Game::new_game(user, chan);
    assert(fresh.wf() && !fresh.is_complete()) by {
        assert(fresh.players[0] == user);
    }
    reveal_strlit("!vote ");
    reveal_strlit("!resistance");
    reveal_strlit("!players");
    if "!vote "@.is_prefix_of(message) {
        assert(message.subrange(0, 6)[1] == 'v');
    }
    if "!resistance"@.is_prefix_of(message) {
        assert(message.subrange(0, 11)[1] == 'r');
    }
    if "!players"@.is_prefix_of(message) {
        assert(message.subrange(0, 8)[1] == 'p');
    }
    match concerned(games, message, chan) {
        Some(c) => {
            let game = games[c];
            assert(games.contains_key(c));
            let tokens = split_spaces(message.skip(6));
            crate::data::resistance::steps_keep_a_game(game, user, message.skip(9), order);
            crate::data::resistance::steps_keep_a_game(game, user, message.skip(6), order);
            if !games.contains_key(chan) && tokens.len() == 2 {
                crate::data::resistance::steps_keep_a_game(game, user, tokens[1], order);
            }
            assert(!game.add_player(user).0.is_complete());
            assert(!game.start(order).0.is_complete());
            assert(!game.propose_mission(user, message.skip(9)).0.is_complete());
            assert forall|k: Seq<char>| #[trigger] after.contains_key(k) implies after[k].wf()
                && !after[k].is_complete() by {
                if k != c {
                    assert(games.contains_key(k));
                }
            }
        },
        None => {
            assert forall|k: Seq<char>| #[trigger] after.contains_key(k) implies after[k].wf()
                && !after[k].is_complete() by {
                if k != chan {
                    assert(games.contains_key(k));
                }
            }
        },
    }
}

/// Once the game at one position has changed, the games are the games
/// before with that game in its new state.
proof fn game_replaced(before: &State, now: &State, at: int)
    requires
        before.resistance.wf(),
        now.resistance.wf(),
        now.resistance.keys() == before.resistance.keys(),
        0 <= at < before.resistance.keys().len(),
        now.resistance.values().len() == before.resistance.values().len(),
        forall|j: int|
            0 <= j < before.resistance.values().len() && j != at ==> now.resistance.values()[j]
                == before.resistance.values()[j],
    ensures
        now@.games == before@.games.insert(
            before.resistance.keys()[at],
            now.resistance.values()[at]@,
        ),
{
    now.resistance.same_elsewhere(&before.resistance, at);
}

/// Takes the game of `chan`, which is over or was dropped, away.
fn drop_game(state: &mut State, chan: &str)
    requires
        old(state).resistance.wf(),
        old(state).democracy.wf(),
        forall|i: int|
            0 <= i < old(state).democracy.values().len() ==> (#[trigger] old(
                state,
            ).democracy.values()[i]).wf(),
        forall|i: int|
            0 <= i < old(state).resistance.values().len() && old(state).resistance.keys()[i]
                != chan@ ==> {
                &&& (#[trigger] old(state).resistance.values()[i]).wf()
                &&& !old(state).resistance.values()[i]@.is_complete()
            },
    ensures
        final(state).wf(),
        final(state).identified == old(state).identified,
        final(state).democracy == old(state).democracy,
        final(state)@.games == old(state)@.games.remove(chan@),
{
    state.resistance.remove(chan);
}

/// A line for the game of the channel it was said in.
fn in_game(
    state: &mut State,
    at: usize,
    config: &Config,
    user: &str,
    message: &str,
    chan: &str,
    order: Vec<String>,
) -> (r: (bool, Vec<Directive>))
    requires
        old(state).wf(),
        old(state).resistance.has(chan@),
        at == old(state).resistance.slot(chan@),
        is_shuffle(texts(order@), old(state)@.games[chan@].players),
    ensures
        final(state).wf(),
        final(state).identified == old(state).identified,
        final(state).democracy == old(state).democracy,
        ({
            let expected = resistance_step(
                old(state)@.games,
                texts(config.owners@),
                user@,
                message@,
                chan@,
                texts(order@),
            );
            &&& final(state)@.games == expected.games
            &&& r.0 == expected.handled
            &&& lines(r.1@) == expected.lines
        }),
{
    proof {
        reveal_strlit("!propose ");
        reveal_strlit("!vote ");
    }
    if begins_with(message, "!join") {
        let game = state.resistance.item_mut(at);
        let out = game.add_player(user);
        proof {
            game_replaced(old(state), state, at as int);
        }
        (true, out)
    } else if begins_with(message, "!start") {
        let game = state.resistance.item_mut(at);
        let out = game.start_shuffled(order);
        proof {
            game_replaced(old(state), state, at as int);
        }
        (true, out)
    } else if begins_with(message, "!propose ") {
        let rest = after(message, 9);
        let game = state.resistance.item_mut(at);
        let out = game.propose_mission(user, rest.as_str());
        proof {
            game_replaced(old(state), state, at as int);
        }
        (true, out)
    } else if begins_with(message, "!vote ") {
        let rest = after(message, 6);
        let game = state.resistance.item_mut(at);
        let out = game.cast_proposal_vote_shuffled(user, rest.as_str(), order);
        let over = game.is_complete();
        proof {
            game_replaced(old(state), state, at as int);
        }
        if over {
            drop_game(state, chan);
        }
        (true, out)
    } else if begins_with(message, "!drop") && (state.resistance.item(at).is_leader(user)
        || config.is_owner(user)) {
        drop_game(state, chan);
        (true, one_line(Directive::privmsg(chan, "The game of Resistance has been dropped.")))
    } else if begins_with(message, "!players") {
        (true, state.resistance.item(at).list_players())
    } else {
        (false, no_lines())
    }
}

/// A private vote on the mission of the game that it names.
fn mission_vote(state: &mut State, user: &str, message: &str, order: Vec<String>) -> (r: Vec<
    Directive,
>)
    requires
        old(state).wf(),
        "!vote "@.is_prefix_of(message@),
        ({
            let c = split_spaces(message@.skip(6))[0];
            old(state)@.games.contains_key(c) ==> is_shuffle(
                texts(order@),
                old(state)@.games[c].players,
            )
        }),
    ensures
        final(state).wf(),
        final(state).identified == old(state).identified,
        final(state).democracy == old(state).democracy,
        ({
            let games = old(state)@.games;
            let tokens = split_spaces(message@.skip(6));
            if tokens.len() != 2 {
                final(state)@.games == games && lines(r@) == seq![
                    privmsg(user@, text_vote_like_so()),
                ]
            } else if games.contains_key(tokens[0]) {
                let (g, l) = games[tokens[0]].cast_mission_vote(user@, tokens[1], texts(order@));
                final(state)@.games == games_after(games, tokens[0], g) && lines(r@) == l
            } else {
                final(state)@.games == games && lines(r@) == seq![
                    privmsg(user@, text_no_game_there()),
                ]
            }
        }),
{
    proof {
        reveal_strlit("!vote ");
    }
    let rest = after(message, 6);
    let tokens = pieces(rest.as_str());
    if tokens.len() != 2 {
        return one_line(Directive::privmsg(user, "You must vote like so: `!vote #chan <yea/nay>`."));
    }
    match state.resistance.find(tokens[0].as_str()) {
        Some(at) => {
            let game = state.resistance.item_mut(at);
            let out = game.cast_mission_vote_shuffled(user, tokens[1].as_str(), order);
            let over = game.is_complete();
            proof {
                game_replaced(old(state), state, at as int);
            }
            if over {
                drop_game(state, tokens[0].as_str());
            }
            out
        },
        None => one_line(Directive::privmsg(user, "There's no game on that channel.")),
    }
}

/// Handles a line that may be a command for the game of Resistance, with
/// `order` as the shuffle to use. Answers whether it was one, and with the
/// lines to send.
pub fn do_resistance_shuffled(
    state: &mut State,
    config: &Config,
    user: &str,
    message: &str,
    chan: &str,
    order: Vec<String>,
) -> (r: (bool, Vec<Directive>))
    requires
        old(state).wf(),
        fits(old(state)@.games, message@, chan@, texts(order@)),
    ensures
        final(state).wf(),
        final(state).identified == old(state).identified,
        final(state).democracy == old(state).democracy,
        ({
            let expected = resistance_step(
                old(state)@.games,
                texts(config.owners@),
                user@,
                message@,
                chan@,
                texts(order@),
            );
            &&& final(state)@.games == expected.games
            &&& r.0 == expected.handled
            &&& lines(r.1@) == expected.lines
        }),
{
    match state.resistance.find(chan) {
        Some(at) => in_game(state, at, config, user, message, chan, order),
        None => {
            if begins_with(message, "!resistance") && begins_with(chan, "#") {
                let game = Resistance::new_game(user, chan);
                state.resistance.insert(chan, game);
                (
                    true,
                    one_line(
                        Directive::privmsg(
                            chan,
                            "Players may now join the game. Use `!start` to start.",
                        ),
                    ),
                )
            } else if begins_with(message, "!resistance") {
                (
                    true,
                    one_line(
                        Directive::privmsg(user, "You cannot start a game in a private message."),
                    ),
                )
            } else if begins_with(message, "!players") {
                (
                    true,
                    one_line(
                        Directive::privmsg(chan, "There's no Resistance game on this channel."),
                    ),
                )
            } else if !begins_with(chan, "#") && begins_with(message, "!vote ") {
                (true, mission_vote(state, user, message, order))
            } else {
                (false, no_lines())
            }
        },
    }
}

/// A shuffle of the players of the game that a line is about.
fn shuffle_for(state: &State, message: &str, chan: &str) -> (order: Vec<String>)
    requires
        state.wf(),
    ensures
        fits(state@.games, message@, chan@, texts(order@)),
{
    match state.resistance.find(chan) {
        Some(at) => state.resistance.item(at).shuffled(),
        None => {
            if begins_with(message, "!vote ") {
                proof {
                    reveal_strlit("!vote ");
                }
                let tokens = pieces(after(message, 6).as_str());
                proof {
                    crate::text::split_spaces_nonempty(message@.skip(6));
                }
                match state.resistance.find(tokens[0].as_str()) {
                    Some(at) => state.resistance.item(at).shuffled(),
                    None => Vec::new(),
                }
            } else {
                Vec::new()
            }
        },
    }
}

/// Handles a line that may be a command for the game of Resistance.
/// Answers whether it was one, and with the lines to send. Where the rules
/// call for a shuffle, the players of the game are shuffled.
pub fn do_resistance(state: &mut State, config: &Config, user: &str, message: &str, chan: &str) -> (r:
    (bool, Vec<Directive>))
    requires
        old(state).wf(),
    ensures
        final(state).wf(),
        final(state).identified == old(state).identified,
        final(state).democracy == old(state).democracy,
        exists|order: Seq<Seq<char>>|
            {
                &&& fits(old(state)@.games, message@, chan@, order)
                &&& final(state)@.games == (#[trigger] resistance_step(
                    old(state)@.games,
                    texts(config.owners@),
                    user@,
                    message@,
                    chan@,
                    order,
                )).games
                &&& r.0 == resistance_step(
                    old(state)@.games,
                    texts(config.owners@),
                    user@,
                    message@,
                    chan@,
                    order,
                ).handled
                &&& lines(r.1@) == resistance_step(
                    old(state)@.games,
                    texts(config.owners@),
                    user@,
                    message@,
                    chan@,
                    order,
                ).lines
            },
{
    let order = shuffle_for(state, message, chan);
    let r = do_resistance_shuffled(state, config, user, message, chan, order);
    r
}

/// The one step of saying `text` to `target`.
pub open spec fn say(target: Seq<char>, text: Seq<char>) -> Seq<Step> {
    seq![send(privmsg(target, text))]
}

fn said(target: &str, text: &str) -> (out: Vec<Action>)
    ensures
        steps(out@) == say(target@, text@),
{
    one_step(Directive::privmsg(target, text))
}

pub open spec fn text_must_identify() -> Seq<char> {
    "You must be identified to do that."@
}

pub open spec fn text_must_be_voiced() -> Seq<char> {
    "You must be voiced to do that."@
}

pub open spec fn text_proposal_live(id: u8) -> Seq<char> {
    "Proposal "@ + decimal_text(id as nat) + " is live."@
}

pub open spec fn text_not_an_option(token: Seq<char>) -> Seq<char> {
    token + " is not a valid option for a proposal."@
}

pub open spec fn text_already_voted() -> Seq<char> {
    "You've already voted in that proposal."@
}

/// What an attempt to vote is answered with.
pub open spec fn text_voting(res: VotingResult, id: u8, token: Seq<char>) -> Seq<char> {
    match res {
        VotingResult::VoteIssued => "Vote issued."@,
        VotingResult::InvalidVote => token + " is not a valid vote."@,
        VotingResult::NoSuchProposal => decimal_text(id as nat) + " is not a valid proposal."@,
    }
}

pub open spec fn text_failed_to_pass(id: u8) -> Seq<char> {
    "Failed to pass proposal "@ + decimal_text(id as nat) + "."@
}

/// What a booth, the stored records and the channel come to.
pub struct Voted {
    pub booth: Booth,
    pub store: StoreView,
    pub steps: Seq<Step>,
}

/// `user` votes `token` on the proposal `id` of the booth of `chan`.
/// A user who has voted on it already is told so. Otherwise the vote is
/// answered, and the proposal looked at: `full` users may vote where it
/// is put to everyone with voice, `online` where it is put to those
/// present. With nobody to vote nothing is decided. A proposal that has
/// passed is enacted, one that has failed is announced.
pub open spec fn vote_step(
    booth: Booth,
    store: StoreView,
    me: Seq<char>,
    user: Seq<char>,
    id: u8,
    token: Seq<char>,
    chan: Seq<char>,
    full: nat,
    online: nat,
) -> Voted {
    if booth.has_voted(id, user) {
        Voted { booth, store, steps: say(chan, text_already_voted()) }
    } else {
        let (voted, res) = booth.vote(id, token, user);
        let answer = say(chan, text_voting(res, id, token));
        let pop = if voted.is_full_vote(id) {
            full
        } else {
            online
        };
        if pop == 0 {
            Voted { booth: voted, store, steps: answer }
        } else {
            let (closed, verdict) = voted.get_result_of_vote(id, pop);
            match verdict {
                Verdict::VotePassed(p) => Voted {
                    booth: closed,
                    store: enact_store(p, store, me, chan),
                    steps: answer + enact_steps(p, store.channel(chan), me, chan),
                },
                Verdict::VoteFailed => Voted {
                    booth: closed,
                    store,
                    steps: answer + say(chan, text_failed_to_pass(id)),
                },
                _ => Voted { booth: closed, store, steps: answer },
            }
        }
    }
}

/// What a line said in the channel of a booth comes to, once the speaker
/// may propose and vote. A line that starts with `.propose topic ` puts
/// the rest of it up as a topic; else the words of the line decide:
/// `.propose kind parameter`, `.vote id vote` (an id that is no number
/// counts as zero), or `.active`.
pub open spec fn booth_step(
    booth: Booth,
    store: StoreView,
    me: Seq<char>,
    user: Seq<char>,
    message: Seq<char>,
    chan: Seq<char>,
    full: nat,
    online: nat,
) -> Voted {
    let tokens = split_words(message);
    if ".propose topic "@.is_prefix_of(message) {
        let (b, id) = booth.propose("topic"@, message.skip(15));
        Voted {
            booth: b,
            store,
            steps: match id {
                Some(id) => say(chan, text_proposal_live(id)),
                None => Seq::empty(),
            },
        }
    } else if tokens.len() == 3 && tokens[0] == ".propose"@ {
        let (b, id) = booth.propose(tokens[1], tokens[2]);
        Voted {
            booth: b,
            store,
            steps: match id {
                Some(id) => say(chan, text_proposal_live(id)),
                None => say(chan, text_not_an_option(tokens[1])),
            },
        }
    } else if tokens.len() == 3 && tokens[0] == ".vote"@ {
        let id = match u8_of(tokens[1]) {
            Some(id) => id,
            None => 0u8,
        };
        vote_step(booth, store, me, user, id, tokens[2], chan, full, online)
    } else if tokens.len() == 1 && tokens[0] == ".active"@ {
        let list = joined_lines(booth.get_active_proposals());
        Voted {
            booth,
            store,
            steps: say(
                chan,
                if list.len() > 0 {
                    list
                } else {
                    "None"@
                },
            ),
        }
    } else {
        Voted { booth, store, steps: Seq::empty() }
    }
}

/// What the booths, the stored records and the channel come to.
pub struct Governed {
    pub booths: Map<Seq<char>, Booth>,
    pub store: StoreView,
    pub steps: Seq<Step>,
}

/// What `user` saying `message` in `chan` means for the vote. Only
/// identified users with voice in the channel may propose and vote; a line
/// in a channel without a booth does nothing.
pub open spec fn democracy_step(
    identified: Seq<Seq<char>>,
    booths: Map<Seq<char>, Booth>,
    store: StoreView,
    me: Seq<char>,
    user: Seq<char>,
    message: Seq<char>,
    chan: Seq<char>,
) -> Governed {
    let gated = ".propose"@.is_prefix_of(message) || ".vote"@.is_prefix_of(message);
    if gated && !identified.contains(user) {
        Governed { booths, store, steps: say(chan, text_must_identify()) }
    } else if gated && !has_voice(store, user, chan) {
        Governed { booths, store, steps: say(chan, text_must_be_voiced()) }
    } else if !booths.contains_key(chan) {
        Governed { booths, store, steps: Seq::empty() }
    } else {
        let v = booth_step(
            booths[chan],
            store,
            me,
            user,
            message,
            chan,
            full_pop(store, chan),
            online_pop(identified, store, chan),
        );
        Governed { booths: booths.insert(chan, v.booth), store: v.store, steps: v.steps }
    }
}

fn live_text(id: u8) -> (r: String)
    ensures
        r@ == text_proposal_live(id),
{
    let mut r = "Proposal ".to_owned();
    r.append(decimal(id as usize).as_str());
    r.append(" is live.");
    r
}

/// A vote in a booth, answered and looked at.
fn vote_in(
    booth: &mut Democracy,
    store: &mut Store,
    config: &Config,
    user: &str,
    id: u8,
    token: &str,
    chan: &str,
    full: usize,
    online: usize,
) -> (out: Vec<Action>)
    requires
        old(booth).wf(),
        old(store).wf(),
    ensures
        final(booth).wf(),
        final(store).wf(),
        ({
            let expected = vote_step(
                old(booth)@,
                old(store)@,
                config.nickname@,
                user@,
                id,
                token@,
                chan@,
                full as nat,
                online as nat,
            );
            &&& final(booth)@ == expected.booth
            &&& final(store)@ == expected.store
            &&& steps(out@) == expected.steps
        }),
{
    if booth.has_voted(id, user) {
        return said(chan, "You've already voted in that proposal.");
    }
    let res = booth.vote(id, token, user);
    let text = match res {
        VotingResult::VoteIssued => "Vote issued.".to_owned(),
        VotingResult::InvalidVote => crate::text::joined(token, " is not a valid vote."),
        VotingResult::NoSuchProposal => crate::text::joined(
            decimal(id as usize).as_str(),
            " is not a valid proposal.",
        ),
    };
    let mut out = said(chan, text.as_str());
    let pop = if booth.is_full_vote(id) {
        full
    } else {
        online
    };
    if pop == 0 {
        return out;
    }
    match booth.get_result_of_vote(id, pop) {
        VoteResult::VotePassed(proposal) => {
            let enacted = proposal.enact(store, config, chan);
            push_steps(&mut out, enacted);
        },
        VoteResult::VoteFailed => {
            let mut text = "Failed to pass proposal ".to_owned();
            text.append(decimal(id as usize).as_str());
            text.append(".");
            push_steps(&mut out, said(chan, text.as_str()));
        },
        _ => {},
    }
    out
}

/// A line said in the channel of a booth by someone who may propose and
/// vote.
fn in_booth(
    booth: &mut Democracy,
    store: &mut Store,
    config: &Config,
    user: &str,
    message: &str,
    chan: &str,
    full: usize,
    online: usize,
) -> (out: Vec<Action>)
    requires
        old(booth).wf(),
        old(store).wf(),
    ensures
        final(booth).wf(),
        final(store).wf(),
        ({
            let expected = booth_step(
                old(booth)@,
                old(store)@,
                config.nickname@,
                user@,
                message@,
                chan@,
                full as nat,
                online as nat,
            );
            &&& final(booth)@ == expected.booth
            &&& final(store)@ == expected.store
            &&& steps(out@) == expected.steps
        }),
{
    if begins_with(message, ".propose topic ") {
        proof {
            reveal_strlit(".propose topic ");
        }
        let rest = after(message, 15);
        return match booth.propose("topic", rest.as_str()) {
            Some(id) => said(chan, live_text(id).as_str()),
            None => no_steps(),
        };
    }
    let tokens = words(message);
    if tokens.len() == 3 {
        if same(tokens[0].as_str(), ".propose") {
            return match booth.propose(tokens[1].as_str(), tokens[2].as_str()) {
                Some(id) => said(chan, live_text(id).as_str()),
                None => said(
                    chan,
                    crate::text::joined(
                        tokens[1].as_str(),
                        " is not a valid option for a proposal.",
                    ).as_str(),
                ),
            };
        }
        if same(tokens[0].as_str(), ".vote") {
            let id = match parse_u8(tokens[1].as_str()) {
                Some(id) => id,
                None => 0u8,
            };
            return vote_in(booth, store, config, user, id, tokens[2].as_str(), chan, full, online);
        }
        return no_steps();
    }
    if tokens.len() == 1 {
        if same(tokens[0].as_str(), ".active") {
            let list = join_lines(&booth.get_active_proposals());
            return if list.as_str().unicode_len() > 0 {
                said(chan, list.as_str())
            } else {
                said(chan, "None")
            };
        }
    }
    no_steps()
}

/// Once the booth at one position has changed, the booths are the booths
/// before with that booth in its new state.
proof fn booth_replaced(before: &State, now: &State, at: int)
    requires
        before.democracy.wf(),
        now.democracy.wf(),
        now.democracy.keys() == before.democracy.keys(),
        0 <= at < before.democracy.keys().len(),
        now.democracy.values().len() == before.democracy.values().len(),
        forall|j: int|
            0 <= j < before.democracy.values().len() && j != at ==> now.democracy.values()[j]
                == before.democracy.values()[j],
    ensures
        now@.booths == before@.booths.insert(
            before.democracy.keys()[at],
            now.democracy.values()[at]@,
        ),
{
    now.democracy.same_elsewhere(&before.democracy, at);
}

/// Handles a line said in a channel as a line for its voting booth.
pub fn do_democracy(
    state: &mut State,
    store: &mut Store,
    config: &Config,
    user: &str,
    message: &str,
    chan: &str,
) -> (out: Vec<Action>)
    requires
        old(state).wf(),
        old(store).wf(),
    ensures
        final(state).wf(),
        final(store).wf(),
        final(state).identified == old(state).identified,
        final(state).resistance == old(state).resistance,
        ({
            let expected = democracy_step(
                old(state)@.identified,
                old(state)@.booths,
                old(store)@,
                config.nickname@,
                user@,
                message@,
                chan@,
            );
            &&& final(state)@.booths == expected.booths
            &&& final(store)@ == expected.store
            &&& steps(out@) == expected.steps
        }),
{
    if begins_with(message, ".propose") || begins_with(message, ".vote") {
        if !state.is_identified(user) {
            return said(chan, "You must be identified to do that.");
        } else if !state.is_voiced(store, user, chan) {
            return said(chan, "You must be voiced to do that.");
        }
    }
    match state.democracy.find(chan) {
        Some(at) => {
            let full = state.get_voting_pop(store, chan);
            let online = state.get_online_voting_pop(store, chan);
            let booth = state.democracy.item_mut(at);
            let out = in_booth(booth, store, config, user, message, chan, full, online);
            proof {
                booth_replaced(old(state), state, at as int);
            }
            out
        },
        None => no_steps(),
    }
}

/// What a change of voice that the network reports means for the stored
/// record of a registered channel. Voice given to an identified user is
/// noted; voice taken is noted; voice given to anyone else is taken back.
pub open spec fn voice_step(
    identified: Seq<Seq<char>>,
    store: StoreView,
    msg: Seq<char>,
    user: Seq<char>,
    chan: Seq<char>,
) -> (StoreView, Seq<Step>) {
    if !store.channel_listed(chan) {
        (store, Seq::empty())
    } else if msg == "+v"@ && identified.contains(user) {
        match store.channel(chan) {
            Some(c) => if c.voice.contains(user) {
                (store, Seq::empty())
            } else {
                let noted = ChannelView { voice: c.voice.push(user), ..c };
                (store.with_channel(noted), seq![save_channel(noted)])
            },
            None => (store, Seq::empty()),
        }
    } else if msg == "-v"@ {
        match store.channel(chan) {
            Some(c) => {
                let noted = ChannelView { voice: c.voice.filter(differs_from(user)), ..c };
                (store.with_channel(noted), seq![save_channel(noted)])
            },
            None => (store, Seq::empty()),
        }
    } else {
        (store, seq![send(samode(chan, "-v"@, user))])
    }
}

/// Keeps the voice list of a registered channel in step with the network.
pub fn democracy_process_hook(state: &State, store: &mut Store, msg: &str, user: &str, chan: &str) -> (out:
    Vec<Action>)
    requires
        old(store).wf(),
    ensures
        final(store).wf(),
        final(store)@ == voice_step(state@.identified, old(store)@, msg@, user@, chan@).0,
        steps(out@) == voice_step(state@.identified, old(store)@, msg@, user@, chan@).1,
{
    let mut out = no_steps();
    if Channel::registered(store, chan) {
        if same(msg, "+v") && state.is_identified(user) {
            match Channel::load(store, chan) {
                Ok(channel) => {
                    let mut channel = channel;
                    if !holds(&channel.voice, user) {
                        let owned = user.to_owned();
                        assert(texts(channel.voice@.push(owned)) =~= texts(channel.voice@).push(
                            user@,
                        ));
                        channel.voice.push(owned);
                        push_step(&mut out, channel.save(store));
                    }
                },
                Err(_) => {},
            }
        } else if same(msg, "-v") {
            match Channel::load(store, chan) {
                Ok(channel) => {
                    let mut channel = channel;
                    channel.voice = without(&channel.voice, user);
                    push_step(&mut out, channel.save(store));
                },
                Err(_) => {},
            }
        } else {
            push_step(&mut out, Action::send(Directive::samode(chan, "-v", user)));
        }
    }
    out
}

/// The next count: one more, and zero after the largest.
pub open spec fn one_more(n: nat) -> nat {
    if n == usize::MAX {
        0
    } else {
        n + 1
    }
}

pub open spec fn text_derps(n: nat) -> Seq<char> {
    if n == 1 {
        "There has been "@ + decimal_text(n) + " derp."@
    } else {
        "There have been "@ + decimal_text(n) + " derps."@
    }
}

pub open spec fn text_derp_trouble() -> Seq<char> {
    "Something went wrong with the Derp Counter."@
}

/// What a derp line comes to: `!derp++` counts one more, any other derp
/// line only asks. The count is written out and announced to `resp`; a
/// counter that cannot be read or written is reported instead.
pub open spec fn derp_step(store: StoreView, resp: Seq<char>, msg: Seq<char>) -> (
    StoreView,
    Seq<Step>,
) {
    match store.derps {
        Some(n) => {
            let count = if "!derp++"@.is_prefix_of(msg) {
                one_more(n)
            } else {
                n
            };
            (
                store.with_derps(count),
                seq![
                    save_derps_or(count, privmsg(resp, text_derp_trouble())),
                    send(privmsg(resp, text_derps(count))),
                ],
            )
        },
        None => (store, say(resp, text_derp_trouble())),
    }
}

/// Handles a derp line. It always counts as handled.
pub fn do_derp(store: &mut Store, resp: &str, msg: &str) -> (r: (bool, Vec<Action>))
    requires
        old(store).wf(),
    ensures
        final(store).wf(),
        r.0,
        final(store)@ == derp_step(old(store)@, resp@, msg@).0,
        steps(r.1@) == derp_step(old(store)@, resp@, msg@).1,
{
    match DerpCounter::load(store) {
        Ok(counter) => {
            let mut counter = counter;
            if begins_with(msg, "!derp++") {
                counter.increment();
            }
            let trouble = Directive::privmsg(resp, "Something went wrong with the Derp Counter.");
            let mut out = no_steps();
            push_step(&mut out, counter.save(store, trouble));
            let mut text = if counter.derps() == 1 {
                "There has been ".to_owned()
            } else {
                "There have been ".to_owned()
            };
            text.append(decimal(counter.derps()).as_str());
            if counter.derps() == 1 {
                text.append(" derp.");
            } else {
                text.append(" derps.");
            }
            push_step(&mut out, Action::send(Directive::privmsg(resp, text.as_str())));
            (true, out)
        },
        Err(_) => (true, said(resp, "Something went wrong with the Derp Counter.")),
    }
}

/// Gives a channel a new, empty voting booth, in place of the one it may
/// have had.
pub fn new_voting_booth(chan: &str, state: &mut State)
    requires
        old(state).wf(),
    ensures
        final(state).wf(),
        final(state).identified == old(state).identified,
        final(state).resistance == old(state).resistance,
        final(state)@.booths == old(state)@.booths.insert(chan@, Booth::new()),
{
    state.democracy.insert(chan, Democracy::new());
}

/// The text in upper case, as the Unicode case tables have it.
pub fn upper_case(string: &str) -> (r: String)
    ensures
        r@ == uppercase_of(string@),
{
    to_uppercase(string)
}

/// The steps that join the channels of `names`, several at a time: names
/// are strung together with commas, and a line that has reached forty
/// characters is sent off before the next name. What is left is sent at
/// the end, even if it is nothing. `line` is the line begun so far.
pub open spec fn join_steps(names: Seq<Seq<char>>, line: Seq<char>) -> Seq<Step>
    decreases names.len(),
{
    if names.len() == 0 {
        seq![send(join(line))]
    } else {
        let chan = names.first();
        let rest = names.drop_first();
        if 0 < line.len() < 40 {
            join_steps(rest, line + ","@ + chan)
        } else if line.len() == 0 {
            join_steps(rest, chan)
        } else {
            seq![send(join(line))] + join_steps(rest, chan)
        }
    }
}

fn joins(names: &Vec<String>) -> (out: Vec<Action>)
    ensures
        steps(out@) == join_steps(texts(names@), Seq::empty()),
{
    let mut out = no_steps();
    let mut line = String::new();
    let mut i: usize = 0;
    assert(texts(names@).skip(0) =~= texts(names@));
    while i < names.len()
        invariant
            i <= names.len(),
            steps(out@) + join_steps(texts(names@).skip(i as int), line@) == join_steps(
                texts(names@),
                Seq::empty(),
            ),
        decreases names.len() - i,
    {
        let ghost rest = texts(names@).skip(i as int);
        proof {
            assert(rest.drop_first() =~= texts(names@).skip(i + 1));
        }
        let len = line.as_str().unicode_len();
        if 0 < len && len < 40 {
            line.append(",");
            line.append(names[i].as_str());
        } else if len == 0 {
            line = names[i].clone();
        } else {
            push_step(&mut out, Action::send(Directive::join(line.as_str())));
            line = names[i].clone();
        }
        i = i + 1;
    }
    push_step(&mut out, Action::send(Directive::join(line.as_str())));
    out
}

/// What became of the booths and what is to be sent once each channel of
/// a list was taken up again; `failed` where a record could not be read.
pub struct Revived {
    pub booths: Map<Seq<char>, Booth>,
    pub steps: Seq<Step>,
    pub failed: bool,
}

/// Takes the channels of `names` up again, one after the other: each gets
/// a new booth, the services become an admin of it, and the stored topic
/// and mode are set again where there are any. A channel whose record
/// cannot be read ends it: the channels after it are left alone.
pub open spec fn revive(
    names: Seq<Seq<char>>,
    booths: Map<Seq<char>, Booth>,
    store: StoreView,
    me: Seq<char>,
) -> Revived
    decreases names.len(),
{
    if names.len() == 0 {
        Revived { booths, steps: Seq::empty(), failed: false }
    } else {
        let before = revive(names.drop_last(), booths, store, me);
        let chan = names.last();
        if before.failed {
            before
        } else {
            let opened = before.booths.insert(chan, Booth::new());
            let first = before.steps.push(send(samode(chan, "+a"@, me)));
            match store.channel(chan) {
                None => Revived { booths: opened, steps: first, failed: true },
                Some(c) => Revived {
                    booths: opened,
                    steps: first + (if c.topic.len() != 0 {
                        seq![send(topic(chan, c.topic))]
                    } else {
                        Seq::empty()
                    }) + (if c.mode.len() != 0 {
                        seq![send(samode(chan, c.mode, Seq::empty()))]
                    } else {
                        Seq::empty()
                    }),
                    failed: false,
                },
            }
        }
    }
}

/// What the start of a connection comes to: the services claim operator
/// rights, join the registered channels and take each of them up again.
pub open spec fn start_up_step(
    booths: Map<Seq<char>, Booth>,
    store: StoreView,
    me: Seq<char>,
    oper_pass: Seq<char>,
) -> Revived {
    let r = revive(store.channel_names, booths, store, me);
    Revived {
        steps: seq![send(oper(me, oper_pass))] + join_steps(store.channel_names, Seq::empty())
            + r.steps,
        ..r
    }
}

/// Why the handling of a line stopped short.
#[derive(Debug, Clone, Copy, PartialEq, Eq, Structural)]
pub enum Failure {
    /// A password could not be digested.
    Hash,
    /// A stored record could not be read.
    Store,
}

/// What the handling of a line answers with: the actions to take, in
/// order, and the failure that is to be reported once they are taken, if
/// there is one.
#[derive(Debug, PartialEq, Eq)]
pub struct Outcome {
    pub actions: Vec<Action>,
    pub failure: Option<Failure>,
}

/// Starts the services up on a new connection.
pub fn start_up(state: &mut State, store: &Store, config: &Config) -> (r: Outcome)
    requires
        old(state).wf(),
        store.wf(),
    ensures
        final(state).wf(),
        final(state).identified == old(state).identified,
        final(state).resistance == old(state).resistance,
        ({
            let expected = start_up_step(
                old(state)@.booths,
                store@,
                config.nickname@,
                config.oper_pass@,
            );
            &&& final(state)@.booths == expected.booths
            &&& steps(r.actions@) == expected.steps
        }),
        r.failure == if start_up_step(
            old(state)@.booths,
            store@,
            config.nickname@,
            config.oper_pass@,
        ).failed {
            Some(Failure::Store)
        } else {
            None::<Failure>
        },
{
    let me = config.nickname.as_str();
    let mut out = no_steps();
    push_step(&mut out, Action::send(Directive::oper(me, config.oper_pass.as_str())));
    let chans = store.channel_names();
    push_steps(&mut out, joins(&chans));
    let ghost head = steps(out@);
    let ghost names = texts(chans@);
    let mut i: usize = 0;
    proof {
        empty_text();
    }
    while i < chans.len()
        invariant
            i <= chans.len(),
            state.wf(),
            store.wf(),
            names == texts(chans@),
            names == store@.channel_names,
            head == seq![send(oper(config.nickname@, config.oper_pass@))] + join_steps(
                names,
                Seq::empty(),
            ),
            ""@ == Seq::<char>::empty(),
            state.identified == old(state).identified,
            state.resistance == old(state).resistance,
            !revive(names.take(i as int), old(state)@.booths, store@, config.nickname@).failed,
            state@.booths == revive(
                names.take(i as int),
                old(state)@.booths,
                store@,
                config.nickname@,
            ).booths,
            steps(out@) == head + revive(
                names.take(i as int),
                old(state)@.booths,
                store@,
                config.nickname@,
            ).steps,
        decreases chans.len() - i,
    {
        let chan = chans[i].as_str();
        let ghost upto = names.take(i + 1);
        proof {
            assert(upto.drop_last() =~= names.take(i as int));
        }
        new_voting_booth(chan, state);
        push_step(&mut out, Action::send(Directive::samode(chan, "+a", config.nickname.as_str())));
        match Channel::load(store, chan) {
            Ok(ch) => {
                if ch.topic.as_str().unicode_len() != 0 {
                    push_step(&mut out, Action::send(Directive::topic(chan, ch.topic.as_str())));
                }
                if ch.mode.as_str().unicode_len() != 0 {
                    push_step(&mut out, Action::send(Directive::samode(chan, ch.mode.as_str(), "")));
                }
            },
            Err(_) => {
                proof {
                    revive_stays_failed(
                        names,
                        i + 1,
                        old(state)@.booths,
                        store@,
                        config.nickname@,
                    );
                }
                return Outcome { actions: out, failure: Some(Failure::Store) };
            },
        }
        i = i + 1;
    }
    proof {
        assert(names.take(i as int) =~= names);
    }
    Outcome { actions: out, failure: None }
}

/// Once a channel has ended it, the channels after it change nothing.
proof fn revive_stays_failed(
    names: Seq<Seq<char>>,
    k: int,
    booths: Map<Seq<char>, Booth>,
    store: StoreView,
    me: Seq<char>,
)
    requires
        0 <= k <= names.len(),
        revive(names.take(k), booths, store, me).failed,
    ensures
        revive(names, booths, store, me) == revive(names.take(k), booths, store, me),
    decreases names.len() - k,
{
    if k < names.len() {
        assert(names.take(k + 1).drop_last() =~= names.take(k));
        revive_stays_failed(names, k + 1, booths, store, me);
    } else {
        assert(names.take(k) =~= names);
    }
}

pub open spec fn text_ns_commands() -> Seq<char> {
    "Commands: REGISTER, IDENTIFY, GHOST, RECLAIM, CHPASS"@
}

pub open spec fn text_cs_commands() -> Seq<char> {
    "Commands: REGISTER, ADMIN, OPER, VOICE, MODE, DEADMIN, DEOPER, DEVOICE, CHOWN"@
}

pub open spec fn text_need_prefix() -> Seq<char> {
    "Commands must be prefixed by CS or NS."@
}

/// What a private line comes to. `tokens` are its pieces between spaces,
/// `service` is the first of them in upper case and `cmd` the second (or
/// nothing, where there is only one). A line for `NS` goes to the nickname
/// service and one for `CS` to the channel service; either name alone is
/// answered with the commands of that service, and anything else with a
/// reminder.
pub open spec fn private_effect(
    service: Seq<char>,
    cmd: Seq<char>,
    tokens: Seq<Seq<char>>,
    identified: Seq<Seq<char>>,
    store: StoreView,
    me: Seq<char>,
    source: Seq<char>,
) -> Effect {
    if tokens.len() > 1 && service == "NS"@ {
        nickserv::command_effect(cmd, tokens, identified, store, source)
    } else if tokens.len() > 1 && service == "CS"@ {
        chanserv::command_effect(cmd, tokens, identified, store, me, source)
    } else if tokens.len() == 1 && service == "NS"@ {
        chanserv::told(identified, store, source, text_ns_commands())
    } else if tokens.len() == 1 && service == "CS"@ {
        chanserv::told(identified, store, source, text_cs_commands())
    } else {
        chanserv::told(identified, store, source, text_need_prefix())
    }
}

/// Handles a private line, once its first two pieces are known in upper
/// case.
pub fn private_command(
    service: &str,
    cmd: &str,
    tokens: &Vec<String>,
    state: &mut State,
    store: &mut Store,
    config: &Config,
    source: &str,
) -> (r: Result<Vec<Action>, HashError>)
    requires
        old(state).wf(),
        old(store).wf(),
    ensures
        final(state).wf(),
        final(store).wf(),
        final(state).resistance == old(state).resistance,
        final(state).democracy == old(state).democracy,
        !private_effect(
            service@,
            cmd@,
            texts(tokens@),
            old(state)@.identified,
            old(store)@,
            config.nickname@,
            source@,
        ).digests ==> r is Ok,
        match r {
            Ok(out) => {
                let e = private_effect(
                    service@,
                    cmd@,
                    texts(tokens@),
                    old(state)@.identified,
                    old(store)@,
                    config.nickname@,
                    source@,
                );
                &&& final(state)@.identified == e.identified
                &&& final(store)@ == e.store
                &&& steps(out@) == e.steps
            },
            Err(_) => final(state)@.identified == old(state)@.identified && final(store)@ == old(
                store,
            )@,
        },
{
    let ns = same(service, "NS");
    let cs = same(service, "CS");
    if tokens.len() > 1 && ns {
        nickserv::command(cmd, tokens, state, store, config, source)
    } else if tokens.len() > 1 && cs {
        chanserv::command(cmd, tokens, state, store, config, source)
    } else if tokens.len() == 1 && ns {
        Ok(chanserv::tell(source, "Commands: REGISTER, IDENTIFY, GHOST, RECLAIM, CHPASS"))
    } else if tokens.len() == 1 && cs {
        Ok(
            chanserv::tell(
                source,
                "Commands: REGISTER, ADMIN, OPER, VOICE, MODE, DEADMIN, DEOPER, DEVOICE, CHOWN",
            ),
        )
    } else {
        Ok(chanserv::tell(source, "Commands must be prefixed by CS or NS."))
    }
}

/// What the handling of a line comes to: the state and the stored records
/// afterwards, the steps to take, and whether it stopped short at a record
/// that could not be read.
pub struct Processed {
    pub state: StateView,
    pub store: StoreView,
    pub steps: Seq<Step>,
    pub store_failed: bool,
    /// Whether the line takes the digest of a password. Only then can its
    /// handling fail for want of one.
    pub digests: bool,
}

/// What `source` saying `msg` to `chan` comes to; `chan` is a channel, or
/// the services themselves for a private line. A line that starts with
/// `!` is first tried as a command for the game, and then as a derp line.
/// A line that is neither goes to the booth of the channel it was said
/// in, or is taken as a private command.
pub open spec fn message_step(
    state: StateView,
    store: StoreView,
    me: Seq<char>,
    owners: Seq<Seq<char>>,
    source: Seq<char>,
    chan: Seq<char>,
    msg: Seq<char>,
    order: Seq<Seq<char>>,
) -> Processed {
    let played = resistance_step(state.games, owners, source, msg, chan, order);
    if "!"@.is_prefix_of(msg) && played.handled {
        Processed {
            state: StateView { games: played.games, ..state },
            store,
            steps: sends(played.lines),
            store_failed: false,
            digests: false,
        }
    } else if "!"@.is_prefix_of(msg) && "!derp"@.is_prefix_of(msg) {
        let resp = if "#"@.is_prefix_of(chan) {
            chan
        } else {
            source
        };
        let (after, to_do) = derp_step(store, resp, msg);
        Processed { state, store: after, steps: to_do, store_failed: false, digests: false }
    } else if "#"@.is_prefix_of(chan) {
        let g = democracy_step(state.identified, state.booths, store, me, source, msg, chan);
        Processed {
            state: StateView { booths: g.booths, ..state },
            store: g.store,
            steps: g.steps,
            store_failed: false,
            digests: false,
        }
    } else {
        let tokens = split_spaces(msg);
        let e = private_effect(
            uppercase_of(tokens[0]),
            if tokens.len() > 1 {
                uppercase_of(tokens[1])
            } else {
                Seq::empty()
            },
            tokens,
            state.identified,
            store,
            me,
            source,
        );
        Processed {
            state: StateView { identified: e.identified, ..state },
            store: e.store,
            steps: e.steps,
            store_failed: false,
            digests: e.digests,
        }
    }
}

/// The mode that someone who joins a channel is due: by the highest role
/// that the channel's record gives them, or none.
pub open spec fn join_mode(c: ChannelView, source: Seq<char>) -> Seq<char> {
    if c.owner == source {
        "+qa"@
    } else if c.admins.contains(source) {
        "+a"@
    } else if c.opers.contains(source) {
        "+o"@
    } else if c.voice.contains(source) {
        "+v"@
    } else {
        Seq::empty()
    }
}

/// What a line from the network comes to: `command` with its arguments
/// `args`, the last of which is the text where there is one, sent by
/// `source`. `order` is the shuffle for the game, where the line calls for
/// one.
///
/// A message goes to the services. A notice that starts with `***` makes
/// them register the connection, and the welcome `001` starts them up. A
/// changed topic is noted in the record of the channel. Someone identified
/// who joins a channel gets the mode that the record gives them. Someone
/// who quits is no longer identified. Voice given or taken is kept in step
/// with the record.
pub open spec fn process_step(
    state: StateView,
    store: StoreView,
    me: Seq<char>,
    owners: Seq<Seq<char>>,
    oper_pass: Seq<char>,
    source: Seq<char>,
    command: Seq<char>,
    args: Seq<Seq<char>>,
    order: Seq<Seq<char>>,
) -> Processed {
    let idle = Processed {
        state,
        store,
        steps: Seq::empty(),
        store_failed: false,
        digests: false,
    };
    if command == "PRIVMSG"@ && args.len() == 2 {
        message_step(state, store, me, owners, source, args[0], args[1], order)
    } else if command == "NOTICE"@ && args.len() == 2 {
        if "***"@.is_prefix_of(args[1]) {
            Processed { steps: seq![send(identify())], ..idle }
        } else {
            idle
        }
    } else if command == "001"@ {
        let r = start_up_step(state.booths, store, me, oper_pass);
        Processed {
            state: StateView { booths: r.booths, ..state },
            store,
            steps: r.steps,
            store_failed: r.failed,
            digests: false,
        }
    } else if command == "TOPIC"@ && args.len() == 2 {
        match store.channel(args[0]) {
            Some(c) => {
                let noted = ChannelView { topic: args[1], ..c };
                Processed {
                    store: store.with_channel(noted),
                    steps: seq![save_channel(noted)],
                    ..idle
                }
            },
            None => idle,
        }
    } else if command == "JOIN"@ && args.len() == 1 {
        match store.channel(args[0]) {
            Some(c) => if state.identified.contains(source) && join_mode(c, source).len() > 0 {
                Processed {
                    steps: seq![send(samode(args[0], join_mode(c, source), source))],
                    ..idle
                }
            } else {
                idle
            },
            None => idle,
        }
    } else if command == "QUIT"@ {
        Processed {
            state: StateView { identified: forgotten(state.identified, source), ..state },
            ..idle
        }
    } else if command == "MODE"@ && args.len() == 3 && (args[1] == "+v"@ || args[1] == "-v"@) {
        let (after, to_do) = voice_step(state.identified, store, args[1], args[2], args[0]);
        Processed { store: after, steps: to_do, ..idle }
    } else {
        idle
    }
}

/// Someone who quits is not identified afterwards, however often they had
/// identified; for everyone else, and for the games, the booths and the
/// stored records, nothing changes, and nothing is sent.
pub proof fn who_quits_is_forgotten(
    state: StateView,
    store: StoreView,
    me: Seq<char>,
    owners: Seq<Seq<char>>,
    oper_pass: Seq<char>,
    source: Seq<char>,
    args: Seq<Seq<char>>,
    order: Seq<Seq<char>>,
    other: Seq<char>,
)
    ensures
        ({
            let after = process_step(
                state,
                store,
                me,
                owners,
                oper_pass,
                source,
                "QUIT"@,
                args,
                order,
            );
            &&& !after.state.identified.contains(source)
            &&& other != source ==> after.state.identified.contains(other)
                == state.identified.contains(other)
            &&& after.state.games == state.games
            &&& after.state.booths == state.booths
            &&& after.store == store
            &&& after.steps == Seq::<Step>::empty()
        }),
{
    reveal_strlit("QUIT");
    reveal_strlit("PRIVMSG");
    reveal_strlit("NOTICE");
    reveal_strlit("001");
    reveal_strlit("TOPIC");
    reveal_strlit("JOIN");
    assert("QUIT"@[0] == 'Q' && "JOIN"@[0] == 'J');
    crate::data::state::forgotten_is_gone(state.identified, source);
}

/// Whether `order` will do as a shuffle for a line from the network.
pub open spec fn process_fits(
    games: Map<Seq<char>, Game>,
    command: Seq<char>,
    args: Seq<Seq<char>>,
    order: Seq<Seq<char>>,
) -> bool {
    command == "PRIVMSG"@ && args.len() == 2 ==> fits(games, args[1], args[0], order)
}

/// Whether what a handler left behind is what `expected` says.
pub open spec fn came_to(
    state: &State,
    store: &Store,
    r: Outcome,
    before_state: StateView,
    before_store: StoreView,
    expected: Processed,
) -> bool {
    &&& r.failure != Some(Failure::Hash) ==> {
        &&& state@ == expected.state
        &&& store@ == expected.store
        &&& steps(r.actions@) == expected.steps
        &&& (r.failure is Some) == expected.store_failed
    }
    &&& r.failure == Some(Failure::Hash) ==> {
        &&& expected.digests
        &&& state@ == before_state
        &&& store@ == before_store
        &&& r.actions@.len() == 0
    }
}

fn done(actions: Vec<Action>) -> (r: Outcome)
    ensures
        r.actions == actions,
        r.failure is None,
{
    Outcome { actions, failure: None }
}

/// A message to a channel or to the services.
fn message(
    state: &mut State,
    store: &mut Store,
    config: &Config,
    source: &str,
    chan: &str,
    msg: &str,
    order: Vec<String>,
) -> (r: Outcome)
    requires
        old(state).wf(),
        old(store).wf(),
        "!"@.is_prefix_of(msg@) ==> fits(old(state)@.games, msg@, chan@, texts(order@)),
    ensures
        final(state).wf(),
        final(store).wf(),
        came_to(
            final(state),
            final(store),
            r,
            old(state)@,
            old(store)@,
            message_step(
                old(state)@,
                old(store)@,
                config.nickname@,
                texts(config.owners@),
                source@,
                chan@,
                msg@,
                texts(order@),
            ),
        ),
{
    if begins_with(msg, "!") {
        let (handled, said) = do_resistance_shuffled(state, config, source, msg, chan, order);
        if handled {
            return done(to_actions(said));
        }
        if begins_with(msg, "!derp") {
            let resp = if begins_with(chan, "#") {
                chan
            } else {
                source
            };
            let (_, to_do) = do_derp(store, resp, msg);
            return done(to_do);
        }
    }
    if begins_with(chan, "#") {
        return done(do_democracy(state, store, config, source, msg, chan));
    }
    let tokens = pieces(msg);
    proof {
        crate::text::split_spaces_nonempty(msg@);
    }
    let service = upper_case(tokens[0].as_str());
    let cmd = if tokens.len() > 1 {
        upper_case(tokens[1].as_str())
    } else {
        String::new()
    };
    match private_command(service.as_str(), cmd.as_str(), &tokens, state, store, config, source) {
        Ok(out) => done(out),
        Err(_) => Outcome { actions: Vec::new(), failure: Some(Failure::Hash) },
    }
}

/// The mode that `source` is due on joining a channel.
fn mode_on_join(channel: &Channel, source: &str) -> (r: &'static str)
    ensures
        r@ == join_mode(channel@, source@),
{
    proof {
        empty_text();
    }
    if same(channel.owner.as_str(), source) {
        "+qa"
    } else if holds(&channel.admins, source) {
        "+a"
    } else if holds(&channel.opers, source) {
        "+o"
    } else if holds(&channel.voice, source) {
        "+v"
    } else {
        ""
    }
}

/// Handles a line from the network, with `order` as the shuffle to use
/// where the game calls for one.
pub fn process_shuffled(
    state: &mut State,
    store: &mut Store,
    config: &Config,
    source: &str,
    command: &str,
    args: &Vec<String>,
    order: Vec<String>,
) -> (r: Outcome)
    requires
        old(state).wf(),
        old(store).wf(),
        process_fits(old(state)@.games, command@, texts(args@), texts(order@)),
    ensures
        final(state).wf(),
        final(store).wf(),
        came_to(
            final(state),
            final(store),
            r,
            old(state)@,
            old(store)@,
            process_step(
                old(state)@,
                old(store)@,
                config.nickname@,
                texts(config.owners@),
                config.oper_pass@,
                source@,
                command@,
                texts(args@),
                texts(order@),
            ),
        ),
{
    proof {
        reveal_strlit("PRIVMSG");
        reveal_strlit("NOTICE");
        reveal_strlit("001");
        reveal_strlit("TOPIC");
        reveal_strlit("JOIN");
        reveal_strlit("QUIT");
        reveal_strlit("MODE");
    }
    if same(command, "PRIVMSG") && args.len() == 2 {
        message(state, store, config, source, args[0].as_str(), args[1].as_str(), order)
    } else if same(command, "NOTICE") && args.len() == 2 {
        if begins_with(args[1].as_str(), "***") {
            let mut out = no_steps();
            push_step(&mut out, Action::send(Directive::identify()));
            done(out)
        } else {
            done(no_steps())
        }
    } else if same(command, "001") {
        let r = start_up(state, store, config);
        r
    } else if same(command, "TOPIC") && args.len() == 2 {
        match Channel::load(store, args[0].as_str()) {
            Ok(channel) => {
                let mut channel = channel;
                channel.topic = args[1].clone();
                let mut out = no_steps();
                push_step(&mut out, channel.save(store));
                done(out)
            },
            Err(_) => done(no_steps()),
        }
    } else if same(command, "JOIN") && args.len() == 1 {
        match Channel::load(store, args[0].as_str()) {
            Ok(channel) => {
                let mode = mode_on_join(&channel, source);
                if state.is_identified(source) && mode.unicode_len() > 0 {
                    let mut out = no_steps();
                    push_step(
                        &mut out,
                        Action::send(Directive::samode(args[0].as_str(), mode, source)),
                    );
                    done(out)
                } else {
                    done(no_steps())
                }
            },
            Err(_) => done(no_steps()),
        }
    } else if same(command, "QUIT") {
        state.remove(source);
        done(no_steps())
    } else if same(command, "MODE") && args.len() == 3 && (same(args[1].as_str(), "+v") || same(
        args[1].as_str(),
        "-v",
    )) {
        done(
            democracy_process_hook(
                state,
                store,
                args[1].as_str(),
                args[2].as_str(),
                args[0].as_str(),
            ),
        )
    } else {
        done(no_steps())
    }
}

/// A shuffle that will do for a line from the network.
fn shuffle_for_line(state: &State, command: &str, args: &Vec<String>) -> (order: Vec<String>)
    requires
        state.wf(),
    ensures
        process_fits(state@.games, command@, texts(args@), texts(order@)),
{
    if args.len() == 2 {
        shuffle_for(state, args[1].as_str(), args[0].as_str())
    } else {
        Vec::new()
    }
}

/// Handles a line from the network: `command` with its arguments, sent by
/// `source`. Where the game calls for a shuffle, the players are shuffled.
pub fn process(
    state: &mut State,
    store: &mut Store,
    config: &Config,
    source: &str,
    command: &str,
    args: &Vec<String>,
) -> (r: Outcome)
    requires
        old(state).wf(),
        old(store).wf(),
    ensures
        final(state).wf(),
        final(store).wf(),
        exists|order: Seq<Seq<char>>|
            {
                &&& process_fits(old(state)@.games, command@, texts(args@), order)
                &&& came_to(
                    final(state),
                    final(store),
                    r,
                    old(state)@,
                    old(store)@,
                    #[trigger] process_step(
                        old(state)@,
                        old(store)@,
                        config.nickname@,
                        texts(config.owners@),
                        config.oper_pass@,
                        source@,
                        command@,
                        texts(args@),
                        order,
                    ),
                )
            },
{
    let order = shuffle_for_line(state, command, args);
    let r = process_shuffled(state, store, config, source, command, args, order);
    r
}

} // verus!
