//! The channel service: registering channels and handing out roles in them.

use vstd::prelude::*;
use vstd::string::*;
use super::{Effect, Functionality};
use crate::config::Config;
use crate::data::channel::{fresh_channel, Channel, ChannelView};
use crate::data::state::State;
use crate::data::store::{Store, StoreView};
use crate::data::{password_hash_of, BotResult, HashError};
use crate::text::{differs_from, joined, same, texts, without};
use crate::wire::{
    empty_text, join, notice, one_step, samode, save_channel, save_channel_or, send, steps, Action,
    Directive,
};

verus! {

/// The roles that the channel service hands out and takes back.
#[derive(Debug, Clone, Copy, PartialEq, Eq, Structural)]
pub enum Grant {
    Admin,
    Oper,
    Voice,
    DeAdmin,
    DeOper,
    DeVoice,
    ChangeOwner,
}

/// The mode that goes with a grant.
pub open spec fn grant_flag(g: Grant) -> Seq<char> {
    match g {
        Grant::Admin => "+a"@,
        Grant::Oper => "+o"@,
        Grant::Voice => "+v"@,
        Grant::DeAdmin => "-a"@,
        Grant::DeOper => "-o"@,
        Grant::DeVoice => "-v"@,
        Grant::ChangeOwner => "+q"@,
    }
}

/// What follows the target's name once a grant is made.
pub open spec fn grant_done(g: Grant) -> Seq<char> {
    match g {
        Grant::Admin => " is now an admin."@,
        Grant::Oper => " is now an oper."@,
        Grant::Voice => " is now voiced."@,
        Grant::DeAdmin => " is no longer an admin."@,
        Grant::DeOper => " is no longer an oper."@,
        Grant::DeVoice => " is no longer voiced."@,
        Grant::ChangeOwner => " is now the channel owner."@,
    }
}

/// What precedes the target's name where a record could not be read.
pub open spec fn grant_failed(g: Grant) -> Seq<char> {
    match g {
        Grant::Admin => "Failed to admin "@,
        Grant::Oper => "Failed to oper "@,
        Grant::Voice => "Failed to voice "@,
        Grant::DeAdmin => "Failed to de-admin "@,
        Grant::DeOper => "Failed to de-oper "@,
        Grant::DeVoice => "Failed to de-voice "@,
        Grant::ChangeOwner => "Failed to change owner to "@,
    }
}

/// The record of a channel after a grant to `target`.
pub open spec fn granted(g: Grant, c: ChannelView, target: Seq<char>) -> ChannelView {
    match g {
        Grant::Admin => ChannelView { admins: c.admins.push(target), ..c },
        Grant::Oper => ChannelView { opers: c.opers.push(target), ..c },
        Grant::Voice => ChannelView { voice: c.voice.push(target), ..c },
        Grant::DeAdmin => ChannelView { admins: c.admins.filter(differs_from(target)), ..c },
        Grant::DeOper => ChannelView { opers: c.opers.filter(differs_from(target)), ..c },
        Grant::DeVoice => ChannelView { voice: c.voice.filter(differs_from(target)), ..c },
        Grant::ChangeOwner => ChannelView { owner: target, ..c },
    }
}

// The texts that the channel service sends, word for word.

pub open spec fn text_identify_as(owner: Seq<char>) -> Seq<char> {
    "You must be identify as "@ + owner + " to do that."@
}

pub open spec fn text_target_unidentified(target: Seq<char>) -> Seq<char> {
    target + " must be identified to do that."@
}

pub open spec fn text_unregistered(channel: Seq<char>) -> Seq<char> {
    "Channel "@ + channel + " is not registered!"@
}

pub open spec fn text_password_incorrect() -> Seq<char> {
    "Password incorrect."@
}

pub open spec fn text_io_issue() -> Seq<char> {
    " due to an I/O issue."@
}

/// An effect that only tells `to` something.
pub open spec fn told(identified: Seq<Seq<char>>, store: StoreView, to: Seq<char>, text: Seq<char>) -> Effect {
    Effect { identified, store, steps: seq![send(notice(to, text))], digests: false }
}

/// What a grant comes to. Both the one who asks and the target must be
/// identified (a change of owner to `Pidgey` goes through regardless), the
/// channel registered and its record readable, and the password right.
/// Then the record is changed and written out, the mode set, and the one
/// who asked told.
pub open spec fn grant_effect(
    g: Grant,
    identified: Seq<Seq<char>>,
    store: StoreView,
    owner: Seq<char>,
    channel: Seq<char>,
    password: Seq<char>,
    target: Seq<char>,
) -> Effect {
    if !identified.contains(owner) {
        told(identified, store, owner, text_identify_as(owner))
    } else if !identified.contains(target) && !(g == Grant::ChangeOwner && target == "Pidgey"@) {
        told(identified, store, owner, text_target_unidentified(target))
    } else if !store.channel_listed(channel) {
        told(identified, store, owner, text_unregistered(channel))
    } else {
        match store.channel(channel) {
            Some(c) => if c.password == password_hash_of(password) {
                let after = granted(g, c, target);
                Effect {
                    identified,
                    store: store.with_channel(after),
                    steps: seq![
                        save_channel(after),
                        send(samode(channel, grant_flag(g), target)),
                        send(notice(owner, target + grant_done(g))),
                    ],
                    digests: true,
                }
            } else {
                Effect { digests: true, ..told(identified, store, owner, text_password_incorrect()) }
            },
            None => told(identified, store, owner, grant_failed(g) + target + text_io_issue()),
        }
    }
}

/// The one action of telling `to` something.
pub(crate) fn tell(to: &str, text: &str) -> (out: Vec<Action>)
    ensures
        steps(out@) == seq![send(notice(to@, text@))],
{
    one_step(Directive::notice(to, text))
}

fn three_steps(a: Action, b: Action, c: Action) -> (out: Vec<Action>)
    ensures
        steps(out@) == seq![a@, b@, c@],
{
    let mut out: Vec<Action> = Vec::new();
    out.push(a);
    out.push(b);
    out.push(c);
    out
}

fn identify_as_text(owner: &str) -> (r: String)
    ensures
        r@ == text_identify_as(owner@),
{
    let mut r = "You must be identify as ".to_owned();
    r.append(owner);
    r.append(" to do that.");
    r
}

fn unregistered_text(channel: &str) -> (r: String)
    ensures
        r@ == text_unregistered(channel@),
{
    let mut r = "Channel ".to_owned();
    r.append(channel);
    r.append(" is not registered!");
    r
}

fn flag_of(g: Grant) -> (r: &'static str)
    ensures
        r@ == grant_flag(g),
{
    match g {
        Grant::Admin => "+a",
        Grant::Oper => "+o",
        Grant::Voice => "+v",
        Grant::DeAdmin => "-a",
        Grant::DeOper => "-o",
        Grant::DeVoice => "-v",
        Grant::ChangeOwner => "+q",
    }
}

fn done_of(g: Grant) -> (r: &'static str)
    ensures
        r@ == grant_done(g),
{
    match g {
        Grant::Admin => " is now an admin.",
        Grant::Oper => " is now an oper.",
        Grant::Voice => " is now voiced.",
        Grant::DeAdmin => " is no longer an admin.",
        Grant::DeOper => " is no longer an oper.",
        Grant::DeVoice => " is no longer voiced.",
        Grant::ChangeOwner => " is now the channel owner.",
    }
}

fn failed_of(g: Grant) -> (r: &'static str)
    ensures
        r@ == grant_failed(g),
{
    match g {
        Grant::Admin => "Failed to admin ",
        Grant::Oper => "Failed to oper ",
        Grant::Voice => "Failed to voice ",
        Grant::DeAdmin => "Failed to de-admin ",
        Grant::DeOper => "Failed to de-oper ",
        Grant::DeVoice => "Failed to de-voice ",
        Grant::ChangeOwner => "Failed to change owner to ",
    }
}

fn with_name(list: &Vec<String>, name: &str) -> (r: Vec<String>)
    ensures
        texts(r@) == texts(list@).push(name@),
{
    let mut r = crate::text::copied(list);
    let owned = name.to_owned();
    r.push(owned);
    r
}

/// Changes a record as a grant asks.
fn apply(g: Grant, channel: &mut Channel, target: &str)
    ensures
        final(channel)@ == granted(g, old(channel)@, target@),
{
    match g {
        Grant::Admin => {
            channel.admins = with_name(&channel.admins, target);
        },
        Grant::Oper => {
            channel.opers = with_name(&channel.opers, target);
        },
        Grant::Voice => {
            channel.voice = with_name(&channel.voice, target);
        },
        Grant::DeAdmin => {
            channel.admins = without(&channel.admins, target);
        },
        Grant::DeOper => {
            channel.opers = without(&channel.opers, target);
        },
        Grant::DeVoice => {
            channel.voice = without(&channel.voice, target);
        },
        Grant::ChangeOwner => {
            channel.owner = target.to_owned();
        },
    }
}

/// Carries a grant out.
pub fn grant(
    g: Grant,
    state: &State,
    store: &mut Store,
    owner: &str,
    channel: &str,
    password: &str,
    target: &str,
) -> (r: Result<Vec<Action>, HashError>)
    requires
        old(store).wf(),
    ensures
        final(store).wf(),
        !grant_effect(
            g,
            state@.identified,
            old(store)@,
            owner@,
            channel@,
            password@,
            target@,
        ).digests ==> r is Ok,
        match r {
            Ok(out) => {
                let e = grant_effect(
                    g,
                    state@.identified,
                    old(store)@,
                    owner@,
                    channel@,
                    password@,
                    target@,
                );
                final(store)@ == e.store && steps(out@) == e.steps
            },
            Err(_) => final(store)@ == old(store)@,
        },
{
    if !state.is_identified(owner) {
        return Ok(tell(owner, identify_as_text(owner).as_str()));
    }
    let exempt = match g {
        Grant::ChangeOwner => same(target, "Pidgey"),
        _ => false,
    };
    if !state.is_identified(target) && !exempt {
        return Ok(tell(owner, joined(target, " must be identified to do that.").as_str()));
    }
    if !Channel::registered(store, channel) {
        return Ok(tell(owner, unregistered_text(channel).as_str()));
    }
    match Channel::load(store, channel) {
        Ok(record) => {
            let mut record = record;
            match record.is_password(password) {
                Err(e) => Err(e),
                Ok(false) => Ok(tell(owner, "Password incorrect.")),
                Ok(true) => {
                    apply(g, &mut record, target);
                    let saved = record.save(store);
                    Ok(
                        three_steps(
                            saved,
                            Action::send(Directive::samode(channel, flag_of(g), target)),
                            Action::send(
                                Directive::notice(owner, joined(target, done_of(g)).as_str()),
                            ),
                        ),
                    )
                },
            }
        },
        Err(_) => {
            let mut text = failed_of(g).to_owned();
            text.append(target);
            text.append(" due to an I/O issue.");
            Ok(tell(owner, text.as_str()))
        },
    }
}

/// The fields of a command with a target, out of its five words:
/// the service, the command, the target, the channel and the password.
fn target_channel_password(args: &Vec<String>) -> (r: (String, String, String))
    requires
        args.len() == 5,
    ensures
        r.0@ == args[2]@,
        r.1@ == args[3]@,
        r.2@ == args[4]@,
{
    (args[2].clone(), args[3].clone(), args[4].clone())
}

pub open spec fn text_registered(channel: Seq<char>) -> Seq<char> {
    "Channel "@ + channel + " has been registered. Don't forget the password!"@
}

pub open spec fn text_already_registered(channel: Seq<char>) -> Seq<char> {
    "Channel "@ + channel + " is already registered!"@
}

pub open spec fn text_failed_to_register(name: Seq<char>) -> Seq<char> {
    "Failed to register "@ + name + text_io_issue()
}

/// What registering a channel comes to. The one who asks must be
/// identified and the channel not registered yet; who fails either test is
/// told so, and no digest is taken. Then the password is digested, the
/// record written out, the channel marked as registered, its owner given
/// the owner's modes, the channel joined and the services made an admin of
/// it.
pub open spec fn register_effect(
    identified: Seq<Seq<char>>,
    store: StoreView,
    me: Seq<char>,
    owner: Seq<char>,
    channel: Seq<char>,
    password: Seq<char>,
) -> Effect {
    let fresh = fresh_channel(channel, password, owner);
    if !identified.contains(owner) {
        told(identified, store, owner, text_identify_as(owner))
    } else if store.channel_listed(channel) {
        told(identified, store, owner, text_already_registered(channel))
    } else {
        Effect {
            identified,
            store: store.with_channel(fresh),
            steps: seq![
                save_channel_or(fresh, notice(owner, text_failed_to_register(channel))),
                send(samode(channel, "+r"@, Seq::empty())),
                send(samode(channel, "+qa"@, owner)),
                send(join(channel)),
                send(samode(channel, "+a"@, me)),
                send(notice(owner, text_registered(channel))),
            ],
            digests: true,
        }
    }
}

/// `CS REGISTER channel password`: registers a channel for the one who
/// asks.
#[derive(Debug, PartialEq, Eq)]
pub struct Register {
    pub owner: String,
    pub channel: String,
    pub password: String,
}

impl Register {
    /// Reads the command. The channel's name has to hold a `#`.
    pub fn new(user: &str, args: &Vec<String>) -> (r: BotResult<Register>)
        ensures
            match r {
                Ok(c) => {
                    &&& args.len() == 4
                    &&& args[2]@.contains('#')
                    &&& c.owner@ == user@
                    &&& c.channel@ == args[2]@
                    &&& c.password@ == args[3]@
                },
                Err(msg) => if args.len() != 4 {
                    msg@ == "Syntax: CS REGISTER channel password"@
                } else {
                    !args[2]@.contains('#') && msg@ == "Channels must be prefixed with a #."@
                },
            },
    {
        if args.len() != 4 {
            return Err("Syntax: CS REGISTER channel password".to_owned());
        }
        let name = args[2].as_str();
        let n = name.unicode_len();
        let mut i: usize = 0;
        let mut found = false;
        while i < n
            invariant
                i <= n,
                n == name@.len(),
                found == exists|j: int| 0 <= j < i && name@[j] == '#',
            decreases n - i,
        {
            if name.get_char(i) == '#' {
                found = true;
            }
            i = i + 1;
        }
        if !found {
            return Err("Channels must be prefixed with a #.".to_owned());
        }
        Ok(
            Register {
                owner: user.to_owned(),
                channel: args[2].clone(),
                password: args[3].clone(),
            },
        )
    }
}

impl Functionality for Register {
    open spec fn effect(&self, identified: Seq<Seq<char>>, store: StoreView, me: Seq<char>) -> Effect {
        register_effect(identified, store, me, self.owner@, self.channel@, self.password@)
    }

    fn do_func(&self, state: &mut State, store: &mut Store, config: &Config) -> (r: Result<
        Vec<Action>,
        HashError,
    >) {
        let owner = self.owner.as_str();
        let channel = self.channel.as_str();
        if !state.is_identified(owner) {
            return Ok(tell(owner, identify_as_text(owner).as_str()));
        }
        if Channel::registered(store, channel) {
            let mut text = "Channel ".to_owned();
            text.append(channel);
            text.append(" is already registered!");
            return Ok(tell(owner, text.as_str()));
        }
        let chan = match Channel::new(channel, self.password.as_str(), owner) {
            Ok(c) => c,
            Err(e) => {
                return Err(e);
            },
        };
        let mut failed = "Failed to register ".to_owned();
        failed.append(channel);
        failed.append(" due to an I/O issue.");
        let mut done = "Channel ".to_owned();
        done.append(channel);
        done.append(" has been registered. Don't forget the password!");
        store.put_channel(chan.copy());
        let mut out: Vec<Action> = Vec::new();
        out.push(Action::save_channel_or(chan, Directive::notice(owner, failed.as_str())));
        out.push(Action::send(Directive::samode(channel, "+r", "")));
        out.push(Action::send(Directive::samode(channel, "+qa", owner)));
        out.push(Action::send(Directive::join(channel)));
        out.push(Action::send(Directive::samode(channel, "+a", config.nickname.as_str())));
        out.push(Action::send(Directive::notice(owner, done.as_str())));
        proof {
            empty_text();
        }
        Ok(out)
    }
}

pub open spec fn text_mode_is_now(mode: Seq<char>) -> Seq<char> {
    "Channel mode is now "@ + mode + "."@
}

pub open spec fn text_failed_to_set_mode(mode: Seq<char>) -> Seq<char> {
    "Failed to set channel mode "@ + mode + text_io_issue()
}

/// What setting the mode of a channel comes to. The one who asks must be
/// identified, the channel registered and its record readable, and the
/// password right. Then the mode is noted in the record, which is written
/// out, and set.
pub open spec fn mode_effect(
    identified: Seq<Seq<char>>,
    store: StoreView,
    owner: Seq<char>,
    channel: Seq<char>,
    password: Seq<char>,
    mode: Seq<char>,
) -> Effect {
    if !identified.contains(owner) {
        told(identified, store, owner, text_identify_as(owner))
    } else if !store.channel_listed(channel) {
        told(identified, store, owner, text_unregistered(channel))
    } else {
        match store.channel(channel) {
            Some(c) => if c.password == password_hash_of(password) {
                let after = ChannelView { mode, ..c };
                Effect {
                    identified,
                    store: store.with_channel(after),
                    steps: seq![
                        save_channel(after),
                        send(samode(channel, mode, Seq::empty())),
                        send(notice(owner, text_mode_is_now(mode))),
                    ],
                    digests: true,
                }
            } else {
                Effect { digests: true, ..told(identified, store, owner, text_password_incorrect()) }
            },
            None => told(identified, store, owner, text_failed_to_set_mode(mode)),
        }
    }
}

/// `CS MODE mode channel password`: sets the mode of a channel.
#[derive(Debug, PartialEq, Eq)]
pub struct Mode {
    pub owner: String,
    pub channel: String,
    pub password: String,
    pub mode: String,
}

impl Mode {
    /// Reads the command out of the words of a line, or answers with its
    /// usage.
    pub fn new(user: &str, args: &Vec<String>) -> (r: BotResult<Mode>)
        ensures
            match r {
                Ok(c) => {
                    &&& args.len() == 5
                    &&& c.owner@ == user@
                    &&& c.mode@ == args[2]@
                    &&& c.channel@ == args[3]@
                    &&& c.password@ == args[4]@
                },
                Err(msg) => args.len() != 5 && msg@ == "Syntax: CS MODE mode channel password"@,
            },
    {
        if args.len() != 5 {
            return Err("Syntax: CS MODE mode channel password".to_owned());
        }
        let (mode, channel, password) = target_channel_password(args);
        Ok(Mode { owner: user.to_owned(), channel, password, mode })
    }
}

impl Functionality for Mode {
    open spec fn effect(&self, identified: Seq<Seq<char>>, store: StoreView, me: Seq<char>) -> Effect {
        mode_effect(identified, store, self.owner@, self.channel@, self.password@, self.mode@)
    }

    fn do_func(&self, state: &mut State, store: &mut Store, config: &Config) -> (r: Result<
        Vec<Action>,
        HashError,
    >) {
        let owner = self.owner.as_str();
        let channel = self.channel.as_str();
        if !state.is_identified(owner) {
            return Ok(tell(owner, identify_as_text(owner).as_str()));
        }
        if !Channel::registered(store, channel) {
            return Ok(tell(owner, unregistered_text(channel).as_str()));
        }
        match Channel::load(store, channel) {
            Ok(record) => {
                let mut record = record;
                match record.is_password(self.password.as_str()) {
                    Err(e) => Err(e),
                    Ok(false) => Ok(tell(owner, "Password incorrect.")),
                    Ok(true) => {
                        record.mode = self.mode.clone();
                        let saved = record.save(store);
                        let mut text = "Channel mode is now ".to_owned();
                        text.append(self.mode.as_str());
                        text.append(".");
                        proof {
                            empty_text();
                        }
                        Ok(
                            three_steps(
                                saved,
                                Action::send(Directive::samode(channel, self.mode.as_str(), "")),
                                Action::send(Directive::notice(owner, text.as_str())),
                            ),
                        )
                    },
                }
            },
            Err(_) => {
                let mut text = "Failed to set channel mode ".to_owned();
                text.append(self.mode.as_str());
                text.append(" due to an I/O issue.");
                Ok(tell(owner, text.as_str()))
            },
        }
    }
}

/// `CS ADMIN user channel password`: makes a user an admin of a channel.
#[derive(Debug, PartialEq, Eq)]
pub struct Admin {
    pub owner: String,
    pub channel: String,
    pub password: String,
    pub target: String,
}

impl Admin {
    /// Reads the command out of the words of a line, or answers with its
    /// usage.
    pub fn new(user: &str, args: &Vec<String>) -> (r: BotResult<Admin>)
        ensures
            match r {
                Ok(c) => {
                    &&& args.len() == 5
                    &&& c.owner@ == user@
                    &&& c.target@ == args[2]@
                    &&& c.channel@ == args[3]@
                    &&& c.password@ == args[4]@
                },
                Err(msg) => args.len() != 5 && msg@ == "Syntax: CS ADMIN user channel password"@,
            },
    {
        if args.len() != 5 {
            return Err("Syntax: CS ADMIN user channel password".to_owned());
        }
        let (target, channel, password) = target_channel_password(args);
        Ok(Admin { owner: user.to_owned(), channel, password, target })
    }
}

impl Functionality for Admin {
    open spec fn effect(&self, identified: Seq<Seq<char>>, store: StoreView, me: Seq<char>) -> Effect {
        grant_effect(
            Grant::Admin,
            identified,
            store,
            self.owner@,
            self.channel@,
            self.password@,
            self.target@,
        )
    }

    fn do_func(&self, state: &mut State, store: &mut Store, config: &Config) -> (r: Result<
        Vec<Action>,
        HashError,
    >) {
        grant(
            Grant::Admin,
            state,
            store,
            self.owner.as_str(),
            self.channel.as_str(),
            self.password.as_str(),
            self.target.as_str(),
        )
    }
}

/// `CS OPER user channel password`: makes a user an oper of a channel.
#[derive(Debug, PartialEq, Eq)]
pub struct Oper {
    pub owner: String,
    pub channel: String,
    pub password: String,
    pub target: String,
}

impl Oper {
    /// Reads the command out of the words of a line, or answers with its
    /// usage.
    pub fn new(user: &str, args: &Vec<String>) -> (r: BotResult<Oper>)
        ensures
            match r {
                Ok(c) => {
                    &&& args.len() == 5
                    &&& c.owner@ == user@
                    &&& c.target@ == args[2]@
                    &&& c.channel@ == args[3]@
                    &&& c.password@ == args[4]@
                },
                Err(msg) => args.len() != 5 && msg@ == "Syntax: CS OPER user channel password"@,
            },
    {
        if args.len() != 5 {
            return Err("Syntax: CS OPER user channel password".to_owned());
        }
        let (target, channel, password) = target_channel_password(args);
        Ok(Oper { owner: user.to_owned(), channel, password, target })
    }
}

impl Functionality for Oper {
    open spec fn effect(&self, identified: Seq<Seq<char>>, store: StoreView, me: Seq<char>) -> Effect {
        grant_effect(
            Grant::Oper,
            identified,
            store,
            self.owner@,
            self.channel@,
            self.password@,
            self.target@,
        )
    }

    fn do_func(&self, state: &mut State, store: &mut Store, config: &Config) -> (r: Result<
        Vec<Action>,
        HashError,
    >) {
        grant(
            Grant::Oper,
            state,
            store,
            self.owner.as_str(),
            self.channel.as_str(),
            self.password.as_str(),
            self.target.as_str(),
        )
    }
}

/// `CS VOICE user channel password`: gives a user voice in a channel.
#[derive(Debug, PartialEq, Eq)]
pub struct Voice {
    pub owner: String,
    pub channel: String,
    pub password: String,
    pub target: String,
}

impl Voice {
    /// Reads the command out of the words of a line, or answers with its
    /// usage.
    pub fn new(user: &str, args: &Vec<String>) -> (r: BotResult<Voice>)
        ensures
            match r {
                Ok(c) => {
                    &&& args.len() == 5
                    &&& c.owner@ == user@
                    &&& c.target@ == args[2]@
                    &&& c.channel@ == args[3]@
                    &&& c.password@ == args[4]@
                },
                Err(msg) => args.len() != 5 && msg@ == "Syntax: CS VOICE user channel password"@,
            },
    {
        if args.len() != 5 {
            return Err("Syntax: CS VOICE user channel password".to_owned());
        }
        let (target, channel, password) = target_channel_password(args);
        Ok(Voice { owner: user.to_owned(), channel, password, target })
    }
}

impl Functionality for Voice {
    open spec fn effect(&self, identified: Seq<Seq<char>>, store: StoreView, me: Seq<char>) -> Effect {
        grant_effect(
            Grant::Voice,
            identified,
            store,
            self.owner@,
            self.channel@,
            self.password@,
            self.target@,
        )
    }

    fn do_func(&self, state: &mut State, store: &mut Store, config: &Config) -> (r: Result<
        Vec<Action>,
        HashError,
    >) {
        grant(
            Grant::Voice,
            state,
            store,
            self.owner.as_str(),
            self.channel.as_str(),
            self.password.as_str(),
            self.target.as_str(),
        )
    }
}

/// `CS DEADMIN user channel password`: takes the admin role in a channel from a user.
#[derive(Debug, PartialEq, Eq)]
pub struct DeAdmin {
    pub owner: String,
    pub channel: String,
    pub password: String,
    pub target: String,
}

impl DeAdmin {
    /// Reads the command out of the words of a line, or answers with its
    /// usage.
    pub fn new(user: &str, args: &Vec<String>) -> (r: BotResult<DeAdmin>)
        ensures
            match r {
                Ok(c) => {
                    &&& args.len() == 5
                    &&& c.owner@ == user@
                    &&& c.target@ == args[2]@
                    &&& c.channel@ == args[3]@
                    &&& c.password@ == args[4]@
                },
                Err(msg) => args.len() != 5 && msg@ == "Syntax: CS DEADMIN user channel password"@,
            },
    {
        if args.len() != 5 {
            return Err("Syntax: CS DEADMIN user channel password".to_owned());
        }
        let (target, channel, password) = target_channel_password(args);
        Ok(DeAdmin { owner: user.to_owned(), channel, password, target })
    }
}

impl Functionality for DeAdmin {
    open spec fn effect(&self, identified: Seq<Seq<char>>, store: StoreView, me: Seq<char>) -> Effect {
        grant_effect(
            Grant::DeAdmin,
            identified,
            store,
            self.owner@,
            self.channel@,
            self.password@,
            self.target@,
        )
    }

    fn do_func(&self, state: &mut State, store: &mut Store, config: &Config) -> (r: Result<
        Vec<Action>,
        HashError,
    >) {
        grant(
            Grant::DeAdmin,
            state,
            store,
            self.owner.as_str(),
            self.channel.as_str(),
            self.password.as_str(),
            self.target.as_str(),
        )
    }
}

/// `CS DEOPER user channel password`: takes the oper role in a channel from a user.
#[derive(Debug, PartialEq, Eq)]
pub struct DeOper {
    pub owner: String,
    pub channel: String,
    pub password: String,
    pub target: String,
}

impl DeOper {
    /// Reads the command out of the words of a line, or answers with its
    /// usage.
    pub fn new(user: &str, args: &Vec<String>) -> (r: BotResult<DeOper>)
        ensures
            match r {
                Ok(c) => {
                    &&& args.len() == 5
                    &&& c.owner@ == user@
                    &&& c.target@ == args[2]@
                    &&& c.channel@ == args[3]@
                    &&& c.password@ == args[4]@
                },
                Err(msg) => args.len() != 5 && msg@ == "Syntax: CS DEOPER user channel password"@,
            },
    {
        if args.len() != 5 {
            return Err("Syntax: CS DEOPER user channel password".to_owned());
        }
        let (target, channel, password) = target_channel_password(args);
        Ok(DeOper { owner: user.to_owned(), channel, password, target })
    }
}

impl Functionality for DeOper {
    open spec fn effect(&self, identified: Seq<Seq<char>>, store: StoreView, me: Seq<char>) -> Effect {
        grant_effect(
            Grant::DeOper,
            identified,
            store,
            self.owner@,
            self.channel@,
            self.password@,
            self.target@,
        )
    }

    fn do_func(&self, state: &mut State, store: &mut Store, config: &Config) -> (r: Result<
        Vec<Action>,
        HashError,
    >) {
        grant(
            Grant::DeOper,
            state,
            store,
            self.owner.as_str(),
            self.channel.as_str(),
            self.password.as_str(),
            self.target.as_str(),
        )
    }
}

/// `CS DEVOICE user channel password`: takes voice in a channel from a user.
#[derive(Debug, PartialEq, Eq)]
pub struct DeVoice {
    pub owner: String,
    pub channel: String,
    pub password: String,
    pub target: String,
}

impl DeVoice {
    /// Reads the command out of the words of a line, or answers with its
    /// usage.
    pub fn new(user: &str, args: &Vec<String>) -> (r: BotResult<DeVoice>)
        ensures
            match r {
                Ok(c) => {
                    &&& args.len() == 5
                    &&& c.owner@ == user@
                    &&& c.target@ == args[2]@
                    &&& c.channel@ == args[3]@
                    &&& c.password@ == args[4]@
                },
                Err(msg) => args.len() != 5 && msg@ == "Syntax: CS DEVOICE user channel password"@,
            },
    {
        if args.len() != 5 {
            return Err("Syntax: CS DEVOICE user channel password".to_owned());
        }
        let (target, channel, password) = target_channel_password(args);
        Ok(DeVoice { owner: user.to_owned(), channel, password, target })
    }
}

impl Functionality for DeVoice {
    open spec fn effect(&self, identified: Seq<Seq<char>>, store: StoreView, me: Seq<char>) -> Effect {
        grant_effect(
            Grant::DeVoice,
            identified,
            store,
            self.owner@,
            self.channel@,
            self.password@,
            self.target@,
        )
    }

    fn do_func(&self, state: &mut State, store: &mut Store, config: &Config) -> (r: Result<
        Vec<Action>,
        HashError,
    >) {
        grant(
            Grant::DeVoice,
            state,
            store,
            self.owner.as_str(),
            self.channel.as_str(),
            self.password.as_str(),
            self.target.as_str(),
        )
    }
}

/// `CS CHOWN user channel password`: makes a user the owner of a channel.
#[derive(Debug, PartialEq, Eq)]
pub struct ChangeOwner {
    pub owner: String,
    pub channel: String,
    pub password: String,
    pub target: String,
}

impl ChangeOwner {
    /// Reads the command out of the words of a line, or answers with its
    /// usage.
    pub fn new(user: &str, args: &Vec<String>) -> (r: BotResult<ChangeOwner>)
        ensures
            match r {
                Ok(c) => {
                    &&& args.len() == 5
                    &&& c.owner@ == user@
                    &&& c.target@ == args[2]@
                    &&& c.channel@ == args[3]@
                    &&& c.password@ == args[4]@
                },
                Err(msg) => args.len() != 5 && msg@ == "Syntax: CS CHOWN user channel password"@,
            },
    {
        if args.len() != 5 {
            return Err("Syntax: CS CHOWN user channel password".to_owned());
        }
        let (target, channel, password) = target_channel_password(args);
        Ok(ChangeOwner { owner: user.to_owned(), channel, password, target })
    }
}

impl Functionality for ChangeOwner {
    open spec fn effect(&self, identified: Seq<Seq<char>>, store: StoreView, me: Seq<char>) -> Effect {
        grant_effect(
            Grant::ChangeOwner,
            identified,
            store,
            self.owner@,
            self.channel@,
            self.password@,
            self.target@,
        )
    }

    fn do_func(&self, state: &mut State, store: &mut Store, config: &Config) -> (r: Result<
        Vec<Action>,
        HashError,
    >) {
        grant(
            Grant::ChangeOwner,
            state,
            store,
            self.owner.as_str(),
            self.channel.as_str(),
            self.password.as_str(),
            self.target.as_str(),
        )
    }
}

/// The grant that a command word of the channel service names.
pub open spec fn grant_of(cmd: Seq<char>) -> Option<Grant> {
    if cmd == "ADMIN"@ {
        Some(Grant::Admin)
    } else if cmd == "OPER"@ {
        Some(Grant::Oper)
    } else if cmd == "VOICE"@ {
        Some(Grant::Voice)
    } else if cmd == "DEADMIN"@ {
        Some(Grant::DeAdmin)
    } else if cmd == "DEOPER"@ {
        Some(Grant::DeOper)
    } else if cmd == "DEVOICE"@ {
        Some(Grant::DeVoice)
    } else if cmd == "CHOWN"@ {
        Some(Grant::ChangeOwner)
    } else {
        None
    }
}

/// The usage line of a grant.
pub open spec fn grant_syntax(g: Grant) -> Seq<char> {
    match g {
        Grant::Admin => "Syntax: CS ADMIN user channel password"@,
        Grant::Oper => "Syntax: CS OPER user channel password"@,
        Grant::Voice => "Syntax: CS VOICE user channel password"@,
        Grant::DeAdmin => "Syntax: CS DEADMIN user channel password"@,
        Grant::DeOper => "Syntax: CS DEOPER user channel password"@,
        Grant::DeVoice => "Syntax: CS DEVOICE user channel password"@,
        Grant::ChangeOwner => "Syntax: CS CHOWN user channel password"@,
    }
}

pub open spec fn text_not_a_command(word: Seq<char>) -> Seq<char> {
    word + " is not a valid command."@
}

/// What a command for the channel service comes to: `tokens` are the
/// words of the line as `source` sent it, and `cmd` is its second word in
/// upper case. A line with the wrong number of words is answered with the
/// usage, an unknown command is refused.
pub open spec fn command_effect(
    cmd: Seq<char>,
    tokens: Seq<Seq<char>>,
    identified: Seq<Seq<char>>,
    store: StoreView,
    me: Seq<char>,
    source: Seq<char>,
) -> Effect {
    if cmd == "REGISTER"@ {
        if tokens.len() != 4 {
            told(identified, store, source, "Syntax: CS REGISTER channel password"@)
        } else if !tokens[2].contains('#') {
            told(identified, store, source, "Channels must be prefixed with a #."@)
        } else {
            register_effect(identified, store, me, source, tokens[2], tokens[3])
        }
    } else if cmd == "MODE"@ {
        if tokens.len() != 5 {
            told(identified, store, source, "Syntax: CS MODE mode channel password"@)
        } else {
            mode_effect(identified, store, source, tokens[3], tokens[4], tokens[2])
        }
    } else {
        match grant_of(cmd) {
            Some(g) => if tokens.len() != 5 {
                told(identified, store, source, grant_syntax(g))
            } else {
                grant_effect(g, identified, store, source, tokens[3], tokens[4], tokens[2])
            },
            None => told(identified, store, source, text_not_a_command(tokens[1])),
        }
    }
}

/// Answers a line that could not be read as a command, or carries the
/// command out.
pub(crate) fn carry_out<C: Functionality>(
    read: BotResult<C>,
    state: &mut State,
    store: &mut Store,
    config: &Config,
    source: &str,
) -> (r: Result<Vec<Action>, HashError>)
    requires
        old(state).wf(),
        old(store).wf(),
    ensures
        final(state).wf(),
        final(store).wf(),
        final(state).resistance == old(state).resistance,
        final(state).democracy == old(state).democracy,
        read is Err ==> r is Ok,
        read matches Ok(c) && !c.effect(old(state)@.identified, old(store)@, config.nickname@).digests
            ==> r is Ok,
        match r {
            Ok(out) => {
                let e = match read {
                    Ok(c) => c.effect(old(state)@.identified, old(store)@, config.nickname@),
                    Err(msg) => told(old(state)@.identified, old(store)@, source@, msg@),
                };
                &&& final(state)@.identified == e.identified
                &&& final(store)@ == e.store
                &&& steps(out@) == e.steps
            },
            Err(_) => final(state)@.identified == old(state)@.identified && final(store)@ == old(
                store,
            )@,
        },
{
    match read {
        Ok(c) => c.do_func(state, store, config),
        Err(msg) => Ok(tell(source, msg.as_str())),
    }
}

/// Reads a command for the channel service and carries it out. `tokens`
/// are the words of the line and `cmd` is the second of them in upper
/// case.
pub fn command(
    cmd: &str,
    tokens: &Vec<String>,
    state: &mut State,
    store: &mut Store,
    config: &Config,
    source: &str,
) -> (r: Result<Vec<Action>, HashError>)
    requires
        old(state).wf(),
        old(store).wf(),
        tokens.len() > 1,
    ensures
        final(state).wf(),
        final(store).wf(),
        final(state).resistance == old(state).resistance,
        final(state).democracy == old(state).democracy,
        !command_effect(
            cmd@,
            texts(tokens@),
            old(state)@.identified,
            old(store)@,
            config.nickname@,
            source@,
        ).digests ==> r is Ok,
        match r {
            Ok(out) => {
                let e = command_effect(
                    cmd@,
                    texts(tokens@),
                    old(state)@.identified,
                    old(store)@,
                    config.nickname@,
                    source@,
                );
                &&& final(state)@.identified == e.identified
                &&& final(store)@ == e.store
                &&& steps(out@) == e.steps
            },
            Err(_) => final(state)@.identified == old(state)@.identified && final(store)@ == old(
                store,
            )@,
        },
{
    proof {
        reveal_strlit("REGISTER");
        reveal_strlit("MODE");
        reveal_strlit("ADMIN");
        reveal_strlit("OPER");
        reveal_strlit("VOICE");
        reveal_strlit("DEADMIN");
        reveal_strlit("DEOPER");
        reveal_strlit("DEVOICE");
        reveal_strlit("CHOWN");
        assert("OPER"@[0] == 'O' && "MODE"@[0] == 'M');
    }
    if same(cmd, "REGISTER") {
        carry_out(Register::new(source, tokens), state, store, config, source)
    } else if same(cmd, "ADMIN") {
        carry_out(Admin::new(source, tokens), state, store, config, source)
    } else if same(cmd, "OPER") {
        carry_out(Oper::new(source, tokens), state, store, config, source)
    } else if same(cmd, "VOICE") {
        carry_out(Voice::new(source, tokens), state, store, config, source)
    } else if same(cmd, "MODE") {
        carry_out(Mode::new(source, tokens), state, store, config, source)
    } else if same(cmd, "DEADMIN") {
        carry_out(DeAdmin::new(source, tokens), state, store, config, source)
    } else if same(cmd, "DEOPER") {
        carry_out(DeOper::new(source, tokens), state, store, config, source)
    } else if same(cmd, "DEVOICE") {
        carry_out(DeVoice::new(source, tokens), state, store, config, source)
    } else if same(cmd, "CHOWN") {
        carry_out(ChangeOwner::new(source, tokens), state, store, config, source)
    } else {
        Ok(tell(source, joined(tokens[1].as_str(), " is not a valid command.").as_str()))
    }
}

} // verus!
