//! The nickname service: registering nicknames and proving who one is.

use vstd::prelude::*;
use vstd::string::*;
use super::chanserv::{
    carry_out, tell, text_failed_to_register, text_not_a_command, text_password_incorrect, told,
};
use super::{Effect, Functionality};
use crate::config::Config;
use crate::data::state::State;
use crate::data::store::{Store, StoreView};
use crate::data::user::{text_of, User, UserView};
use crate::data::{password_hash_of, BotResult, HashError};
use crate::text::{joined, same, texts};
use crate::wire::{
    empty_text, kill, notice, samode, sanick, save_user, save_user_or, send, steps, Action,
    Directive,
};

verus! {

// The texts that the nickname service sends, word for word.

pub open spec fn text_nick_registered(nickname: Seq<char>) -> Seq<char> {
    "Nickname "@ + nickname
        + " has been registered. Don't forget your password!\r\nYou're now identified."@
}

pub open spec fn text_nick_taken(nickname: Seq<char>) -> Seq<char> {
    "Nickname "@ + nickname + " is already registered!"@
}

pub open spec fn text_recognized() -> Seq<char> {
    "Password accepted - you are now recognized."@
}

/// What registering a nickname comes to. A nickname that is registered
/// already is refused, and no digest is taken. Otherwise the password is
/// digested, the record written out, and the user marked as registered and
/// identified.
pub open spec fn register_effect(
    identified: Seq<Seq<char>>,
    store: StoreView,
    nickname: Seq<char>,
    password: Seq<char>,
    email: Option<Seq<char>>,
) -> Effect {
    let fresh = UserView { nickname, password: password_hash_of(password), email };
    if store.user_listed(nickname) {
        told(identified, store, nickname, text_nick_taken(nickname))
    } else {
        Effect {
            identified: identified.push(nickname),
            store: store.with_user(fresh),
            steps: seq![
                save_user_or(fresh, notice(nickname, text_failed_to_register(nickname))),
                send(samode(nickname, "+r"@, Seq::empty())),
                send(notice(nickname, text_nick_registered(nickname))),
            ],
            digests: true,
        }
    }
}

/// What identifying comes to. The nickname must be registered, its record
/// readable and the password right; then the user is marked as identified.
pub open spec fn identify_effect(
    identified: Seq<Seq<char>>,
    store: StoreView,
    nickname: Seq<char>,
    password: Seq<char>,
) -> Effect {
    if !store.user_listed(nickname) {
        told(identified, store, nickname, "Your nick isn't registered."@)
    } else {
        match store.user(nickname) {
            Some(u) => if u.password == password_hash_of(password) {
                Effect {
                    identified: identified.push(nickname),
                    store,
                    steps: seq![
                        send(samode(nickname, "+r"@, Seq::empty())),
                        send(notice(nickname, text_recognized())),
                    ],
                    digests: true,
                }
            } else {
                Effect { digests: true, ..told(identified, store, nickname, text_password_incorrect()) }
            },
            None => told(identified, store, nickname, "Failed to identify due to an I/O issue."@),
        }
    }
}

/// What ghosting a nickname comes to. With the right password whoever
/// uses the nickname is disconnected.
pub open spec fn ghost_effect(
    identified: Seq<Seq<char>>,
    store: StoreView,
    current_nick: Seq<char>,
    nickname: Seq<char>,
    password: Seq<char>,
) -> Effect {
    if !store.user_listed(nickname) {
        told(
            identified,
            store,
            current_nick,
            "That nick isn't registered, and therefore cannot be ghosted."@,
        )
    } else {
        match store.user(nickname) {
            Some(u) => if u.password == password_hash_of(password) {
                Effect {
                    identified,
                    store,
                    steps: seq![
                        send(kill(nickname, "Ghosted by "@ + current_nick)),
                        send(notice(nickname, "User has been ghosted."@)),
                    ],
                    digests: true,
                }
            } else {
                Effect { digests: true, ..told(identified, store, current_nick, text_password_incorrect()) }
            },
            None => told(
                identified,
                store,
                current_nick,
                "Failed to ghost nick due to an I/O issue."@,
            ),
        }
    }
}

/// What reclaiming a nickname comes to. With the right password whoever
/// uses the nickname is disconnected, and the one who asks gets the
/// nickname and is marked as identified under it.
pub open spec fn reclaim_effect(
    identified: Seq<Seq<char>>,
    store: StoreView,
    current_nick: Seq<char>,
    nickname: Seq<char>,
    password: Seq<char>,
) -> Effect {
    if !store.user_listed(nickname) {
        told(
            identified,
            store,
            current_nick,
            "That nick isn't registered, and therefore cannot be reclaimed."@,
        )
    } else {
        match store.user(nickname) {
            Some(u) => if u.password == password_hash_of(password) {
                Effect {
                    identified: identified.push(nickname),
                    store,
                    steps: seq![
                        send(kill(nickname, "Reclaimed by "@ + current_nick)),
                        send(sanick(current_nick, nickname)),
                        send(samode(nickname, "+r"@, Seq::empty())),
                        send(notice(nickname, text_recognized())),
                    ],
                    digests: true,
                }
            } else {
                Effect { digests: true, ..told(identified, store, current_nick, text_password_incorrect()) }
            },
            None => told(
                identified,
                store,
                current_nick,
                "Failed to reclaim nick due to an I/O issue."@,
            ),
        }
    }
}

/// What changing a password comes to. With the right old password the
/// record is written out with the new one.
pub open spec fn chpass_effect(
    identified: Seq<Seq<char>>,
    store: StoreView,
    user: Seq<char>,
    password: Seq<char>,
    new_password: Seq<char>,
) -> Effect {
    if !store.user_listed(user) {
        told(
            identified,
            store,
            user,
            "This nick isn't registered, and therefore doesn't have a password to change."@,
        )
    } else {
        match store.user(user) {
            Some(u) => if u.password == password_hash_of(password) {
                let after = UserView { password: password_hash_of(new_password), ..u };
                Effect {
                    identified,
                    store: store.with_user(after),
                    steps: seq![
                        save_user(after),
                        send(notice(user, "Your password has been changed. Don't forget it!"@)),
                    ],
                    digests: true,
                }
            } else {
                Effect { digests: true, ..told(identified, store, user, text_password_incorrect()) }
            },
            None => told(identified, store, user, "Failed to change password due to an I/O issue."@),
        }
    }
}

/// `NS REGISTER password [email]`: registers the nickname of the one who
/// asks.
#[derive(Debug, PartialEq, Eq)]
pub struct Register {
    pub nickname: String,
    pub password: String,
    pub email: Option<String>,
}

impl Register {
    /// Reads the command out of the words of a line, or answers with its
    /// usage.
    pub fn new(user: &str, args: &Vec<String>) -> (r: BotResult<Register>)
        ensures
            match r {
                Ok(c) => {
                    &&& args.len() == 3 || args.len() == 4
                    &&& c.nickname@ == user@
                    &&& c.password@ == args[2]@
                    &&& text_of(c.email) == if args.len() == 4 {
                        Some(args[3]@)
                    } else {
                        None::<Seq<char>>
                    }
                },
                Err(msg) => args.len() != 3 && args.len() != 4 && msg@
                    == "Syntax: NS REGISTER password [email]"@,
            },
    {
        if args.len() != 3 && args.len() != 4 {
            return Err("Syntax: NS REGISTER password [email]".to_owned());
        }
        Ok(
            Register {
                nickname: user.to_owned(),
                password: args[2].clone(),
                email: if args.len() == 4 {
                    Some(args[3].clone())
                } else {
                    None
                },
            },
        )
    }
}

impl Functionality for Register {
    open spec fn effect(&self, identified: Seq<Seq<char>>, store: StoreView, me: Seq<char>) -> Effect {
        register_effect(identified, store, self.nickname@, self.password@, text_of(self.email))
    }

    fn do_func(&self, state: &mut State, store: &mut Store, config: &Config) -> (r: Result<
        Vec<Action>,
        HashError,
    >) {
        let nickname = self.nickname.as_str();
        let email = match &self.email {
            Some(e) => Some(e.as_str()),
            None => None,
        };
        if User::registered(store, nickname) {
            let mut text = "Nickname ".to_owned();
            text.append(nickname);
            text.append(" is already registered!");
            return Ok(tell(nickname, text.as_str()));
        }
        let user = match User::new(nickname, self.password.as_str(), email) {
            Ok(u) => u,
            Err(e) => {
                return Err(e);
            },
        };
        let mut failed = "Failed to register ".to_owned();
        failed.append(nickname);
        failed.append(" due to an I/O issue.");
        let mut done = "Nickname ".to_owned();
        done.append(nickname);
        done.append(" has been registered. Don't forget your password!\r\nYou're now identified.");
        store.put_user(user.copy());
        state.identify(nickname);
        let mut out: Vec<Action> = Vec::new();
        out.push(Action::save_user_or(user, Directive::notice(nickname, failed.as_str())));
        out.push(Action::send(Directive::samode(nickname, "+r", "")));
        out.push(Action::send(Directive::notice(nickname, done.as_str())));
        proof {
            empty_text();
        }
        Ok(out)
    }
}

/// `NS IDENTIFY password`: proves that the one who asks owns the nickname.
#[derive(Debug, PartialEq, Eq)]
pub struct Identify {
    pub nickname: String,
    pub password: String,
}

impl Identify {
    /// Reads the command out of the words of a line, or answers with its
    /// usage.
    pub fn new(user: &str, args: &Vec<String>) -> (r: BotResult<Identify>)
        ensures
            match r {
                Ok(c) => args.len() == 3 && c.nickname@ == user@ && c.password@ == args[2]@,
                Err(msg) => args.len() != 3 && msg@ == "Syntax: NS IDENTIFY password"@,
            },
    {
        if args.len() != 3 {
            return Err("Syntax: NS IDENTIFY password".to_owned());
        }
        Ok(Identify { nickname: user.to_owned(), password: args[2].clone() })
    }
}

impl Functionality for Identify {
    open spec fn effect(&self, identified: Seq<Seq<char>>, store: StoreView, me: Seq<char>) -> Effect {
        identify_effect(identified, store, self.nickname@, self.password@)
    }

    fn do_func(&self, state: &mut State, store: &mut Store, config: &Config) -> (r: Result<
        Vec<Action>,
        HashError,
    >) {
        let nickname = self.nickname.as_str();
        if !User::registered(store, nickname) {
            return Ok(tell(nickname, "Your nick isn't registered."));
        }
        match User::load(store, nickname) {
            Ok(user) => match user.is_password(self.password.as_str()) {
                Err(e) => Err(e),
                Ok(false) => Ok(tell(nickname, "Password incorrect.")),
                Ok(true) => {
                    state.identify(nickname);
                    let mut out: Vec<Action> = Vec::new();
                    out.push(Action::send(Directive::samode(nickname, "+r", "")));
                    out.push(
                        Action::send(
                            Directive::notice(
                                nickname,
                                "Password accepted - you are now recognized.",
                            ),
                        ),
                    );
                    proof {
                        empty_text();
                    }
                    Ok(out)
                },
            },
            Err(_) => Ok(tell(nickname, "Failed to identify due to an I/O issue.")),
        }
    }
}

/// `NS GHOST nickname password`: disconnects whoever uses a nickname.
#[derive(Debug, PartialEq, Eq)]
pub struct GhostNick {
    pub current_nick: String,
    pub nickname: String,
    pub password: String,
}

impl GhostNick {
    /// Reads the command out of the words of a line, or answers with its
    /// usage.
    pub fn new(user: &str, args: &Vec<String>) -> (r: BotResult<GhostNick>)
        ensures
            match r {
                Ok(c) => args.len() == 4 && c.current_nick@ == user@ && c.nickname@ == args[2]@
                    && c.password@ == args[3]@,
                Err(msg) => args.len() != 4 && msg@ == "Syntax: NS GHOST nickname password"@,
            },
    {
        if args.len() != 4 {
            return Err("Syntax: NS GHOST nickname password".to_owned());
        }
        Ok(
            GhostNick {
                current_nick: user.to_owned(),
                nickname: args[2].clone(),
                password: args[3].clone(),
            },
        )
    }
}

impl Functionality for GhostNick {
    open spec fn effect(&self, identified: Seq<Seq<char>>, store: StoreView, me: Seq<char>) -> Effect {
        ghost_effect(identified, store, self.current_nick@, self.nickname@, self.password@)
    }

    fn do_func(&self, state: &mut State, store: &mut Store, config: &Config) -> (r: Result<
        Vec<Action>,
        HashError,
    >) {
        let nickname = self.nickname.as_str();
        let current = self.current_nick.as_str();
        if !User::registered(store, nickname) {
            return Ok(
                tell(current, "That nick isn't registered, and therefore cannot be ghosted."),
            );
        }
        match User::load(store, nickname) {
            Ok(user) => match user.is_password(self.password.as_str()) {
                Err(e) => Err(e),
                Ok(false) => Ok(tell(current, "Password incorrect.")),
                Ok(true) => {
                    let mut out: Vec<Action> = Vec::new();
                    out.push(
                        Action::send(
                            Directive::kill(nickname, joined("Ghosted by ", current).as_str()),
                        ),
                    );
                    out.push(Action::send(Directive::notice(nickname, "User has been ghosted.")));
                    Ok(out)
                },
            },
            Err(_) => Ok(tell(current, "Failed to ghost nick due to an I/O issue.")),
        }
    }
}

/// `NS RECLAIM nickname password`: takes a nickname back from whoever
/// uses it.
#[derive(Debug, PartialEq, Eq)]
pub struct Reclaim {
    pub current_nick: String,
    pub nickname: String,
    pub password: String,
}

impl Reclaim {
    /// Reads the command out of the words of a line, or answers with its
    /// usage.
    pub fn new(user: &str, args: &Vec<String>) -> (r: BotResult<Reclaim>)
        ensures
            match r {
                Ok(c) => args.len() == 4 && c.current_nick@ == user@ && c.nickname@ == args[2]@
                    && c.password@ == args[3]@,
                Err(msg) => args.len() != 4 && msg@ == "Syntax: NS RECLAIM nickname password"@,
            },
    {
        if args.len() != 4 {
            return Err("Syntax: NS RECLAIM nickname password".to_owned());
        }
        Ok(
            Reclaim {
                current_nick: user.to_owned(),
                nickname: args[2].clone(),
                password: args[3].clone(),
            },
        )
    }
}

impl Functionality for Reclaim {
    open spec fn effect(&self, identified: Seq<Seq<char>>, store: StoreView, me: Seq<char>) -> Effect {
        reclaim_effect(identified, store, self.current_nick@, self.nickname@, self.password@)
    }

    fn do_func(&self, state: &mut State, store: &mut Store, config: &Config) -> (r: Result<
        Vec<Action>,
        HashError,
    >) {
        let nickname = self.nickname.as_str();
        let current = self.current_nick.as_str();
        if !User::registered(store, nickname) {
            return Ok(
                tell(current, "That nick isn't registered, and therefore cannot be reclaimed."),
            );
        }
        match User::load(store, nickname) {
            Ok(user) => match user.is_password(self.password.as_str()) {
                Err(e) => Err(e),
                Ok(false) => Ok(tell(current, "Password incorrect.")),
                Ok(true) => {
                    state.identify(nickname);
                    let mut out: Vec<Action> = Vec::new();
                    out.push(
                        Action::send(
                            Directive::kill(nickname, joined("Reclaimed by ", current).as_str()),
                        ),
                    );
                    out.push(Action::send(Directive::sanick(current, nickname)));
                    out.push(Action::send(Directive::samode(nickname, "+r", "")));
                    out.push(
                        Action::send(
                            Directive::notice(
                                nickname,
                                "Password accepted - you are now recognized.",
                            ),
                        ),
                    );
                    proof {
                        empty_text();
                    }
                    Ok(out)
                },
            },
            Err(_) => Ok(tell(current, "Failed to reclaim nick due to an I/O issue.")),
        }
    }
}

/// `NS CHPASS old_password new_password`: changes the password of the one
/// who asks.
#[derive(Debug, PartialEq, Eq)]
pub struct ChangePassword {
    pub user: String,
    pub password: String,
    pub new_password: String,
}

impl ChangePassword {
    /// Reads the command out of the words of a line, or answers with its
    /// usage.
    pub fn new(user: &str, args: &Vec<String>) -> (r: BotResult<ChangePassword>)
        ensures
            match r {
                Ok(c) => args.len() == 4 && c.user@ == user@ && c.password@ == args[2]@
                    && c.new_password@ == args[3]@,
                Err(msg) => args.len() != 4 && msg@
                    == "Syntax: NS CHPASS old_password new_password"@,
            },
    {
        if args.len() != 4 {
            return Err("Syntax: NS CHPASS old_password new_password".to_owned());
        }
        Ok(
            ChangePassword {
                user: user.to_owned(),
                password: args[2].clone(),
                new_password: args[3].clone(),
            },
        )
    }
}

impl Functionality for ChangePassword {
    open spec fn effect(&self, identified: Seq<Seq<char>>, store: StoreView, me: Seq<char>) -> Effect {
        chpass_effect(identified, store, self.user@, self.password@, self.new_password@)
    }

    fn do_func(&self, state: &mut State, store: &mut Store, config: &Config) -> (r: Result<
        Vec<Action>,
        HashError,
    >) {
        let nick = self.user.as_str();
        if !User::registered(store, nick) {
            return Ok(
                tell(
                    nick,
                    "This nick isn't registered, and therefore doesn't have a password to change.",
                ),
            );
        }
        match User::load(store, nick) {
            Ok(user) => {
                let mut user = user;
                match user.is_password(self.password.as_str()) {
                    Err(e) => Err(e),
                    Ok(false) => Ok(tell(nick, "Password incorrect.")),
                    Ok(true) => match user.update_password(self.new_password.as_str()) {
                        Err(e) => Err(e),
                        Ok(()) => {
                            let mut out: Vec<Action> = Vec::new();
                            out.push(user.save(store));
                            out.push(
                                Action::send(
                                    Directive::notice(
                                        nick,
                                        "Your password has been changed. Don't forget it!",
                                    ),
                                ),
                            );
                            Ok(out)
                        },
                    },
                }
            },
            Err(_) => Ok(tell(nick, "Failed to change password due to an I/O issue.")),
        }
    }
}

/// What a command for the nickname service comes to: `tokens` are the
/// words of the line as `source` sent it, and `cmd` is its second word in
/// upper case. A line with the wrong number of words is answered with the
/// usage, an unknown command is refused.
pub open spec fn command_effect(
    cmd: Seq<char>,
    tokens: Seq<Seq<char>>,
    identified: Seq<Seq<char>>,
    store: StoreView,
    source: Seq<char>,
) -> Effect {
    if cmd == "REGISTER"@ {
        if tokens.len() != 3 && tokens.len() != 4 {
            told(identified, store, source, "Syntax: NS REGISTER password [email]"@)
        } else {
            register_effect(
                identified,
                store,
                source,
                tokens[2],
                if tokens.len() == 4 {
                    Some(tokens[3])
                } else {
                    None
                },
            )
        }
    } else if cmd == "IDENTIFY"@ {
        if tokens.len() != 3 {
            told(identified, store, source, "Syntax: NS IDENTIFY password"@)
        } else {
            identify_effect(identified, store, source, tokens[2])
        }
    } else if cmd == "GHOST"@ {
        if tokens.len() != 4 {
            told(identified, store, source, "Syntax: NS GHOST nickname password"@)
        } else {
            ghost_effect(identified, store, source, tokens[2], tokens[3])
        }
    } else if cmd == "RECLAIM"@ {
        if tokens.len() != 4 {
            told(identified, store, source, "Syntax: NS RECLAIM nickname password"@)
        } else {
            reclaim_effect(identified, store, source, tokens[2], tokens[3])
        }
    } else if cmd == "CHPASS"@ {
        if tokens.len() != 4 {
            told(identified, store, source, "Syntax: NS CHPASS old_password new_password"@)
        } else {
            chpass_effect(identified, store, source, tokens[2], tokens[3])
        }
    } else {
        told(identified, store, source, text_not_a_command(tokens[1]))
    }
}

/// Reads a command for the nickname service and carries it out. `tokens`
/// are the words of the line and `cmd` is the second of them in upper
/// case.
pub fn command(
    cmd: &str,
    tokens: &Vec<String>,
    state: &mut State,
    store: &mut Store,
    config: &Config,
    source: &str,
) -> (r: Result<Vec<Action>, HashError>)
    requires
        old(state).wf(),
        old(store).wf(),
        tokens.len() > 1,
    ensures
        final(state).wf(),
        final(store).wf(),
        final(state).resistance == old(state).resistance,
        final(state).democracy == old(state).democracy,
        !command_effect(
            cmd@,
            texts(tokens@),
            old(state)@.identified,
            old(store)@,
            source@,
        ).digests ==> r is Ok,
        match r {
            Ok(out) => {
                let e = command_effect(
                    cmd@,
                    texts(tokens@),
                    old(state)@.identified,
                    old(store)@,
                    source@,
                );
                &&& final(state)@.identified == e.identified
                &&& final(store)@ == e.store
                &&& steps(out@) == e.steps
            },
            Err(_) => final(state)@.identified == old(state)@.identified && final(store)@ == old(
                store,
            )@,
        },
{
    proof {
        reveal_strlit("REGISTER");
        reveal_strlit("IDENTIFY");
        reveal_strlit("GHOST");
        reveal_strlit("RECLAIM");
        reveal_strlit("CHPASS");
    }
    if same(cmd, "REGISTER") {
        carry_out(Register::new(source, tokens), state, store, config, source)
    } else if same(cmd, "IDENTIFY") {
        carry_out(Identify::new(source, tokens), state, store, config, source)
    } else if same(cmd, "GHOST") {
        carry_out(GhostNick::new(source, tokens), state, store, config, source)
    } else if same(cmd, "RECLAIM") {
        carry_out(Reclaim::new(source, tokens), state, store, config, source)
    } else if same(cmd, "CHPASS") {
        carry_out(ChangePassword::new(source, tokens), state, store, config, source)
    } else {
        Ok(tell(source, joined(tokens[1].as_str(), " is not a valid command.").as_str()))
    }
}

} // verus!
