//! What a handler answers with: directives for the network, and records to
//! write out.

use vstd::prelude::*;
use vstd::string::*;
use crate::data::channel::{Channel, ChannelView};
use crate::data::derp::DerpCounter;
use crate::data::user::{User, UserView};
use crate::text::texts;

verus! {

/// The commands the services send.
#[derive(Debug, Clone, Copy, PartialEq, Eq, Structural)]
pub enum Verb {
    /// A message to a channel or a user: the target, then the text.
    Privmsg,
    /// A notice to a user: the target, then the text.
    Notice,
    /// A mode set with services authority: the target, the modes, and the
    /// user they apply to (empty for a mode of the target itself).
    Samode,
    /// A kick: the channel, the user, the reason.
    Kick,
    /// A topic change: the channel, the topic.
    Topic,
    /// Joining a list of channels: the list, comma-separated.
    Join,
    /// Disconnecting a user: the nickname, the reason.
    Kill,
    /// A forced nickname change: the old nickname, the new one.
    Sanick,
    /// Claiming operator rights: the name, the password.
    Oper,
    /// Registering the connection with the server. No arguments.
    Identify,
}

/// One command for the network, with its arguments.
#[derive(Debug, PartialEq, Eq)]
pub struct Directive {
    pub verb: Verb,
    pub args: Vec<String>,
}

/// What a directive says.
pub struct Line {
    pub verb: Verb,
    pub args: Seq<Seq<char>>,
}

impl View for Directive {
    type V = Line;

    open spec fn view(&self) -> Line {
        Line { verb: self.verb, args: texts(self.args@) }
    }
}

// What each directive says: the verb, and the arguments in their order.

pub open spec fn privmsg(target: Seq<char>, text: Seq<char>) -> Line {
    Line { verb: Verb::Privmsg, args: seq![target, text] }
}

pub open spec fn notice(target: Seq<char>, text: Seq<char>) -> Line {
    Line { verb: Verb::Notice, args: seq![target, text] }
}

pub open spec fn samode(target: Seq<char>, modes: Seq<char>, user: Seq<char>) -> Line {
    Line { verb: Verb::Samode, args: seq![target, modes, user] }
}

pub open spec fn kick(channel: Seq<char>, user: Seq<char>, reason: Seq<char>) -> Line {
    Line { verb: Verb::Kick, args: seq![channel, user, reason] }
}

pub open spec fn topic(channel: Seq<char>, text: Seq<char>) -> Line {
    Line { verb: Verb::Topic, args: seq![channel, text] }
}

pub open spec fn join(channels: Seq<char>) -> Line {
    Line { verb: Verb::Join, args: seq![channels] }
}

pub open spec fn kill(user: Seq<char>, reason: Seq<char>) -> Line {
    Line { verb: Verb::Kill, args: seq![user, reason] }
}

pub open spec fn sanick(from: Seq<char>, to: Seq<char>) -> Line {
    Line { verb: Verb::Sanick, args: seq![from, to] }
}

pub open spec fn oper(name: Seq<char>, password: Seq<char>) -> Line {
    Line { verb: Verb::Oper, args: seq![name, password] }
}

pub open spec fn identify() -> Line {
    Line { verb: Verb::Identify, args: Seq::empty() }
}

fn one(a: &str) -> (v: Vec<String>)
    ensures
        texts(v@) == seq![a@],
{
    let mut v: Vec<String> = Vec::new();
    v.push(a.to_owned());
    v
}

fn two(a: &str, b: &str) -> (v: Vec<String>)
    ensures
        texts(v@) == seq![a@, b@],
{
    let mut v: Vec<String> = Vec::new();
    v.push(a.to_owned());
    v.push(b.to_owned());
    v
}

fn three(a: &str, b: &str, c: &str) -> (v: Vec<String>)
    ensures
        texts(v@) == seq![a@, b@, c@],
{
    let mut v: Vec<String> = Vec::new();
    v.push(a.to_owned());
    v.push(b.to_owned());
    v.push(c.to_owned());
    v
}

// One constructor for each verb.
impl Directive {
    pub fn privmsg(target: &str, text: &str) -> (d: Directive)
        ensures
            d@ == privmsg(target@, text@),
    {
        Directive { verb: Verb::Privmsg, args: two(target, text) }
    }

    pub fn notice(target: &str, text: &str) -> (d: Directive)
        ensures
            d@ == notice(target@, text@),
    {
        Directive { verb: Verb::Notice, args: two(target, text) }
    }

    pub fn samode(target: &str, modes: &str, user: &str) -> (d: Directive)
        ensures
            d@ == samode(target@, modes@, user@),
    {
        Directive { verb: Verb::Samode, args: three(target, modes, user) }
    }

    pub fn kick(channel: &str, user: &str, reason: &str) -> (d: Directive)
        ensures
            d@ == kick(channel@, user@, reason@),
    {
        Directive { verb: Verb::Kick, args: three(channel, user, reason) }
    }

    pub fn topic(channel: &str, text: &str) -> (d: Directive)
        ensures
            d@ == topic(channel@, text@),
    {
        Directive { verb: Verb::Topic, args: two(channel, text) }
    }

    pub fn join(channels: &str) -> (d: Directive)
        ensures
            d@ == join(channels@),
    {
        Directive { verb: Verb::Join, args: one(channels) }
    }

    pub fn kill(user: &str, reason: &str) -> (d: Directive)
        ensures
            d@ == kill(user@, reason@),
    {
        Directive { verb: Verb::Kill, args: two(user, reason) }
    }

    pub fn sanick(from: &str, to: &str) -> (d: Directive)
        ensures
            d@ == sanick(from@, to@),
    {
        Directive { verb: Verb::Sanick, args: two(from, to) }
    }

    pub fn oper(name: &str, password: &str) -> (d: Directive)
        ensures
            d@ == oper(name@, password@),
    {
        Directive { verb: Verb::Oper, args: two(name, password) }
    }

    pub fn identify() -> (d: Directive)
        ensures
            d@ == identify(),
    {
        let d = Directive { verb: Verb::Identify, args: Vec::new() };
        assert(d@.args =~= Seq::empty());
        d
    }
}

/// What a list of directives says, one line each.
pub open spec fn lines(v: Seq<Directive>) -> Seq<Line> {
    Seq::new(v.len(), |i: int| v[i]@)
}

/// Adds a directive to a list.
pub(crate) fn push_line(out: &mut Vec<Directive>, d: Directive)
    ensures
        lines(final(out)@) == lines(old(out)@).push(d@),
{
    out.push(d);
}

/// A list of one directive.
pub(crate) fn one_line(d: Directive) -> (out: Vec<Directive>)
    ensures
        lines(out@) == seq![d@],
{
    let mut out: Vec<Directive> = Vec::new();
    out.push(d);
    out
}

/// A list of no directives.
pub(crate) fn no_lines() -> (out: Vec<Directive>)
    ensures
        lines(out@) == Seq::<Line>::empty(),
{
    let out: Vec<Directive> = Vec::new();
    out
}

/// A record to write out.
#[derive(Debug, PartialEq, Eq)]
pub enum Record {
    Channel(Channel),
    User(User),
    Derps(DerpCounter),
}

/// What a record holds.
pub enum RecordView {
    Channel(ChannelView),
    User(UserView),
    Derps(nat),
}

impl View for Record {
    type V = RecordView;

    open spec fn view(&self) -> RecordView {
        match self {
            Record::Channel(c) => RecordView::Channel(c@),
            Record::User(u) => RecordView::User(u@),
            Record::Derps(d) => RecordView::Derps(d.value()),
        }
    }
}

/// One step for whoever carries out what a handler decided. The steps of a
/// list are taken in order.
#[derive(Debug, PartialEq, Eq)]
pub enum Action {
    /// Send the directive.
    Send(Directive),
    /// Write the record out. If that fails, stop with the failure: none of
    /// the later steps is taken.
    Save(Record),
    /// Write the record out. If that fails, send the directive and take none
    /// of the later steps. The handler has noted the record, and who is
    /// identified for it, as if it were written; where writing fails, that
    /// is to be taken back.
    SaveOr(Record, Directive),
}

/// What an action says.
pub enum Step {
    Send(Line),
    Save(RecordView),
    SaveOr(RecordView, Line),
}

impl View for Action {
    type V = Step;

    open spec fn view(&self) -> Step {
        match self {
            Action::Send(d) => Step::Send(d@),
            Action::Save(r) => Step::Save(r@),
            Action::SaveOr(r, d) => Step::SaveOr(r@, d@),
        }
    }
}

// What each action says.

pub open spec fn send(line: Line) -> Step {
    Step::Send(line)
}

pub open spec fn save_channel(c: ChannelView) -> Step {
    Step::Save(RecordView::Channel(c))
}

pub open spec fn save_channel_or(c: ChannelView, otherwise: Line) -> Step {
    Step::SaveOr(RecordView::Channel(c), otherwise)
}

pub open spec fn save_user(u: UserView) -> Step {
    Step::Save(RecordView::User(u))
}

pub open spec fn save_user_or(u: UserView, otherwise: Line) -> Step {
    Step::SaveOr(RecordView::User(u), otherwise)
}

pub open spec fn save_derps_or(n: nat, otherwise: Line) -> Step {
    Step::SaveOr(RecordView::Derps(n), otherwise)
}

// One constructor for each kind of action.
impl Action {
    pub fn send(d: Directive) -> (a: Action)
        ensures
            a@ == send(d@),
    {
        Action::Send(d)
    }

    pub fn save_channel(c: Channel) -> (a: Action)
        ensures
            a@ == save_channel(c@),
    {
        Action::Save(Record::Channel(c))
    }

    pub fn save_channel_or(c: Channel, otherwise: Directive) -> (a: Action)
        ensures
            a@ == save_channel_or(c@, otherwise@),
    {
        Action::SaveOr(Record::Channel(c), otherwise)
    }

    pub fn save_user(u: User) -> (a: Action)
        ensures
            a@ == save_user(u@),
    {
        Action::Save(Record::User(u))
    }

    pub fn save_user_or(u: User, otherwise: Directive) -> (a: Action)
        ensures
            a@ == save_user_or(u@, otherwise@),
    {
        Action::SaveOr(Record::User(u), otherwise)
    }

    pub fn save_derps_or(d: DerpCounter, otherwise: Directive) -> (a: Action)
        ensures
            a@ == save_derps_or(d.value(), otherwise@),
    {
        Action::SaveOr(Record::Derps(d), otherwise)
    }
}

/// What a list of actions says, one step each.
pub open spec fn steps(v: Seq<Action>) -> Seq<Step> {
    Seq::new(v.len(), |i: int| v[i]@)
}

/// Adds an action to a list.
pub(crate) fn push_step(out: &mut Vec<Action>, a: Action)
    ensures
        steps(final(out)@) == steps(old(out)@).push(a@),
{
    out.push(a);
}

/// Adds the actions of `more` to a list.
pub(crate) fn push_steps(out: &mut Vec<Action>, more: Vec<Action>)
    ensures
        steps(final(out)@) == steps(old(out)@) + steps(more@),
{
    let mut more = more;
    out.append(&mut more);
}

/// A list of no actions.
pub(crate) fn no_steps() -> (out: Vec<Action>)
    ensures
        steps(out@) == Seq::<Step>::empty(),
{
    let out: Vec<Action> = Vec::new();
    out
}

/// The one action of sending a directive.
pub(crate) fn one_step(d: Directive) -> (out: Vec<Action>)
    ensures
        steps(out@) == seq![send(d@)],
{
    let mut out: Vec<Action> = Vec::new();
    out.push(Action::send(d));
    out
}

/// The empty text has no characters.
pub(crate) proof fn empty_text()
    ensures
        ""@ == Seq::<char>::empty(),
{
    reveal_strlit("");
}

/// The steps that send the given lines, in order.
pub open spec fn sends(ls: Seq<Line>) -> Seq<Step> {
    Seq::new(ls.len(), |i: int| Step::Send(ls[i]))
}

/// Turns directives into the actions that send them.
pub fn to_actions(ds: Vec<Directive>) -> (r: Vec<Action>)
    ensures
        steps(r@) == sends(lines(ds@)),
{
    let ghost all = lines(ds@);
    let mut ds = ds;
    let mut r: Vec<Action> = Vec::new();
    while ds.len() > 0
        invariant
            lines(ds@).len() + r.len() == all.len(),
            forall|j: int| 0 <= j < r.len() ==> r[j]@ == Step::Send(all[all.len() - 1 - j]),
            forall|j: int| 0 <= j < ds.len() ==> ds[j]@ == all[j],
        decreases ds.len(),
    {
        let d = ds.pop().unwrap();
        r.push(Action::Send(d));
    }
    let mut out: Vec<Action> = Vec::new();
    let ghost n = r.len();
    while r.len() > 0
        invariant
            n == all.len(),
            out.len() + r.len() == n,
            forall|j: int| 0 <= j < r.len() ==> r[j]@ == Step::Send(all[n - 1 - j]),
            forall|j: int| 0 <= j < out.len() ==> out[j]@ == Step::Send(all[j]),
        decreases r.len(),
    {
        let a = r.pop().unwrap();
        out.push(a);
    }
    out
}

} // verus!
