use irc_services::data::channel::Channel;
use irc_services::data::derp::DerpCounter;
use irc_services::data::state::State;
use irc_services::data::store::{Store, StoreError};
use irc_services::data::user::User;
use irc_services::text::{decimal, parse_u8, pieces, words};
use irc_services::wire::{Action, Record};

#[test]
fn password_hash() {
    assert_eq!(
        &irc_services::data::password_hash("test").unwrap()[..],
        "ee26b0dd4af7e749aa1a8ee3c10ae9923f61\
        8980772e473f8819a5d4940e0db27ac185f8a0e1d5f84f88bc887fd67b143732c304cc5fa9ad8e6f57f50028a8\
        ff"
    );
}

#[test]
fn password_hash_of_nothing() {
    assert_eq!(
        &irc_services::data::password_hash("").unwrap()[..],
        "cf83e1357eefb8bdf1542850d66d8007d620e4050b5715dc83f4a921d36ce9ce\
         47d0d13c5d85f2b0ff8318d2877eec2f63b931bd47417a81a538327af927da3e"
    );
}

#[test]
fn channel_new() {
    assert_eq!(
        Channel::new("#test", "test", "test").unwrap(),
        Channel {
            name: "#test".to_owned(),
            password: irc_services::data::password_hash("test").unwrap(),
            owner: "test".to_owned(),
            admins: Vec::new(),
            opers: Vec::new(),
            voice: Vec::new(),
            topic: "".to_owned(),
            mode: "".to_owned(),
        }
    );
}

#[test]
fn channel_exists() {
    let mut store = Store::new();
    let ch = Channel::new("#test2", "test", "test").unwrap();
    assert!(!Channel::registered(&store, "#test2"));
    ch.save(&mut store);
    assert!(Channel::registered(&store, "#test2"));
}

#[test]
fn channel_save() {
    let mut store = Store::new();
    let ch = Channel::new("#test", "test", "test").unwrap();
    assert_eq!(ch.save(&mut store), Action::Save(Record::Channel(ch.copy())));
}

#[test]
fn channel_load() {
    let mut store = Store::new();
    let ch = Channel::new("#test3", "test", "test").unwrap();
    ch.save(&mut store);
    let ld = Channel::load(&store, "#test3");
    assert!(ld.is_ok());
    assert_eq!(ld.unwrap(), ch);
}

#[test]
fn channel_load_tells_missing_from_unreadable() {
    let mut store = Store::new();
    assert_eq!(Channel::load(&store, "#nowhere"), Err(StoreError::Missing));
    store.put_unreadable_channel("#broken");
    assert!(Channel::registered(&store, "#broken"));
    assert_eq!(Channel::load(&store, "#broken"), Err(StoreError::Unreadable));
    let ch = Channel::new("#broken", "test", "test").unwrap();
    ch.save(&mut store);
    assert_eq!(Channel::load(&store, "#broken"), Ok(ch));
    assert_eq!(store.channel_names(), vec!["#broken".to_owned()]);
}

#[test]
fn channel_is_password() {
    let ch = Channel::new("#test", "secret", "test").unwrap();
    assert_eq!(ch.is_password("secret"), Ok(true));
    assert_eq!(ch.is_password("Secret"), Ok(false));
}

#[test]
fn user_new() {
    assert_eq!(
        User::new("test", "test", None).unwrap(),
        User {
            nickname: "test".to_owned(),
            password: irc_services::data::password_hash("test").unwrap(),
            email: None,
        }
    );
    assert_eq!(
        User::new("test", "test", Some("test@test.com")).unwrap(),
        User {
            nickname: "test".to_owned(),
            password: irc_services::data::password_hash("test").unwrap(),
            email: Some("test@test.com".to_owned()),
        }
    );
}

#[test]
fn user_exists() {
    let mut store = Store::new();
    let u = User::new("test2", "test", None).unwrap();
    assert!(!User::registered(&store, "test2"));
    u.save(&mut store);
    assert!(User::registered(&store, "test2"));
}

#[test]
fn user_save() {
    let mut store = Store::new();
    let u = User::new("test", "test", None).unwrap();
    assert_eq!(u.save(&mut store), Action::Save(Record::User(u.copy())));
}

#[test]
fn user_load() {
    let mut store = Store::new();
    let u = User::new("test3", "test", None).unwrap();
    u.save(&mut store);
    let v = User::load(&store, "test3");
    assert!(v.is_ok());
    assert_eq!(v.unwrap(), u);
}

#[test]
fn user_update_password() {
    let mut u = User::new("test", "old", Some("a@b.c")).unwrap();
    assert_eq!(u.update_password("new"), Ok(()));
    assert_eq!(u.is_password("new"), Ok(true));
    assert_eq!(u.is_password("old"), Ok(false));
    assert_eq!(u, User::new("test", "new", Some("a@b.c")).unwrap());
}

#[test]
fn derp_save() {
    let mut store = Store::new();
    let derp = DerpCounter::load(&store);
    assert!(derp.is_ok());
    let mut derp = derp.unwrap();
    assert_eq!(derp.derps(), 0);
    derp.increment();
    let trouble = irc_services::wire::Directive::privmsg("x", "y");
    derp.save(&mut store, trouble);
    assert_eq!(DerpCounter::load(&store).unwrap().derps(), 1);
}

#[test]
fn derp_counter_starts_again_after_the_largest_count() {
    let mut derp = DerpCounter::of(usize::MAX - 1);
    derp.increment();
    assert_eq!(derp.derps(), usize::MAX);
    derp.increment();
    assert_eq!(derp.derps(), 0);
}

#[test]
fn derp_counter_can_be_unreadable() {
    let mut store = Store::new();
    store.put_unreadable_derps();
    assert_eq!(DerpCounter::load(&store), Err(StoreError::Unreadable));
}

#[test]
fn state_remembers_who_identified() {
    let mut state = State::new();
    assert!(state.no_users_identified());
    state.identify("a");
    state.identify("b");
    state.identify("a");
    state.identify("c");
    assert!(state.is_identified("a"));
    assert!(!state.is_identified("d"));
    state.remove("a");
    assert!(!state.is_identified("a"));
    assert!(state.is_identified("b"));
    assert!(state.is_identified("c"));
    assert_eq!(state.identified, vec!["b".to_owned(), "c".to_owned()]);
    state.remove("d");
    assert_eq!(state.identified.len(), 2);
    state.remove("a");
    assert_eq!(state.identified.len(), 2);
    state.remove("b");
    state.remove("c");
    assert!(state.no_users_identified());
    assert_eq!(state.get_games().len(), 0);
    assert_eq!(state.get_votes().len(), 0);
}

#[test]
fn voting_population() {
    let mut state = State::new();
    let mut store = Store::new();
    assert_eq!(state.get_voting_pop(&store, "#c"), 0);
    assert_eq!(state.get_online_voting_pop(&store, "#c"), 0);
    assert!(!state.is_voiced(&store, "a", "#c"));
    let mut ch = Channel::new("#c", "pw", "owner").unwrap();
    ch.voice = vec!["a".to_owned(), "b".to_owned(), "c".to_owned()];
    ch.save(&mut store);
    state.identify("b");
    state.identify("z");
    assert_eq!(state.get_voting_pop(&store, "#c"), 3);
    assert_eq!(state.get_online_voting_pop(&store, "#c"), 1);
    assert!(state.is_voiced(&store, "a", "#c"));
    assert!(!state.is_voiced(&store, "z", "#c"));
}

#[test]
fn text_is_cut_at_spaces() {
    assert_eq!(pieces(""), vec![""]);
    assert_eq!(pieces("a"), vec!["a"]);
    assert_eq!(pieces("CS  REGISTER #c "), vec!["CS", "", "REGISTER", "#c", ""]);
    assert_eq!(words("  a  bc d "), vec!["a", "bc", "d"]);
    assert_eq!(words("   "), Vec::<String>::new());
}

#[test]
fn numbers_are_written_and_read() {
    assert_eq!(decimal(0), "0");
    assert_eq!(decimal(7), "7");
    assert_eq!(decimal(10), "10");
    assert_eq!(decimal(255), "255");
    assert_eq!(decimal(1234567890), "1234567890");
    for (text, value) in [
        ("0", Some(0u8)),
        ("7", Some(7)),
        ("007", Some(7)),
        ("+12", Some(12)),
        ("255", Some(255)),
        ("256", None),
        ("99999999999999999999999999", None),
        ("", None),
        ("+", None),
        ("-1", None),
        ("1 ", None),
        ("1a", None),
        ("++1", None),
    ] {
        assert_eq!(parse_u8(text), value);
        assert_eq!(parse_u8(text), text.parse::<u8>().ok());
    }
}
