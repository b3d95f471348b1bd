use irc::proto::{Command, Message, Mode, Response};
use irc_services::config::Config;
use irc_services::data::channel::Channel;
use irc_services::data::state::State;
use irc_services::data::store::Store;
use irc_services::data::user::User;
use irc_services::data::{hashed, HashError};
use irc_services::func::{
    do_resistance_shuffled, new_voting_booth, process, start_up, Failure, Outcome,
};
use irc_services::shared::{Shared, World};
use irc_services::wire::{Action, Directive, Record, Verb};

fn config() -> Config {
    Config {
        nickname: "test".to_owned(),
        owners: vec!["test".to_owned()],
        oper_pass: "test".to_owned(),
    }
}

/// A line of the network as the handlers take it: the command and its
/// arguments, the text last.
fn taken(message: &Message) -> Vec<(String, Vec<String>)> {
    match &message.command {
        Command::PRIVMSG(t, m) => vec![("PRIVMSG".to_owned(), vec![t.clone(), m.clone()])],
        Command::NOTICE(t, m) => vec![("NOTICE".to_owned(), vec![t.clone(), m.clone()])],
        Command::JOIN(c, _, _) => vec![("JOIN".to_owned(), vec![c.clone()])],
        Command::QUIT(m) => vec![("QUIT".to_owned(), m.iter().cloned().collect())],
        Command::TOPIC(c, t) => {
            let mut args = vec![c.clone()];
            args.extend(t.iter().cloned());
            vec![("TOPIC".to_owned(), args)]
        }
        Command::ChannelMODE(c, modes) => modes
            .iter()
            .map(|m| {
                let mut args = vec![c.clone(), m.flag()];
                match m {
                    Mode::Plus(_, arg) | Mode::Minus(_, arg) => args.extend(arg.iter().cloned()),
                    _ => {}
                }
                ("MODE".to_owned(), args)
            })
            .collect(),
        Command::Response(Response::RPL_WELCOME, args) => vec![("001".to_owned(), args.clone())],
        _ => Vec::new(),
    }
}

fn optional(text: &str) -> Option<String> {
    if text.is_empty() {
        None
    } else {
        Some(text.to_owned())
    }
}

/// What a directive puts on the wire.
fn sent(d: &Directive) -> String {
    let a = &d.args;
    let commands: Vec<Command> = match d.verb {
        Verb::Privmsg => a[1]
            .split("\r\n")
            .map(|l| Command::PRIVMSG(a[0].clone(), l.to_owned()))
            .collect(),
        Verb::Notice => a[1]
            .split("\r\n")
            .map(|l| Command::NOTICE(a[0].clone(), l.to_owned()))
            .collect(),
        Verb::Samode => vec![Command::SAMODE(a[0].clone(), a[1].clone(), optional(&a[2]))],
        Verb::Kick => vec![Command::KICK(a[0].clone(), a[1].clone(), optional(&a[2]))],
        Verb::Topic => vec![Command::TOPIC(a[0].clone(), optional(&a[1]))],
        Verb::Join => vec![Command::JOIN(a[0].clone(), None, None)],
        Verb::Kill => vec![Command::KILL(a[0].clone(), a[1].clone())],
        Verb::Sanick => vec![Command::SANICK(a[0].clone(), a[1].clone())],
        Verb::Oper => vec![Command::OPER(a[0].clone(), a[1].clone())],
        Verb::Identify => vec![
            Command::NICK("test".to_owned()),
            Command::USER("test".to_owned(), "0".to_owned(), "test".to_owned()),
        ],
    };
    commands.into_iter().map(|c| Message::from(c).to_string()).collect()
}

fn written(actions: &Vec<Action>) -> String {
    actions
        .iter()
        .map(|a| match a {
            Action::Send(d) => sent(d),
            Action::Save(_) | Action::SaveOr(_, _) => String::new(),
        })
        .collect()
}

/// Feeds the lines of `input` to the services and answers with what they
/// put on the wire.
fn run(state: &mut State, store: &mut Store, input: &str) -> String {
    let mut data = String::new();
    for line in input.split("\r\n").filter(|l| !l.is_empty()) {
        let message: Message = line.parse().unwrap();
        let source = message.source_nickname().unwrap_or("").to_owned();
        for (command, args) in taken(&message) {
            let outcome = process(state, store, &config(), &source, &command, &args);
            data.push_str(&written(&outcome.actions));
            assert_eq!(outcome.failure, None);
        }
    }
    data
}

fn test_helper<F>(input: &str, hook: F) -> (String, State, Store)
where
    F: FnOnce(&mut State, &mut Store),
{
    let mut state = State::new();
    let mut store = Store::new();
    hook(&mut state, &mut store);
    let data = run(&mut state, &mut store, input);
    (data, state, store)
}

fn save_channel(store: &mut Store, ch: &Channel) {
    assert_eq!(ch.save(store), Action::Save(Record::Channel(ch.copy())));
}

fn save_user(store: &mut Store, u: &User) {
    assert_eq!(u.save(store), Action::Save(Record::User(u.copy())));
}

#[test]
fn chanserv_register_succeeded() {
    let (data, _, store) = test_helper(
        ":test2!test@test PRIVMSG test :CS REGISTER #test4 test\r\n",
        |state, _| {
            state.identify("test2");
        },
    );
    let exp = "SAMODE #test4 +r\r\n\
               SAMODE #test4 +qa test2\r\n\
               JOIN #test4\r\n\
               SAMODE #test4 +a test\r\n\
               NOTICE test2 :Channel #test4 has been registered. \
               Don't forget the password!\r\n";
    assert_eq!(&data[..], exp);
    assert_eq!(
        Channel::load(&store, "#test4").unwrap(),
        Channel::new("#test4", "test", "test2").unwrap()
    );
}

#[test]
fn register_failed_not_identified() {
    let (data, _, _) =
        test_helper(":test!test@test PRIVMSG test :CS REGISTER #test test\r\n", |_, _| {});
    assert_eq!(&data[..], "NOTICE test :You must be identify as test to do that.\r\n");
}

#[test]
fn register_failed_channel_exists() {
    let (data, _, _) = test_helper(
        ":test!test@test PRIVMSG test :CS REGISTER #test test\r\n",
        |state, store| {
            let ch = Channel::new("#test", "test", "test").unwrap();
            save_channel(store, &ch);
            state.identify("test");
        },
    );
    assert_eq!(&data[..], "NOTICE test :Channel #test is already registered!\r\n");
}

#[test]
fn admin_succeeded() {
    let (data, _, store) = test_helper(
        ":test!test@test PRIVMSG test :CS ADMIN test2 #test5 test\r\n",
        |state, store| {
            let ch = Channel::new("#test5", "test", "test").unwrap();
            save_channel(store, &ch);
            state.identify("test");
            state.identify("test2");
        },
    );
    assert_eq!(Channel::load(&store, "#test5").unwrap().admins, vec!("test2".to_owned()));
    let exp = "SAMODE #test5 +a test2\r\n\
               NOTICE test :test2 is now an admin.\r\n";
    assert_eq!(&data[..], exp);
}

#[test]
fn admin_failed_not_identified() {
    let (data, _, _) =
        test_helper(":test!test@test PRIVMSG test :CS ADMIN test2 #test test\r\n", |_, _| {});
    assert_eq!(&data[..], "NOTICE test :You must be identify as test to do that.\r\n");
}

#[test]
fn admin_failed_target_not_identified() {
    let (data, _, _) = test_helper(
        ":test!test@test PRIVMSG test :CS ADMIN test2 #test test\r\n",
        |state, _| {
            state.identify("test");
        },
    );
    assert_eq!(&data[..], "NOTICE test :test2 must be identified to do that.\r\n");
}

#[test]
fn admin_failed_channel_unregistered() {
    let (data, _, _) = test_helper(
        ":test!test@test PRIVMSG test :CS ADMIN test2 #unregistered test\r\n",
        |state, _| {
            state.identify("test");
            state.identify("test2");
        },
    );
    assert_eq!(&data[..], "NOTICE test :Channel #unregistered is not registered!\r\n");
}

#[test]
fn admin_failed_password_incorrect() {
    let (data, _, store) = test_helper(
        ":test!test@test PRIVMSG test :CS ADMIN test2 #test12 wrong\r\n",
        |state, store| {
            let ch = Channel::new("#test12", "test", "test").unwrap();
            save_channel(store, &ch);
            state.identify("test");
            state.identify("test2");
        },
    );
    assert_eq!(&data[..], "NOTICE test :Password incorrect.\r\n");
    assert!(Channel::load(&store, "#test12").unwrap().admins.is_empty());
}

#[test]
fn oper_succeeded() {
    let (data, _, store) = test_helper(
        ":test!test@test PRIVMSG test :CS OPER test2 #test6 test\r\n",
        |state, store| {
            let ch = Channel::new("#test6", "test", "test").unwrap();
            save_channel(store, &ch);
            state.identify("test");
            state.identify("test2");
        },
    );
    assert_eq!(Channel::load(&store, "#test6").unwrap().opers, vec!("test2".to_owned()));
    let exp = "SAMODE #test6 +o test2\r\n\
               NOTICE test :test2 is now an oper.\r\n";
    assert_eq!(&data[..], exp);
}

#[test]
fn oper_failed_not_identified() {
    let (data, _, _) =
        test_helper(":test!test@test PRIVMSG test :CS OPER test2 #test test\r\n", |_, _| {});
    assert_eq!(&data[..], "NOTICE test :You must be identify as test to do that.\r\n");
}

#[test]
fn oper_failed_target_not_identified() {
    let (data, _, _) = test_helper(
        ":test!test@test PRIVMSG test :CS OPER test2 #test test\r\n",
        |state, _| {
            state.identify("test");
        },
    );
    assert_eq!(&data[..], "NOTICE test :test2 must be identified to do that.\r\n");
}

#[test]
fn oper_failed_channel_unregistered() {
    let (data, _, _) = test_helper(
        ":test!test@test PRIVMSG test :CS OPER test2 #unregistered test\r\n",
        |state, _| {
            state.identify("test");
            state.identify("test2");
        },
    );
    assert_eq!(&data[..], "NOTICE test :Channel #unregistered is not registered!\r\n");
}

#[test]
fn oper_failed_password_incorrect() {
    let (data, _, store) = test_helper(
        ":test!test@test PRIVMSG test :CS OPER test2 #test13 wrong\r\n",
        |state, store| {
            let ch = Channel::new("#test13", "test", "test").unwrap();
            save_channel(store, &ch);
            state.identify("test");
            state.identify("test2");
        },
    );
    assert_eq!(&data[..], "NOTICE test :Password incorrect.\r\n");
    assert!(Channel::load(&store, "#test13").unwrap().opers.is_empty());
}

#[test]
fn voice_succeeded() {
    let (data, _, store) = test_helper(
        ":test!test@test PRIVMSG test :CS VOICE test2 #test7 test\r\n",
        |state, store| {
            let ch = Channel::new("#test7", "test", "test").unwrap();
            save_channel(store, &ch);
            state.identify("test");
            state.identify("test2");
        },
    );
    assert_eq!(Channel::load(&store, "#test7").unwrap().voice, vec!("test2".to_owned()));
    let exp = "SAMODE #test7 +v test2\r\n\
               NOTICE test :test2 is now voiced.\r\n";
    assert_eq!(&data[..], exp);
}

#[test]
fn voice_failed_not_identified() {
    let (data, _, _) =
        test_helper(":test!test@test PRIVMSG test :CS VOICE test2 #test test\r\n", |_, _| {});
    assert_eq!(&data[..], "NOTICE test :You must be identify as test to do that.\r\n");
}

#[test]
fn voice_failed_target_not_identified() {
    let (data, _, _) = test_helper(
        ":test!test@test PRIVMSG test :CS VOICE test2 #test test\r\n",
        |state, _| {
            state.identify("test");
        },
    );
    assert_eq!(&data[..], "NOTICE test :test2 must be identified to do that.\r\n");
}

#[test]
fn voice_failed_channel_unregistered() {
    let (data, _, _) = test_helper(
        ":test!test@test PRIVMSG test :CS VOICE test2 #unregistered test\r\n",
        |state, _| {
            state.identify("test");
            state.identify("test2");
        },
    );
    assert_eq!(&data[..], "NOTICE test :Channel #unregistered is not registered!\r\n");
}

#[test]
fn voice_failed_password_incorrect() {
    let (data, _, store) = test_helper(
        ":test!test@test PRIVMSG test :CS VOICE test2 #test14 wrong\r\n",
        |state, store| {
            let ch = Channel::new("#test14", "test", "test").unwrap();
            save_channel(store, &ch);
            state.identify("test");
            state.identify("test2");
        },
    );
    assert_eq!(&data[..], "NOTICE test :Password incorrect.\r\n");
    assert!(Channel::load(&store, "#test14").unwrap().voice.is_empty());
}

#[test]
fn mode_succeeded() {
    let (data, _, store) = test_helper(
        ":test!test@test PRIVMSG test :CS MODE +i #test15 test\r\n",
        |state, store| {
            let ch = Channel::new("#test15", "test", "test").unwrap();
            save_channel(store, &ch);
            state.identify("test");
            state.identify("test2");
        },
    );
    let exp = "SAMODE #test15 +i\r\n\
               NOTICE test :Channel mode is now +i.\r\n";
    assert_eq!(&data[..], exp);
    assert_eq!(Channel::load(&store, "#test15").unwrap().mode, "+i");
}

#[test]
fn mode_failed_not_identified() {
    let (data, _, _) =
        test_helper(":test!test@test PRIVMSG test :CS MODE +i #test test\r\n", |_, _| {});
    assert_eq!(&data[..], "NOTICE test :You must be identify as test to do that.\r\n");
}

#[test]
fn mode_failed_channel_unregistered() {
    let (data, _, _) = test_helper(
        ":test!test@test PRIVMSG test :CS MODE +i #unregistered test\r\n",
        |state, _| {
            state.identify("test");
        },
    );
    assert_eq!(&data[..], "NOTICE test :Channel #unregistered is not registered!\r\n");
}

#[test]
fn mode_failed_password_incorrect() {
    let (data, _, _) = test_helper(
        ":test!test@test PRIVMSG test :CS MODE +i #test16 wrong\r\n",
        |state, store| {
            let ch = Channel::new("#test16", "test", "test").unwrap();
            save_channel(store, &ch);
            state.identify("test");
        },
    );
    assert_eq!(&data[..], "NOTICE test :Password incorrect.\r\n");
}

#[test]
fn deadmin_succeeded() {
    let (data, _, store) = test_helper(
        ":test!test@test PRIVMSG test :CS DEADMIN test2 #test17 test\r\n",
        |state, store| {
            let mut ch = Channel::new("#test17", "test", "test").unwrap();
            ch.admins.push("test2".to_owned());
            save_channel(store, &ch);
            state.identify("test");
            state.identify("test2");
        },
    );
    assert!(Channel::load(&store, "#test17").unwrap().admins.is_empty());
    let exp = "SAMODE #test17 -a test2\r\n\
               NOTICE test :test2 is no longer an admin.\r\n";
    assert_eq!(&data[..], exp);
}

#[test]
fn deadmin_failed_not_identified() {
    let (data, _, _) =
        test_helper(":test!test@test PRIVMSG test :CS DEADMIN test2 #test test\r\n", |_, _| {});
    assert_eq!(&data[..], "NOTICE test :You must be identify as test to do that.\r\n");
}

#[test]
fn deadmin_failed_target_not_identified() {
    let (data, _, _) = test_helper(
        ":test!test@test PRIVMSG test :CS DEADMIN test2 #test test\r\n",
        |state, _| {
            state.identify("test");
        },
    );
    assert_eq!(&data[..], "NOTICE test :test2 must be identified to do that.\r\n");
}

#[test]
fn deadmin_failed_channel_unregistered() {
    let (data, _, _) = test_helper(
        ":test!test@test PRIVMSG test :CS DEADMIN test2 #unregistered test\r\n",
        |state, _| {
            state.identify("test");
            state.identify("test2");
        },
    );
    assert_eq!(&data[..], "NOTICE test :Channel #unregistered is not registered!\r\n");
}

#[test]
fn deadmin_failed_incorrect_password() {
    let (data, _, store) = test_helper(
        ":test!test@test PRIVMSG test :CS DEADMIN test2 #test18 wrong\r\n",
        |state, store| {
            let mut ch = Channel::new("#test18", "test", "test").unwrap();
            ch.admins.push("test2".to_owned());
            save_channel(store, &ch);
            state.identify("test");
            state.identify("test2");
        },
    );
    assert_eq!(&data[..], "NOTICE test :Password incorrect.\r\n");
    assert_eq!(Channel::load(&store, "#test18").unwrap().admins, vec!["test2".to_owned()]);
}

#[test]
fn deoper_succeeded() {
    let (data, _, store) = test_helper(
        ":test!test@test PRIVMSG test :CS DEOPER test2 #test19 test\r\n",
        |state, store| {
            let mut ch = Channel::new("#test19", "test", "test").unwrap();
            ch.opers.push("test2".to_owned());
            save_channel(store, &ch);
            state.identify("test");
            state.identify("test2");
        },
    );
    assert!(Channel::load(&store, "#test19").unwrap().opers.is_empty());
    let exp = "SAMODE #test19 -o test2\r\n\
               NOTICE test :test2 is no longer an oper.\r\n";
    assert_eq!(&data[..], exp);
}

#[test]
fn deoper_failed_not_identified() {
    let (data, _, _) =
        test_helper(":test!test@test PRIVMSG test :CS DEOPER test2 #test test\r\n", |_, _| {});
    assert_eq!(&data[..], "NOTICE test :You must be identify as test to do that.\r\n");
}

#[test]
fn deoper_failed_target_not_identified() {
    let (data, _, _) = test_helper(
        ":test!test@test PRIVMSG test :CS DEOPER test2 #test test\r\n",
        |state, _| {
            state.identify("test");
        },
    );
    assert_eq!(&data[..], "NOTICE test :test2 must be identified to do that.\r\n");
}

#[test]
fn deoper_failed_channel_unregistered() {
    let (data, _, _) = test_helper(
        ":test!test@test PRIVMSG test :CS DEOPER test2 #unregistered test\r\n",
        |state, _| {
            state.identify("test");
            state.identify("test2");
        },
    );
    assert_eq!(&data[..], "NOTICE test :Channel #unregistered is not registered!\r\n");
}

#[test]
fn deoper_failed_incorrect_password() {
    let (data, _, store) = test_helper(
        ":test!test@test PRIVMSG test :CS DEOPER test2 #test20 wrong\r\n",
        |state, store| {
            let mut ch = Channel::new("#test20", "test", "test").unwrap();
            ch.opers.push("test2".to_owned());
            save_channel(store, &ch);
            state.identify("test");
            state.identify("test2");
        },
    );
    assert_eq!(&data[..], "NOTICE test :Password incorrect.\r\n");
    assert_eq!(Channel::load(&store, "#test20").unwrap().opers, vec!["test2".to_owned()]);
}

#[test]
fn devoice_succeeded() {
    let (data, _, store) = test_helper(
        ":test!test@test PRIVMSG test :CS DEVOICE test2 #test21 test\r\n",
        |state, store| {
            let mut ch = Channel::new("#test21", "test", "test").unwrap();
            ch.voice.push("test2".to_owned());
            save_channel(store, &ch);
            state.identify("test");
            state.identify("test2");
        },
    );
    assert!(Channel::load(&store, "#test21").unwrap().voice.is_empty());
    let exp = "SAMODE #test21 -v test2\r\n\
               NOTICE test :test2 is no longer voiced.\r\n";
    assert_eq!(&data[..], exp);
}

#[test]
fn devoice_failed_not_identified() {
    let (data, _, _) =
        test_helper(":test!test@test PRIVMSG test :CS DEVOICE test2 #test test\r\n", |_, _| {});
    assert_eq!(&data[..], "NOTICE test :You must be identify as test to do that.\r\n");
}

#[test]
fn devoice_failed_target_not_identified() {
    let (data, _, _) = test_helper(
        ":test!test@test PRIVMSG test :CS DEVOICE test2 #test test\r\n",
        |state, _| {
            state.identify("test");
        },
    );
    assert_eq!(&data[..], "NOTICE test :test2 must be identified to do that.\r\n");
}

#[test]
fn devoice_failed_channel_unregistered() {
    let (data, _, _) = test_helper(
        ":test!test@test PRIVMSG test :CS DEVOICE test2 #unregistered test\r\n",
        |state, _| {
            state.identify("test");
            state.identify("test2");
        },
    );
    assert_eq!(&data[..], "NOTICE test :Channel #unregistered is not registered!\r\n");
}

#[test]
fn devoice_failed_incorrect_password() {
    let (data, _, store) = test_helper(
        ":test!test@test PRIVMSG test :CS DEVOICE test2 #test22 wrong\r\n",
        |state, store| {
            let mut ch = Channel::new("#test22", "test", "test").unwrap();
            ch.voice.push("test2".to_owned());
            save_channel(store, &ch);
            state.identify("test");
            state.identify("test2");
        },
    );
    assert_eq!(&data[..], "NOTICE test :Password incorrect.\r\n");
    assert_eq!(Channel::load(&store, "#test22").unwrap().voice, vec!["test2".to_owned()]);
}

#[test]
fn chown_succeeded() {
    let (data, _, store) = test_helper(
        ":test!test@test PRIVMSG test :CS CHOWN test2 #test24 test\r\n",
        |state, store| {
            let ch = Channel::new("#test24", "test", "test").unwrap();
            save_channel(store, &ch);
            state.identify("test");
            state.identify("test2");
        },
    );
    assert_eq!(&Channel::load(&store, "#test24").unwrap().owner[..], "test2");
    let exp = "SAMODE #test24 +q test2\r\n\
               NOTICE test :test2 is now the channel owner.\r\n";
    assert_eq!(&data[..], exp);
}

#[test]
fn chown_failed_not_identified() {
    let (data, _, _) =
        test_helper(":test!test@test PRIVMSG test :CS CHOWN test2 #test test\r\n", |_, _| {});
    assert_eq!(&data[..], "NOTICE test :You must be identify as test to do that.\r\n");
}

#[test]
fn chown_failed_target_not_identified() {
    let (data, _, _) = test_helper(
        ":test!test@test PRIVMSG test :CS CHOWN test2 #test test\r\n",
        |state, _| {
            state.identify("test");
        },
    );
    assert_eq!(&data[..], "NOTICE test :test2 must be identified to do that.\r\n");
}

#[test]
fn chown_failed_channel_unregistered() {
    let (data, _, _) = test_helper(
        ":test!test@test PRIVMSG test :CS CHOWN test2 #unregistered test\r\n",
        |state, _| {
            state.identify("test");
            state.identify("test2");
        },
    );
    assert_eq!(&data[..], "NOTICE test :Channel #unregistered is not registered!\r\n");
}

#[test]
fn chown_failed_password_incorrect() {
    let (data, _, _) = test_helper(
        ":test!test@test PRIVMSG test :CS CHOWN test2 #test25 wrong\r\n",
        |state, store| {
            let ch = Channel::new("#test25", "test", "test").unwrap();
            save_channel(store, &ch);
            state.identify("test");
            state.identify("test2");
        },
    );
    assert_eq!(&data[..], "NOTICE test :Password incorrect.\r\n");
}

#[test]
fn chown_to_pidgey_needs_no_identification() {
    let (data, _, store) = test_helper(
        ":test!test@test PRIVMSG test :CS CHOWN Pidgey #c test\r\n",
        |state, store| {
            let ch = Channel::new("#c", "test", "test").unwrap();
            save_channel(store, &ch);
            state.identify("test");
        },
    );
    assert_eq!(&data[..], "SAMODE #c +q Pidgey\r\nNOTICE test :Pidgey is now the channel owner.\r\n");
    assert_eq!(Channel::load(&store, "#c").unwrap().owner, "Pidgey");
}

#[test]
fn grant_fails_on_unreadable_record() {
    let lines = [
        ("ADMIN", "Failed to admin test2 due to an I/O issue."),
        ("OPER", "Failed to oper test2 due to an I/O issue."),
        ("VOICE", "Failed to voice test2 due to an I/O issue."),
        ("DEADMIN", "Failed to de-admin test2 due to an I/O issue."),
        ("DEOPER", "Failed to de-oper test2 due to an I/O issue."),
        ("DEVOICE", "Failed to de-voice test2 due to an I/O issue."),
        ("CHOWN", "Failed to change owner to test2 due to an I/O issue."),
    ];
    for (cmd, text) in lines {
        let (data, _, _) = test_helper(
            &format!(":test!test@test PRIVMSG test :CS {} test2 #broken test\r\n", cmd),
            |state, store| {
                store.put_unreadable_channel("#broken");
                state.identify("test");
                state.identify("test2");
            },
        );
        assert_eq!(data, format!("NOTICE test :{}\r\n", text));
    }
    let (data, _, _) = test_helper(
        ":test!test@test PRIVMSG test :CS MODE +i #broken test\r\n",
        |state, store| {
            store.put_unreadable_channel("#broken");
            state.identify("test");
        },
    );
    assert_eq!(data, "NOTICE test :Failed to set channel mode +i due to an I/O issue.\r\n");
}

#[test]
fn commands_of_the_channel_service_tell_their_usage() {
    let lines = [
        ("cs register #c", "Syntax: CS REGISTER channel password"),
        ("CS REGISTER c pw", "Channels must be prefixed with a #."),
        ("CS REGISTER  pw", "Channels must be prefixed with a #."),
        ("CS ADMIN a", "Syntax: CS ADMIN user channel password"),
        ("CS OPER a", "Syntax: CS OPER user channel password"),
        ("CS VOICE a", "Syntax: CS VOICE user channel password"),
        ("CS MODE a", "Syntax: CS MODE mode channel password"),
        ("CS DEADMIN a", "Syntax: CS DEADMIN user channel password"),
        ("CS DEOPER a", "Syntax: CS DEOPER user channel password"),
        ("CS DEVOICE a", "Syntax: CS DEVOICE user channel password"),
        ("Cs chown a b c d e", "Syntax: CS CHOWN user channel password"),
    ];
    for (line, text) in lines {
        let (data, _, _) =
            test_helper(&format!(":test!test@test PRIVMSG test :{}\r\n", line), |_, _| {});
        assert_eq!(data, format!("NOTICE test :{}\r\n", text));
    }
}

#[test]
fn commands_must_be_prefxed() {
    let (data, _, _) = test_helper(":test!test@test PRIVMSG test :IDENTIFY\r\n", |_, _| {});
    assert_eq!(&data[..], "NOTICE test :Commands must be prefixed by CS or NS.\r\n")
}

#[test]
fn non_command_message_in_channel() {
    let (data, _, _) = test_helper(":test!test@test PRIVMSG #test :Hi there!\r\n", |_, _| {});
    assert_eq!(&data[..], "");
}

#[test]
fn non_command_message_in_query() {
    let (data, _, _) = test_helper(":test!test@test PRIVMSG test :CS line\r\n", |_, _| {});
    assert_eq!(&data[..], "NOTICE test :line is not a valid command.\r\n");
}

#[test]
fn owner_on_join() {
    let (data, _, _) = test_helper(":test!test@test JOIN :#test11\r\n", |state, store| {
        let mut ch = Channel::new("#test11", "test", "test").unwrap();
        ch.admins.push("test".to_owned());
        save_channel(store, &ch);
        state.identify("test");
    });
    assert_eq!(&data[..], "SAMODE #test11 +qa test\r\n");
}

#[test]
fn admin_on_join() {
    let (data, _, _) = test_helper(":test!test@test JOIN :#test8\r\n", |state, store| {
        let mut ch = Channel::new("#test8", "test", "owner").unwrap();
        ch.admins.push("test".to_owned());
        save_channel(store, &ch);
        state.identify("test");
    });
    assert_eq!(&data[..], "SAMODE #test8 +a test\r\n");
}

#[test]
fn oper_on_join() {
    let (data, _, _) = test_helper(":test!test@test JOIN :#test9\r\n", |state, store| {
        let mut ch = Channel::new("#test9", "test", "owner").unwrap();
        ch.opers.push("test".to_owned());
        save_channel(store, &ch);
        state.identify("test");
    });
    assert_eq!(&data[..], "SAMODE #test9 +o test\r\n");
}

#[test]
fn voice_on_join() {
    let (data, _, _) = test_helper(":test!test@test JOIN :#test10\r\n", |state, store| {
        let mut ch = Channel::new("#test10", "test", "owner").unwrap();
        ch.voice.push("test".to_owned());
        save_channel(store, &ch);
        state.identify("test");
    });
    assert_eq!(&data[..], "SAMODE #test10 +v test\r\n");
}

#[test]
fn nothing_on_join_for_the_unidentified_or_the_roleless() {
    let (data, _, _) = test_helper(":test!test@test JOIN :#c\r\n", |_, store| {
        let ch = Channel::new("#c", "test", "test").unwrap();
        save_channel(store, &ch);
    });
    assert_eq!(&data[..], "");
    let (data, _, _) = test_helper(":test!test@test JOIN :#c\r\n", |state, store| {
        let ch = Channel::new("#c", "test", "owner").unwrap();
        save_channel(store, &ch);
        state.identify("test");
    });
    assert_eq!(&data[..], "");
}

#[test]
fn quitting_forgets_every_identification() {
    let (data, state, _) = test_helper(":test!test@test QUIT :Goodbye!\r\n", |state, _| {
        state.identify("test");
        state.identify("other");
        state.identify("test");
    });
    assert!(!state.is_identified("test"));
    assert!(state.is_identified("other"));
    assert_eq!(&data[..], "");
}

#[test]
fn unidentify_on_quit() {
    let (data, state, _) = test_helper(":test!test@test QUIT :Goodbye!\r\n", |state, _| {
        state.identify("test");
    });
    assert!(state.no_users_identified());
    assert_eq!(&data[..], "");
}

#[test]
fn update_topic() {
    let (data, _, store) =
        test_helper(":test!test@test TOPIC #test23 :This is a topic.\r\n", |_, store| {
            let ch = Channel::new("#test23", "test", "owner").unwrap();
            save_channel(store, &ch);
        });
    assert_eq!(&data[..], "");
    let ch = Channel::load(&store, "#test23").unwrap();
    assert_eq!(&ch.topic[..], "This is a topic.");
}

#[test]
fn mod_voicing_identified_user() {
    let (data, _, store) =
        test_helper(":test!test@test MODE #test26 +v test\r\n", |state, store| {
            let ch = Channel::new("#test26", "test", "owner").unwrap();
            save_channel(store, &ch);
            state.identify("test");
        });
    let ch = Channel::load(&store, "#test26").unwrap();
    assert_eq!(ch.voice, vec!["test".to_owned()]);
    assert_eq!(&data[..], "");
}

#[test]
fn mod_voicing_unidentified_user() {
    let (data, _, store) = test_helper(":test!test@test MODE #test27 +v test\r\n", |_, store| {
        let ch = Channel::new("#test27", "test", "owner").unwrap();
        save_channel(store, &ch);
    });
    let ch = Channel::load(&store, "#test27").unwrap();
    assert!(ch.voice.is_empty());
    assert_eq!(&data[..], "SAMODE #test27 -v test\r\n");
}

#[test]
fn voicing_user_on_unregistered_channel() {
    let (data, _, _) = test_helper(":test!test@test MODE #unregistered +v test\r\n", |_, _| {});
    assert_eq!(&data[..], "");
}

#[test]
fn mod_devoicing_user() {
    let (data, _, store) = test_helper(":test!test@test MODE #test28 -v test\r\n", |_, store| {
        let mut ch = Channel::new("#test28", "test", "owner").unwrap();
        ch.voice.push("test".to_owned());
        assert!(!ch.voice.is_empty());
        save_channel(store, &ch);
    });
    let ch = Channel::load(&store, "#test28").unwrap();
    assert!(ch.voice.is_empty());
    assert_eq!(&data[..], "");
}

#[test]
fn devoicing_user_on_unregistered_channel() {
    let (data, _, _) = test_helper(":test!test@test MODE #unregistered -v test\r\n", |_, _| {});
    assert_eq!(&data[..], "");
}

#[test]
fn upper_case() {
    assert_eq!(&irc_services::func::upper_case("identify")[..], "IDENTIFY")
}

#[test]
fn send_just_ns() {
    let (data, _, _) = test_helper(":test!test@test PRIVMSG test :NS\r\n", |_, _| {});
    let exp = "NOTICE test :Commands: REGISTER, IDENTIFY, GHOST, RECLAIM, CHPASS\r\n";
    assert_eq!(&data[..], exp);
}

#[test]
fn send_just_cs() {
    let (data, _, _) = test_helper(":test!test@test PRIVMSG test :CS\r\n", |_, _| {});
    let exp = "NOTICE test :Commands: REGISTER, ADMIN, OPER, VOICE, MODE, DEADMIN, DEOPER, \
               DEVOICE, CHOWN\r\n";
    assert_eq!(&data[..], exp);
}

#[test]
fn derp_test() {
    let mut state = State::new();
    let mut store = Store::new();
    let data = run(&mut state, &mut store, ":test!test@test PRIVMSG test :!derp\r\n");
    assert_eq!(&data[..], "PRIVMSG test :There have been 0 derps.\r\n");
    let data = run(&mut state, &mut store, ":test!test@test PRIVMSG #test :!derp++\r\n");
    assert_eq!(&data[..], "PRIVMSG #test :There has been 1 derp.\r\n");
    let data = run(&mut state, &mut store, ":test!test@test PRIVMSG #test :!derp++\r\n");
    assert_eq!(&data[..], "PRIVMSG #test :There have been 2 derps.\r\n");
}

#[test]
fn derp_counter_in_trouble() {
    let mut state = State::new();
    let mut store = Store::new();
    store.put_unreadable_derps();
    let data = run(&mut state, &mut store, ":test!test@test PRIVMSG #test :!derp\r\n");
    assert_eq!(&data[..], "PRIVMSG #test :Something went wrong with the Derp Counter.\r\n");
    let mut store = Store::new();
    let outcome = process(
        &mut state,
        &mut store,
        &config(),
        "test",
        "PRIVMSG",
        &vec!["#test".to_owned(), "!derp++".to_owned()],
    );
    assert_eq!(
        outcome.actions[0],
        Action::SaveOr(
            Record::Derps(irc_services::data::derp::DerpCounter::of(1)),
            Directive::privmsg("#test", "Something went wrong with the Derp Counter.")
        )
    );
}

#[test]
fn nickserv_register_succeeded() {
    let (data, state, store) =
        test_helper(":test4!test@test PRIVMSG test :NS REGISTER test\r\n", |_, _| {});
    assert!(state.is_identified("test4"));
    let exp = "SAMODE test4 +r\r\n\
               NOTICE test4 :Nickname test4 has been registered. \
               Don't forget your password!\r\n\
               NOTICE test4 :You're now identified.\r\n";
    assert_eq!(&data[..], exp);
    assert_eq!(User::load(&store, "test4").unwrap(), User::new("test4", "test", None).unwrap());
}

#[test]
fn register_with_email() {
    let outcome_store = test_helper(
        ":test4!test@test PRIVMSG test :NS REGISTER test me@example.org\r\n",
        |_, _| {},
    )
    .2;
    assert_eq!(
        User::load(&outcome_store, "test4").unwrap(),
        User::new("test4", "test", Some("me@example.org")).unwrap()
    );
}

#[test]
fn register_failed_user_exists() {
    let (data, state, _) =
        test_helper(":test!test@test PRIVMSG test :NS REGISTER test\r\n", |_, store| {
            let u = User::new("test", "test", None).unwrap();
            save_user(store, &u);
        });
    assert!(!state.is_identified("test"));
    assert_eq!(&data[..], "NOTICE test :Nickname test is already registered!\r\n");
}

#[test]
fn identify_succeeded() {
    let (data, state, _) =
        test_helper(":test5!test@test PRIVMSG test :NS IDENTIFY test\r\n", |_, store| {
            let u = User::new("test5", "test", None).unwrap();
            save_user(store, &u);
        });
    assert!(state.is_identified("test5"));
    let exp = "SAMODE test5 +r\r\n\
               NOTICE test5 :Password accepted - you are now recognized.\r\n";
    assert_eq!(&data[..], exp);
}

#[test]
fn identify_failed_password_incorrect() {
    let (data, state, _) =
        test_helper(":test9!test@test PRIVMSG test :NS IDENTIFY tset\r\n", |_, store| {
            let u = User::new("test9", "test", None).unwrap();
            save_user(store, &u);
        });
    assert!(!state.is_identified("test9"));
    assert_eq!(&data[..], "NOTICE test9 :Password incorrect.\r\n");
}

#[test]
fn identify_failed_nickname_unregistered() {
    let (data, state, _) =
        test_helper(":unregistered!test@test PRIVMSG test :NS IDENTIFY test\r\n", |_, _| {});
    assert!(!state.is_identified("unregistered"));
    assert_eq!(&data[..], "NOTICE unregistered :Your nick isn't registered.\r\n");
}

#[test]
fn ghost_succeeded() {
    let (data, _, _) =
        test_helper(":test!test@test PRIVMSG test :NS GHOST test6 test\r\n", |_, store| {
            let u = User::new("test6", "test", None).unwrap();
            save_user(store, &u);
        });
    let exp = "KILL test6 :Ghosted by test\r\nNOTICE test6 :User has been ghosted.\r\n";
    assert_eq!(&data[..], exp);
}

#[test]
fn ghost_failed_password_incorrect() {
    let (data, _, _) =
        test_helper(":test!test@test PRIVMSG test :NS GHOST test8 tset\r\n", |_, store| {
            let u = User::new("test8", "test", None).unwrap();
            save_user(store, &u);
        });
    assert_eq!(&data[..], "NOTICE test :Password incorrect.\r\n");
}

#[test]
fn ghost_failed_nickname_unregistered() {
    let (data, _, _) =
        test_helper(":test!test@test PRIVMSG test :NS GHOST unregistered test\r\n", |_, _| {});
    let exp = "NOTICE test :That nick isn't registered, and therefore cannot be ghosted.\r\n";
    assert_eq!(&data[..], exp);
}

#[test]
fn reclaim_succeeded() {
    let (data, state, _) =
        test_helper(":test!test@test PRIVMSG test :NS RECLAIM test11 test\r\n", |_, store| {
            let u = User::new("test11", "test", None).unwrap();
            save_user(store, &u);
        });
    assert!(state.is_identified("test11"));
    let exp = "KILL test11 :Reclaimed by test\r\n\
               SANICK test test11\r\n\
               SAMODE test11 +r\r\n\
               NOTICE test11 :Password accepted - you are now recognized.\r\n";
    assert_eq!(&data[..], exp);
}

#[test]
fn reclaim_failed_password_incorrect() {
    let (data, state, _) =
        test_helper(":test!test@test PRIVMSG test :NS RECLAIM test10 tset\r\n", |_, store| {
            let u = User::new("test10", "test", None).unwrap();
            save_user(store, &u);
        });
    assert!(!state.is_identified("test10"));
    assert_eq!(&data[..], "NOTICE test :Password incorrect.\r\n");
}

#[test]
fn reclaim_failed_nickname_unregistered() {
    let (data, state, _) =
        test_helper(":test!test@test PRIVMSG test :NS RECLAIM unregistered test\r\n", |_, _| {});
    assert!(!state.is_identified("unregistered"));
    let exp = "NOTICE test :That nick isn't registered, and therefore cannot be reclaimed.\r\n";
    assert_eq!(&data[..], exp);
}

#[test]
fn chpass_succeeded() {
    let (data, _, store) =
        test_helper(":test13!test@test PRIVMSG test :NS CHPASS test blahblah\r\n", |_, store| {
            let u = User::new("test13", "test", None).unwrap();
            save_user(store, &u);
        });
    let u = User::load(&store, "test13").unwrap();
    assert!(u.is_password("blahblah").unwrap());
    let exp = "NOTICE test13 :Your password has been changed. Don't forget it!\r\n";
    assert_eq!(&data[..], exp);
}

#[test]
fn chpass_failed_password_incorrect() {
    let (data, _, _) =
        test_helper(":test12!test@test PRIVMSG test :NS CHPASS tset blahblah\r\n", |_, store| {
            let u = User::new("test12", "test", None).unwrap();
            save_user(store, &u);
        });
    let exp = "NOTICE test12 :Password incorrect.\r\n";
    assert_eq!(&data[..], exp);
}

#[test]
fn chpass_failed_nickname_unregistered() {
    let (data, _, _) = test_helper(
        ":unregistered!test@test PRIVMSG test :NS CHPASS blah blahblah\r\n",
        |_, _| {},
    );
    let exp = "NOTICE unregistered :This nick isn't registered, and therefore doesn't have a \
               password to change.\r\n";
    assert_eq!(&data[..], exp);
}

#[test]
fn nickname_service_fails_on_unreadable_record() {
    let lines = [
        ("NS IDENTIFY pw", "Failed to identify due to an I/O issue."),
        ("NS GHOST test pw", "Failed to ghost nick due to an I/O issue."),
        ("NS RECLAIM test pw", "Failed to reclaim nick due to an I/O issue."),
        ("NS CHPASS pw new", "Failed to change password due to an I/O issue."),
    ];
    for (line, text) in lines {
        let (data, state, _) =
            test_helper(&format!(":test!test@test PRIVMSG test :{}\r\n", line), |_, store| {
                store.put_unreadable_user("test");
            });
        assert_eq!(data, format!("NOTICE test :{}\r\n", text));
        assert!(state.no_users_identified());
    }
}

#[test]
fn commands_of_the_nickname_service_tell_their_usage() {
    let lines = [
        ("NS REGISTER", "Syntax: NS REGISTER password [email]"),
        ("ns identify", "Syntax: NS IDENTIFY password"),
        ("NS GHOST a", "Syntax: NS GHOST nickname password"),
        ("NS RECLAIM a", "Syntax: NS RECLAIM nickname password"),
        ("NS CHPASS a", "Syntax: NS CHPASS old_password new_password"),
        ("NS DANCE a", "DANCE is not a valid command."),
    ];
    for (line, text) in lines {
        let (data, _, _) =
            test_helper(&format!(":test!test@test PRIVMSG test :{}\r\n", line), |_, _| {});
        assert_eq!(data, format!("NOTICE test :{}\r\n", text));
    }
}

#[test]
fn notice_from_the_server_makes_the_services_register() {
    let mut state = State::new();
    let mut store = Store::new();
    let args = vec!["*".to_owned(), "*** Looking up your hostname".to_owned()];
    let outcome = process(&mut state, &mut store, &config(), "", "NOTICE", &args);
    assert_eq!(
        outcome,
        Outcome { actions: vec![Action::Send(Directive::identify())], failure: None }
    );
    let args = vec!["*".to_owned(), "hello".to_owned()];
    let outcome = process(&mut state, &mut store, &config(), "", "NOTICE", &args);
    assert_eq!(outcome, Outcome { actions: Vec::new(), failure: None });
}

#[test]
fn start_up_joins_and_revives_the_channels() {
    let mut state = State::new();
    let mut store = Store::new();
    let mut names = Vec::new();
    for i in 0..12 {
        let name = format!("#chan{:02}", i);
        let mut ch = Channel::new(&name, "pw", "owner").unwrap();
        if i == 1 {
            ch.topic = "A topic".to_owned();
        }
        if i == 2 {
            ch.mode = "+i".to_owned();
        }
        save_channel(&mut store, &ch);
        names.push(name);
    }
    let outcome = start_up(&mut state, &store, &config());
    assert_eq!(outcome.failure, None);
    let mut exp = "OPER test test\r\n".to_owned();
    exp.push_str(&format!("JOIN {}\r\n", names[0..6].join(",")));
    exp.push_str(&format!("JOIN {}\r\n", names[6..12].join(",")));
    for (i, name) in names.iter().enumerate() {
        exp.push_str(&format!("SAMODE {} +a test\r\n", name));
        if i == 1 {
            exp.push_str(&format!("TOPIC {} :A topic\r\n", name));
        }
        if i == 2 {
            exp.push_str(&format!("SAMODE {} +i\r\n", name));
        }
    }
    assert_eq!(written(&outcome.actions), exp);
    assert_eq!(state.get_votes().len(), 12);
}

#[test]
fn start_up_without_channels_joins_nothing() {
    let mut state = State::new();
    let store = Store::new();
    let outcome = start_up(&mut state, &store, &config());
    assert_eq!(
        outcome,
        Outcome {
            actions: vec![
                Action::Send(Directive::oper("test", "test")),
                Action::Send(Directive::join(""))
            ],
            failure: None
        }
    );
}

#[test]
fn start_up_stops_at_an_unreadable_record() {
    let mut state = State::new();
    let mut store = Store::new();
    save_channel(&mut store, &Channel::new("#a", "pw", "owner").unwrap());
    store.put_unreadable_channel("#b");
    save_channel(&mut store, &Channel::new("#c", "pw", "owner").unwrap());
    let args = vec!["test".to_owned(), "Welcome".to_owned()];
    let outcome = process(&mut state, &mut store, &config(), "", "001", &args);
    assert_eq!(outcome.failure, Some(Failure::Store));
    assert_eq!(
        written(&outcome.actions),
        "OPER test test\r\nJOIN #a,#b,#c\r\nSAMODE #a +a test\r\nSAMODE #b +a test\r\n"
    );
    assert_eq!(state.get_votes().len(), 2);
}

fn channel_with_booth(state: &mut State, store: &mut Store, voice: &[&str]) {
    let mut ch = Channel::new("#c", "pw", "owner").unwrap();
    ch.voice = voice.iter().map(|v| (*v).to_owned()).collect();
    ch.opers = vec!["old".to_owned(), "foe".to_owned(), "old".to_owned()];
    save_channel(store, &ch);
    new_voting_booth("#c", state);
    for v in voice {
        state.identify(v);
    }
}

#[test]
fn change_of_owner_passes_with_one_voter() {
    let mut state = State::new();
    let mut store = Store::new();
    channel_with_booth(&mut state, &mut store, &["test"]);
    let data = run(&mut state, &mut store, ":test!t@t PRIVMSG #c :.propose chown test2\r\n");
    assert_eq!(data, "PRIVMSG #c :Proposal 0 is live.\r\n");
    let data = run(&mut state, &mut store, ":test!t@t PRIVMSG #c :.active\r\n");
    assert_eq!(data, "PRIVMSG #c :Proposal (0) to change the owner to test2 (Y: 0, N: 0).\r\nPRIVMSG #c :\r\n");
    let data = run(&mut state, &mut store, ":test!t@t PRIVMSG #c :.vote 0 yea\r\n");
    assert_eq!(
        data,
        "PRIVMSG #c :Vote issued.\r\n\
         SAMODE #c -q owner\r\n\
         SAMODE #c +q test2\r\n\
         PRIVMSG #c :Enacted proposal to change the owner to test2.\r\n"
    );
    assert_eq!(Channel::load(&store, "#c").unwrap().owner, "test2");
    let data = run(&mut state, &mut store, ":test!t@t PRIVMSG #c :.active\r\n");
    assert_eq!(data, "PRIVMSG #c None\r\n");
}

#[test]
fn proposals_are_enacted() {
    let cases = [
        (".propose oper friend", "SAMODE #c +o friend\r\nPRIVMSG #c :Enacted proposal to oper friend.\r\n"),
        (".propose deop old", "SAMODE #c -o old\r\nPRIVMSG #c :Enacted proposal to deop old.\r\n"),
        (".propose kick foe", "KICK #c foe :It was decided so.\r\nPRIVMSG #c :Enacted proposal to kick foe.\r\n"),
        (".propose topic Be kind to each other", "TOPIC #c :Be kind to each other\r\nPRIVMSG #c :Enacted proposal to change the topic to Be kind to each other.\r\n"),
        (".propose mode +m", "SAMODE #c +m\r\nPRIVMSG #c :Enacted proposal to change the channel mode to +m.\r\n"),
        (".propose oper test", "PRIVMSG #c :Votes about me cannot be enacted.\r\n"),
        (".propose deop test", "PRIVMSG #c :Votes about me cannot be enacted.\r\n"),
        (".propose kick test", "PRIVMSG #c :Votes about me cannot be enacted.\r\n"),
    ];
    for (line, exp) in cases {
        let mut state = State::new();
        let mut store = Store::new();
        channel_with_booth(&mut state, &mut store, &["voter"]);
        let data =
            run(&mut state, &mut store, &format!(":voter!t@t PRIVMSG #c :{}\r\n", line));
        assert_eq!(data, "PRIVMSG #c :Proposal 0 is live.\r\n");
        let data = run(&mut state, &mut store, ":voter!t@t PRIVMSG #c :.vote 0 yea\r\n");
        assert_eq!(data, format!("PRIVMSG #c :Vote issued.\r\n{}", exp));
        let ch = Channel::load(&store, "#c").unwrap();
        if line == ".propose oper friend" {
            assert_eq!(ch.opers, vec!["old", "foe", "old", "friend"]);
        } else if line == ".propose deop old" {
            assert_eq!(ch.opers, vec!["foe"]);
        } else {
            assert_eq!(ch.opers, vec!["old", "foe", "old"]);
        }
        assert_eq!(ch.mode, if line == ".propose mode +m" { "+m" } else { "" });
    }
}

#[test]
fn voting_takes_identification_and_voice() {
    let mut state = State::new();
    let mut store = Store::new();
    channel_with_booth(&mut state, &mut store, &["a", "b", "c", "d"]);
    state.identify("stranger");
    let data = run(&mut state, &mut store, ":nobody!t@t PRIVMSG #c :.propose kick foe\r\n");
    assert_eq!(data, "PRIVMSG #c :You must be identified to do that.\r\n");
    let data = run(&mut state, &mut store, ":stranger!t@t PRIVMSG #c :.vote 0 yea\r\n");
    assert_eq!(data, "PRIVMSG #c :You must be voiced to do that.\r\n");
    let data = run(&mut state, &mut store, ":a!t@t PRIVMSG #c :.propose ban foe\r\n");
    assert_eq!(data, "PRIVMSG #c :ban is not a valid option for a proposal.\r\n");
    let data = run(&mut state, &mut store, ":a!t@t PRIVMSG #c :.propose kick foe\r\n");
    assert_eq!(data, "PRIVMSG #c :Proposal 0 is live.\r\n");
    let data = run(&mut state, &mut store, ":a!t@t PRIVMSG #c :.vote 0 maybe\r\n");
    assert_eq!(data, "PRIVMSG #c :maybe is not a valid vote.\r\n");
    let data = run(&mut state, &mut store, ":a!t@t PRIVMSG #c :.vote 7 yea\r\n");
    assert_eq!(data, "PRIVMSG #c :7 is not a valid proposal.\r\n");
    let data = run(&mut state, &mut store, ":a!t@t PRIVMSG #c :.vote x nay\r\n");
    assert_eq!(data, "PRIVMSG #c :Vote issued.\r\n");
    let data = run(&mut state, &mut store, ":a!t@t PRIVMSG #c :.vote 0 yea\r\n");
    assert_eq!(data, "PRIVMSG #c :You've already voted in that proposal.\r\n");
    let data = run(&mut state, &mut store, ":b!t@t PRIVMSG #c :.vote 0 nay\r\n");
    assert_eq!(data, "PRIVMSG #c :Vote issued.\r\n");
    let data = run(&mut state, &mut store, ":c!t@t PRIVMSG #c :.vote 0 nay\r\n");
    assert_eq!(data, "PRIVMSG #c :Vote issued.\r\nPRIVMSG #c :Failed to pass proposal 0.\r\n");
    let data = run(&mut state, &mut store, ":d!t@t PRIVMSG #c :.vote 0 nay\r\n");
    assert_eq!(data, "PRIVMSG #c :0 is not a valid proposal.\r\n");
}

#[test]
fn nothing_is_decided_with_nobody_to_vote() {
    let mut state = State::new();
    let mut store = Store::new();
    channel_with_booth(&mut state, &mut store, &[]);
    state.democracy.item_mut(0).propose("kick", "foe");
    let data = run(&mut state, &mut store, ":nobody!t@t PRIVMSG #c : .vote 0 yea\r\n");
    assert_eq!(data, "PRIVMSG #c :Vote issued.\r\n");
    assert_eq!(
        state.get_votes().item(0).get_active_proposals(),
        vec!["Proposal (0) to kick foe (Y: 1, N: 0).".to_owned()]
    );
}

#[test]
fn a_game_is_played_over_the_wire() {
    let mut state = State::new();
    let mut store = Store::new();
    let data = run(&mut state, &mut store, ":p0!t@t PRIVMSG test :!resistance\r\n");
    assert_eq!(data, "PRIVMSG p0 :You cannot start a game in a private message.\r\n");
    let data = run(&mut state, &mut store, ":p0!t@t PRIVMSG #g :!players\r\n");
    assert_eq!(data, "PRIVMSG #g :There's no Resistance game on this channel.\r\n");
    let data = run(&mut state, &mut store, ":p0!t@t PRIVMSG #g :!resistance\r\n");
    assert_eq!(data, "PRIVMSG #g :Players may now join the game. Use `!start` to start.\r\n");
    let data = run(&mut state, &mut store, ":p0!t@t PRIVMSG #g :!resistance\r\n");
    assert_eq!(data, "");
    for i in 1..5 {
        let data = run(&mut state, &mut store, &format!(":p{}!t@t PRIVMSG #g :!join\r\n", i));
        assert_eq!(
            data,
            format!("PRIVMSG p{} :You've joined the game. You'll get your position when it starts.\r\n", i)
        );
    }
    let data = run(&mut state, &mut store, ":p1!t@t PRIVMSG #g :!join\r\n");
    assert_eq!(data, "PRIVMSG #g :You've already joined this game!\r\n");
    let data = run(&mut state, &mut store, ":p0!t@t PRIVMSG #g :!players\r\n");
    assert_eq!(data, "PRIVMSG #g :Players: [\"p0\", \"p1\", \"p2\", \"p3\", \"p4\"]\r\n");
    let data = run(&mut state, &mut store, ":p3!t@t PRIVMSG #g :!start\r\n");
    assert_eq!(data.matches("You're a spy in #g.").count(), 2);
    assert_eq!(data.matches("You're a rebel in #g.").count(), 3);
    assert_eq!(data.matches("Spies: [").count(), 2);
    assert!(data.ends_with(
        "PRIVMSG #g :The game has begun!\r\nPRIVMSG #g :The first mission requires 2 participants.\r\n"
    ));
    let data = run(&mut state, &mut store, ":p1!t@t PRIVMSG #g :!propose p0 p1\r\n");
    assert_eq!(data, "");
    let data = run(&mut state, &mut store, ":p0!t@t PRIVMSG #g :!propose p0 p1\r\n");
    assert_eq!(data, "PRIVMSG #g :Proposed mission: [\"p0\", \"p1\"]\r\n");
    for i in 0..4 {
        let data = run(&mut state, &mut store, &format!(":p{}!t@t PRIVMSG #g :!vote yea\r\n", i));
        assert_eq!(data, "PRIVMSG #g :A vote has been cast.\r\n");
    }
    let data = run(&mut state, &mut store, ":p4!t@t PRIVMSG #g :!vote nay\r\n");
    assert_eq!(data, "PRIVMSG #g :A vote has been cast.\r\nPRIVMSG #g :The mission is now live!\r\n");
    let data = run(&mut state, &mut store, ":p0!t@t PRIVMSG test :!vote #g\r\n");
    assert_eq!(data, "PRIVMSG p0 :You must vote like so: `!vote #chan <yea/nay>`.\r\n");
    let data = run(&mut state, &mut store, ":p0!t@t PRIVMSG test :!vote #other yea\r\n");
    assert_eq!(data, "PRIVMSG p0 :There's no game on that channel.\r\n");
    let data = run(&mut state, &mut store, ":p0!t@t PRIVMSG test :!vote #g yea\r\n");
    assert_eq!(data, "PRIVMSG p0 :Your vote has been cast.\r\n");
    let data = run(&mut state, &mut store, ":p1!t@t PRIVMSG test :!vote #g yea\r\n");
    assert!(data.starts_with(
        "PRIVMSG p1 :Your vote has been cast.\r\nPRIVMSG #g :The mission was a success (S: 1 / 1). The new leader is p"
    ));
    assert!(data.ends_with(". The next mission requires 3 participants.\r\n"));
    let data = run(&mut state, &mut store, ":stranger!t@t PRIVMSG #g :!drop\r\n");
    assert_eq!(data, "");
    assert_eq!(state.get_games().len(), 1);
    let data = run(&mut state, &mut store, ":test!t@t PRIVMSG #g :!drop\r\n");
    assert_eq!(data, "PRIVMSG #g :The game of Resistance has been dropped.\r\n");
    assert_eq!(state.get_games().len(), 0);
}

#[test]
fn a_finished_game_leaves_the_registry() {
    let n = 5;
    let players: Vec<String> = (0..n).map(|i| format!("p{}", i)).collect();
    let mut state = State::new();
    let say = |state: &mut State, user: &str, chan: &str, message: &str| {
        do_resistance_shuffled(state, &config(), user, message, chan, players.clone())
    };
    assert!(say(&mut state, "p0", "#g", "!resistance").0);
    for p in players.iter().skip(1) {
        assert!(say(&mut state, p, "#g", "!join").0);
    }
    assert!(say(&mut state, "p0", "#g", "!start").0);
    assert!(!say(&mut state, "p0", "#g", "hello").0);
    assert!(!say(&mut state, "p0", "#g", "!dance").0);
    for round in 1..=5 {
        let leader = players
            .iter()
            .find(|p| state.get_games().item(0).is_leader(p))
            .unwrap()
            .clone();
        assert_eq!(say(&mut state, &leader, "#g", "!propose p0 p1").1.len(), 1);
        for p in players.iter() {
            assert_eq!(state.get_games().len(), 1);
            let (handled, out) = say(&mut state, p, "#g", "!vote nay");
            assert!(handled);
            assert_eq!(out[0], Directive::privmsg("#g", "A vote has been cast."));
            if p == "p4" {
                assert!(out[1].args[1]
                    .starts_with(&format!("The proposal was rejected ({} / 5).", round)));
                if round == 5 {
                    assert_eq!(out[2], Directive::privmsg("#g", "Game over: Spies win!"));
                }
                assert_eq!(out.len(), if round == 5 { 3 } else { 2 });
            }
        }
    }
    assert_eq!(state.get_games().len(), 0);
}

#[test]
fn a_shared_world_handles_one_line_after_the_other() {
    let mut store = Store::new();
    save_user(&mut store, &User::new("test5", "test", None).unwrap());
    let shared = Shared::new(State::new(), store);
    let join = vec!["#c".to_owned()];
    let identify = vec!["test".to_owned(), "NS IDENTIFY test".to_owned()];
    let register = vec!["test".to_owned(), "CS REGISTER #c pw".to_owned()];
    let outcome = shared.process(&config(), "test5", "PRIVMSG", &register);
    assert_eq!(
        written(&outcome.actions),
        "NOTICE test5 :You must be identify as test5 to do that.\r\n"
    );
    let outcome = shared.process(&config(), "test5", "PRIVMSG", &identify);
    assert_eq!(
        written(&outcome.actions),
        "SAMODE test5 +r\r\nNOTICE test5 :Password accepted - you are now recognized.\r\n"
    );
    let outcome = shared.process(&config(), "test5", "PRIVMSG", &register);
    assert!(written(&outcome.actions).ends_with(
        "NOTICE test5 :Channel #c has been registered. Don't forget the password!\r\n"
    ));
    let outcome = shared.process(&config(), "test5", "JOIN", &join);
    assert_eq!(written(&outcome.actions), "SAMODE #c +qa test5\r\n");
}

#[test]
fn a_failed_write_is_taken_back() {
    let shared = Shared::new(State::new(), Store::new());
    let register = vec!["test".to_owned(), "NS REGISTER pw".to_owned()];
    let outcome = shared.process(&config(), "nick", "PRIVMSG", &register);
    let (record, otherwise) = match &outcome.actions[0] {
        Action::SaveOr(record, otherwise) => (record, otherwise),
        other => panic!("{:?}", other),
    };
    assert_eq!(record, &Record::User(User::new("nick", "pw", None).unwrap()));
    assert_eq!(
        otherwise,
        &Directive::notice("nick", "Failed to register nick due to an I/O issue.")
    );
    shared.write_failed(record, Store::new());
    let outcome = shared.process(&config(), "nick", "PRIVMSG", &register);
    assert!(matches!(outcome.actions[0], Action::SaveOr(_, _)));
    let mut world = World { state: State::new(), store: Store::new() };
    world.state.identify("a");
    world.state.identify("nick");
    save_user(&mut world.store, &User::new("nick", "pw", None).unwrap());
    world.write_failed(record, Store::new());
    assert_eq!(world.state.identified, vec!["a".to_owned()]);
    assert!(!User::registered(&world.store, "nick"));
    save_channel(&mut world.store, &Channel::new("#c", "pw", "a").unwrap());
    let saved = Record::Channel(Channel::new("#c", "pw", "a").unwrap());
    world.write_failed(&saved, Store::new());
    assert_eq!(world.state.identified, vec!["a".to_owned()]);
    assert!(!Channel::registered(&world.store, "#c"));
}

#[test]
fn digest_failures_are_passed_on() {
    let failed = openssl::error::ErrorStack::get();
    assert_eq!(hashed(Err(failed)), Err(HashError));
    assert_eq!(hashed(Ok(vec![0x00, 0x0f, 0xa5, 0xff])), Ok("000fa5ff".to_owned()));
    assert_eq!(Channel::from_hash("#c", Err(HashError), "owner"), Err(HashError));
    assert_eq!(User::from_hash("nick", Err(HashError), None), Err(HashError));
    let mut user = User::from_hash("nick", Ok("abc".to_owned()), Some("a@b.c")).unwrap();
    assert_eq!(user.matches_hash(Ok("abc".to_owned())), Ok(true));
    assert_eq!(user.matches_hash(Ok("abd".to_owned())), Ok(false));
    assert_eq!(user.matches_hash(Err(HashError)), Err(HashError));
    assert_eq!(user.take_hash(Err(HashError)), Err(HashError));
    assert_eq!(user.password, "abc");
    assert_eq!(user.take_hash(Ok("xyz".to_owned())), Ok(()));
    assert_eq!(user.password, "xyz");
    let channel = Channel::from_hash("#c", Ok("abc".to_owned()), "owner").unwrap();
    assert_eq!(channel.matches_hash(Ok("abc".to_owned())), Ok(true));
    assert_eq!(channel.matches_hash(Err(HashError)), Err(HashError));
}
