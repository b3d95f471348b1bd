use irc_services::data::resistance::Resistance;
use irc_services::wire::{Directive, Verb};

fn names(n: usize) -> Vec<String> {
    (0..n).map(|i| format!("p{}", i)).collect()
}

fn privmsg(target: &str, text: &str) -> Directive {
    Directive { verb: Verb::Privmsg, args: vec![target.to_owned(), text.to_owned()] }
}

fn texts_to(out: &Vec<Directive>, target: &str) -> Vec<String> {
    out.iter()
        .filter(|d| d.verb == Verb::Privmsg && d.args[0] == target)
        .map(|d| d.args[1].clone())
        .collect()
}

fn lobby(n: usize) -> Resistance {
    let players = names(n);
    let mut game = Resistance::new_game(&players[0], "#game");
    for p in players.iter().skip(1) {
        assert_eq!(
            game.add_player(p),
            vec![privmsg(p, "You've joined the game. You'll get your position when it starts.")]
        );
    }
    game
}

fn started(n: usize) -> Resistance {
    let mut game = lobby(n);
    game.start_shuffled(names(n));
    game
}

fn leader_of(game: &Resistance, n: usize) -> String {
    names(n).into_iter().find(|p| game.is_leader(p)).unwrap()
}

/// Proposes the first players for the coming mission and has everyone
/// accept them.
fn send_out(game: &mut Resistance, n: usize) -> Vec<String> {
    let size = game.get_number_for_next_mission();
    let team: Vec<String> = names(n).into_iter().take(size).collect();
    let leader = leader_of(game, n);
    let out = game.propose_mission(&leader, &team.join(" "));
    assert_eq!(out, vec![privmsg("#game", &format!("Proposed mission: {:?}", team))]);
    for (i, p) in names(n).iter().enumerate() {
        assert!(!game.is_complete());
        let out = game.cast_proposal_vote_shuffled(p, "yea", names(n));
        if i + 1 < n {
            assert_eq!(out, vec![privmsg("#game", "A vote has been cast.")]);
        } else {
            assert_eq!(
                out,
                vec![
                    privmsg("#game", "A vote has been cast."),
                    privmsg("#game", "The mission is now live!")
                ]
            );
        }
    }
    team
}

/// Runs the coming mission with the given number of saboteurs and answers
/// with what the last vote sent.
fn run(game: &mut Resistance, n: usize, saboteurs: usize) -> Vec<Directive> {
    let team = send_out(game, n);
    let mut last = Vec::new();
    for (i, p) in team.iter().enumerate() {
        assert!(!game.is_complete());
        let vote = if i < saboteurs { "nay" } else { "yea" };
        last = game.cast_mission_vote_shuffled(p, vote, names(n));
        assert_eq!(last[0], privmsg(p, "Your vote has been cast."));
        if i + 1 < team.len() {
            assert_eq!(last.len(), 1);
        }
    }
    last
}

#[test]
fn five_players_start_with_two_spies() {
    let mut game = lobby(5);
    let out = game.start();
    let spy = "You're a spy in #game.".to_owned();
    let rebel = "You're a rebel in #game.".to_owned();
    let mut spies = Vec::new();
    let mut rebels = Vec::new();
    for p in names(5) {
        let told = texts_to(&out, &p);
        if told.contains(&spy) {
            spies.push(p.clone());
        }
        if told.contains(&rebel) {
            rebels.push(p.clone());
        }
    }
    assert_eq!(spies.len(), 2);
    assert_eq!(rebels.len(), 3);
    assert!(spies.iter().all(|s| !rebels.contains(s)));
    for s in &spies {
        let told = texts_to(&out, s);
        assert_eq!(told.len(), 2);
        assert!(told[1].starts_with("Spies: ["));
        for other in &spies {
            assert!(told[1].contains(&format!("{:?}", other)));
        }
    }
    for r in &rebels {
        assert_eq!(texts_to(&out, r), vec![rebel.clone()]);
    }
    assert_eq!(
        texts_to(&out, "#game"),
        vec![
            "The game has begun!".to_owned(),
            "The first mission requires 2 participants.".to_owned()
        ]
    );
    assert_eq!(out.len(), 5 + 2 + 2);
    assert_eq!(game.get_number_for_next_mission(), 2);
}

#[test]
fn spies_are_four_tenths_rounded() {
    let expected = [(5, 2), (6, 2), (7, 3), (8, 3), (9, 4), (10, 4)];
    for (n, spies) in expected {
        let mut game = lobby(n);
        let out = game.start_shuffled(names(n));
        let order = names(n);
        for (i, p) in order.iter().enumerate() {
            let role = if i < spies { "You're a spy in #game." } else { "You're a rebel in #game." };
            assert_eq!(out[i], privmsg(p, role));
        }
        let roster = format!("Spies: {:?}", &order[..spies]);
        for i in 0..spies {
            assert_eq!(out[n + i], privmsg(&order[i], &roster));
        }
        assert_eq!(out.len(), n + spies + 2);
    }
}

#[test]
fn start_needs_five_players_and_happens_once() {
    let mut game = lobby(4);
    assert_eq!(game.start(), vec![privmsg("#game", "You need at least five players to play.")]);
    game.add_player("late");
    assert_eq!(game.start().len(), 5 + 2 + 2);
    assert_eq!(game.start(), vec![privmsg("#game", "The game has already begun!")]);
    assert_eq!(
        game.add_player("later"),
        vec![privmsg("#game", "Sorry, the game is already in progress!")]
    );
}

#[test]
fn joining_twice_changes_nothing() {
    let mut game = Resistance::new_game("p0", "#game");
    game.add_player("p1");
    let before = game.list_players();
    assert_eq!(
        game.add_player("p1"),
        vec![privmsg("#game", "You've already joined this game!")]
    );
    assert_eq!(game.list_players(), before);
    assert_eq!(
        game.add_player("p0"),
        vec![privmsg("#game", "You've already joined this game!")]
    );
    assert_eq!(game.list_players(), vec![privmsg("#game", "Players: [\"p0\", \"p1\"]")]);
}

#[test]
fn game_is_full_at_ten() {
    let mut game = lobby(10);
    assert_eq!(game.add_player("p10"), vec![privmsg("#game", "Sorry, the game is full!")]);
    assert_eq!(game.list_players(), vec![privmsg("#game", &format!("Players: {:?}", names(10)))]);
}

#[test]
fn mission_sizes_follow_the_table() {
    let table = [
        (5, [2, 3, 2, 3, 3]),
        (6, [2, 3, 4, 3, 4]),
        (7, [2, 3, 3, 4, 4]),
        (8, [3, 4, 4, 5, 5]),
        (9, [3, 4, 4, 5, 5]),
        (10, [3, 4, 4, 5, 5]),
    ];
    for (n, row) in table {
        let mut game = started(n);
        for (mission, size) in row.iter().enumerate() {
            assert_eq!(game.get_number_for_next_mission(), *size);
            let leader = leader_of(&game, n);
            for wrong in [size - 1, size + 1] {
                let team: Vec<String> = names(n).into_iter().take(wrong).collect();
                assert_eq!(
                    game.propose_mission(&leader, &team.join(" ")),
                    vec![privmsg(
                        "#game",
                        &format!("Mission {} should have {} members.", mission + 1, size)
                    )]
                );
            }
            if mission < 4 {
                run(&mut game, n, mission % 2);
            }
        }
    }
}

#[test]
fn one_saboteur_is_tolerated_on_the_fifth_mission_of_eight() {
    let mut game = started(8);
    for mission in 0..4 {
        run(&mut game, 8, mission % 2);
    }
    assert!(!game.is_complete());
    let last = run(&mut game, 8, 1);
    let leader = leader_of(&game, 8);
    assert_eq!(
        last[1],
        privmsg(
            "#game",
            &format!(
                "The mission was a success (S: 3 / 5). The new leader is {}. \
                 The next mission requires 0 participants.",
                leader
            )
        )
    );
    assert_eq!(last[2], privmsg("#game", "Game over: Rebels win!"));
    assert_eq!(last.len(), 3);
    assert!(game.is_complete());
}

#[test]
fn one_saboteur_fails_the_fifth_mission_of_six() {
    let mut game = started(6);
    for mission in 0..4 {
        run(&mut game, 6, mission % 2);
    }
    assert!(!game.is_complete());
    let last = run(&mut game, 6, 1);
    let leader = leader_of(&game, 6);
    assert_eq!(
        last[1],
        privmsg(
            "#game",
            &format!(
                "The mission was a failure with 1 saboteurs (S: 2 / 5). The new leader is {}. \
                 The next mission requires 0 participants.",
                leader
            )
        )
    );
    assert_eq!(last[2], privmsg("#game", "Game over: Spies win!"));
    assert_eq!(last.len(), 3);
    assert!(game.is_complete());
}

#[test]
fn two_saboteurs_fail_the_fifth_mission_of_eight() {
    let mut game = started(8);
    for mission in 0..4 {
        run(&mut game, 8, mission % 2);
    }
    let last = run(&mut game, 8, 2);
    assert!(last[1].args[1].starts_with("The mission was a failure with 2 saboteurs (S: 2 / 5)."));
    assert_eq!(last[2], privmsg("#game", "Game over: Spies win!"));
}

#[test]
fn one_saboteur_fails_an_earlier_mission_of_eight() {
    let mut game = started(8);
    let last = run(&mut game, 8, 1);
    assert_eq!(
        last[1],
        privmsg(
            "#game",
            "The mission was a failure with 1 saboteurs (S: 0 / 1). The new leader is p1. \
             The next mission requires 4 participants."
        )
    );
    assert_eq!(last.len(), 2);
    assert!(!game.is_complete());
}

#[test]
fn three_wins_end_the_game_for_the_rebels() {
    let mut game = started(5);
    assert!(!game.is_complete());
    run(&mut game, 5, 0);
    assert!(!game.is_complete());
    run(&mut game, 5, 0);
    assert!(!game.is_complete());
    let last = run(&mut game, 5, 0);
    assert!(game.is_complete());
    assert_eq!(
        last[1],
        privmsg(
            "#game",
            "The mission was a success (S: 3 / 3). The new leader is p1. \
             The next mission requires 3 participants."
        )
    );
    assert_eq!(last[2], privmsg("#game", "Game over: Rebels win!"));
}

#[test]
fn three_losses_end_the_game_for_the_spies() {
    let mut game = started(5);
    run(&mut game, 5, 1);
    run(&mut game, 5, 1);
    assert!(!game.is_complete());
    let last = run(&mut game, 5, 2);
    assert!(game.is_complete());
    assert!(last[1].args[1].starts_with("The mission was a failure with 2 saboteurs (S: 0 / 3)."));
    assert_eq!(last[2], privmsg("#game", "Game over: Spies win!"));
}

#[test]
fn five_rejected_proposals_end_the_game() {
    let n = 5;
    let mut game = started(n);
    for round in 1..=5 {
        assert!(!game.is_complete());
        let leader = leader_of(&game, n);
        game.propose_mission(&leader, "p0 p1");
        let mut last = Vec::new();
        for (i, p) in names(n).iter().enumerate() {
            let vote = if i < 2 { "Yes" } else { "no" };
            last = game.cast_proposal_vote_shuffled(p, vote, names(n));
        }
        let leader = leader_of(&game, n);
        let mut expected = vec![
            privmsg("#game", "A vote has been cast."),
            privmsg(
                "#game",
                &format!("The proposal was rejected ({} / 5). The new leader is {}.", round, leader),
            ),
        ];
        if round == 5 {
            expected.push(privmsg("#game", "Game over: Spies win!"));
        }
        assert_eq!(last, expected);
        assert_eq!(game.is_complete(), round == 5);
    }
    assert!(game.is_complete());
}

#[test]
fn a_tie_rejects_the_proposal_and_acceptance_resets_the_count() {
    let n = 6;
    let mut game = started(n);
    game.propose_mission("p0", "p0 p1");
    let mut last = Vec::new();
    for (i, p) in names(n).iter().enumerate() {
        last = game.cast_proposal_vote_shuffled(p, if i < 3 { "y" } else { "n" }, names(n));
    }
    assert_eq!(
        last[1],
        privmsg("#game", "The proposal was rejected (1 / 5). The new leader is p1.")
    );
    run(&mut game, n, 0);
    let leader = leader_of(&game, n);
    let size = game.get_number_for_next_mission();
    let team: Vec<String> = names(n).into_iter().take(size).collect();
    game.propose_mission(&leader, &team.join(" "));
    for p in names(n) {
        last = game.cast_proposal_vote_shuffled(&p, "nay", names(n));
    }
    let leader = leader_of(&game, n);
    assert_eq!(
        last[1],
        privmsg(
            "#game",
            &format!("The proposal was rejected (1 / 5). The new leader is {}.", leader)
        )
    );
}

#[test]
fn only_the_leader_proposes_and_only_players_are_proposed() {
    let mut game = lobby(5);
    assert_eq!(game.propose_mission("p0", "p0 p1"), Vec::new());
    game.start_shuffled(names(5));
    assert_eq!(game.propose_mission("p1", "p0 p1"), Vec::new());
    assert_eq!(
        game.propose_mission("p0", "p0 stranger"),
        vec![privmsg("#game", "Proposals must only include registered players.")]
    );
    assert_eq!(
        game.propose_mission("p0", "stranger"),
        vec![
            privmsg("#game", "Mission 1 should have 2 members."),
            privmsg("#game", "Proposals must only include registered players.")
        ]
    );
    assert_eq!(
        game.propose_mission("p0", "  p0   p1 "),
        vec![privmsg("#game", "Proposed mission: [\"p0\", \"p1\"]")]
    );
    assert_eq!(game.propose_mission("p0", "p0 p1"), Vec::new());
}

#[test]
fn votes_need_a_player_a_proposal_and_a_token() {
    let mut game = started(5);
    assert_eq!(
        game.cast_proposal_vote("stranger", "yea"),
        vec![privmsg("stranger", "You're not involved in this game.")]
    );
    assert_eq!(
        game.cast_proposal_vote("p0", "yea"),
        vec![privmsg("p0", "There is no current mission proposal.")]
    );
    assert_eq!(
        game.cast_mission_vote("stranger", "yea"),
        vec![privmsg("stranger", "You're not involved in this game.")]
    );
    assert_eq!(
        game.cast_mission_vote("p0", "yea"),
        vec![privmsg("p0", "There is no mission in progress.")]
    );
    game.propose_mission("p0", "p0 p1");
    assert_eq!(
        game.cast_proposal_vote("p0", "maybe"),
        vec![privmsg("#game", "You must vote yea or nay.")]
    );
    assert_eq!(
        game.cast_proposal_vote("p0", ""),
        vec![privmsg("#game", "You must vote yea or nay.")]
    );
    for p in names(5) {
        game.cast_proposal_vote(&p, "Yea");
    }
    assert_eq!(
        game.cast_mission_vote("p4", "yea"),
        vec![privmsg("p4", "You're not involved in this mission.")]
    );
    assert_eq!(
        game.cast_mission_vote("p0", "what"),
        vec![privmsg("p0", "You must vote yea or nay.")]
    );
    assert_eq!(
        game.cast_mission_vote("p0", "Nope"),
        vec![privmsg("p0", "Your vote has been cast.")]
    );
}

#[test]
fn shuffling_keeps_the_players_and_moves_them() {
    let game = lobby(10);
    let mut moved = false;
    for _ in 0..20 {
        let order = game.shuffled();
        let mut sorted = order.clone();
        sorted.sort();
        let mut expected = names(10);
        expected.sort();
        assert_eq!(sorted, expected);
        if order != names(10) {
            moved = true;
        }
    }
    assert!(moved);
}

#[test]
fn a_new_leader_is_another_player() {
    let n = 5;
    let mut game = started(n);
    for _ in 0..4 {
        let before = leader_of(&game, n);
        game.propose_mission(&before, "p0 p1");
        for p in names(n) {
            game.cast_proposal_vote(&p, "nay");
        }
        let after = leader_of(&game, n);
        assert!(after != before);
    }
}

#[test]
fn new_game_has_its_initiator_as_leader() {
    let game = Resistance::new_game("alice", "#game");
    assert!(game.is_leader("alice"));
    assert!(!game.is_leader("bob"));
    assert!(!game.is_complete());
    assert_eq!(game.list_players(), vec![privmsg("#game", "Players: [\"alice\"]")]);
}

#[test]
fn results_are_open_until_everyone_has_voted() {
    let mut game = started(8);
    assert_eq!(game.get_proposal_result(), irc_services::data::resistance::Vote::Failure);
    game.propose_mission("p0", "p0 p1 p2");
    assert_eq!(game.get_proposal_result(), irc_services::data::resistance::Vote::NotYetVoted);
    for p in names(8) {
        game.cast_proposal_vote_shuffled(&p, "yea", names(8));
    }
    assert_eq!(game.get_proposal_result(), irc_services::data::resistance::Vote::Success);
    assert_eq!(game.get_mission_result(), (irc_services::data::resistance::Vote::NotYetVoted, 0));
    game.cast_mission_vote_shuffled("p0", "nay", names(8));
    assert_eq!(game.get_mission_result(), (irc_services::data::resistance::Vote::NotYetVoted, 0));
    game.cast_mission_vote_shuffled("p1", "nay", names(8));
    assert_eq!(game.get_mission_result(), (irc_services::data::resistance::Vote::NotYetVoted, 0));
}

#[test]
fn two_players_can_change_the_leader() {
    let mut game = Resistance::new_game("p0", "#game");
    game.add_player("p1");
    game.get_new_leader(vec!["p0".to_owned(), "p1".to_owned()]);
    assert!(game.is_leader("p1"));
    game.get_new_leader(vec!["p0".to_owned(), "p1".to_owned()]);
    assert!(game.is_leader("p0"));
    game.get_new_leader(vec!["p1".to_owned(), "p0".to_owned()]);
    assert!(game.is_leader("p1"));
    assert_eq!(game.list_players(), vec![privmsg("#game", "Players: [\"p1\", \"p0\"]")]);
}
