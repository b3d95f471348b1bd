use irc_services::data::democracy::{
    Democracy, Proposal, ProposalKind, Vote, VoteResult, VotingResult,
};
use irc_services::namemap::NameMap;
use std::collections::HashMap;

#[test]
fn democracy_new() {
    assert_eq!(
        Democracy::new(),
        Democracy { proposals: HashMap::new(), votes: NameMap::new(), last_proposal: 0 }
    );
}

#[test]
fn propose() {
    let mut dem = Democracy::new();
    assert_eq!(dem.propose("chown", "test"), Some(0));
    assert_eq!(dem.propose("oper", "test"), Some(1));
    assert_eq!(dem.propose("deop", "test"), Some(2));
    assert_eq!(dem.propose("kick", "test"), Some(3));
    assert_eq!(dem.propose("mode", "+i"), Some(4));
}

#[test]
fn vote() {
    let mut dem = Democracy::new();
    assert_eq!(dem.propose("oper", "test"), Some(0));
    assert!(!dem.has_voted(0, "test"));
    assert_eq!(dem.vote(0, "yea", "test"), VotingResult::VoteIssued);
    assert!(dem.has_voted(0, "test"));
    assert_eq!(dem.vote(1, "yea", "test"), VotingResult::NoSuchProposal);
    assert_eq!(dem.vote(0, "test", "test"), VotingResult::InvalidVote);
}

#[test]
fn get_result_of_vote() {
    let mut dem = Democracy::new();
    assert_eq!(dem.get_result_of_vote(0, 1), VoteResult::NoSuchVote);
    assert_eq!(dem.propose("oper", "test"), Some(0));
    assert_eq!(dem.get_result_of_vote(0, 1), VoteResult::VoteInProgress);
    assert_eq!(dem.vote(0, "yea", "test"), VotingResult::VoteIssued);
    assert!(match dem.get_result_of_vote(0, 1) {
        VoteResult::VotePassed(_) => true,
        _ => false,
    });
    assert_eq!(dem.propose("oper", "test"), Some(0));
    assert_eq!(dem.get_result_of_vote(0, 1), VoteResult::VoteInProgress);
    assert_eq!(dem.vote(0, "nay", "test"), VotingResult::VoteIssued);
    assert_eq!(dem.get_result_of_vote(0, 1), VoteResult::VoteFailed);
}

#[test]
fn is_full_vote() {
    let mut dem = Democracy::new();
    assert_eq!(dem.propose("chown", "test"), Some(0));
    assert_eq!(dem.propose("oper", "test"), Some(1));
    assert_eq!(dem.propose("deop", "test"), Some(2));
    assert_eq!(dem.propose("kick", "test"), Some(3));
    assert_eq!(dem.propose("mode", "+i"), Some(4));
    assert_eq!(dem.is_full_vote(0), true);
    assert_eq!(dem.is_full_vote(1), true);
    assert_eq!(dem.is_full_vote(2), true);
    assert_eq!(dem.is_full_vote(3), false);
    assert_eq!(dem.is_full_vote(4), false);
    assert_eq!(dem.is_full_vote(5), false);
}

#[test]
fn get_active_proposals() {
    let mut dem = Democracy::new();
    assert_eq!(dem.get_active_proposals(), Vec::<String>::new());
    assert_eq!(dem.propose("chown", "test"), Some(0));
    assert_eq!(dem.propose("oper", "test"), Some(1));
    let actv = dem.get_active_proposals();
    assert_eq!(actv.len(), 2);
    assert!(actv.contains(&format!("Proposal (0) to change the owner to test (Y: 0, N: 0).")));
    assert!(actv.contains(&format!("Proposal (1) to oper test (Y: 0, N: 0).")));
}

#[test]
fn single_yea_of_one_passes_change_of_owner() {
    let mut dem = Democracy::new();
    assert_eq!(dem.propose("chown", "test2"), Some(0));
    assert_eq!(dem.vote(0, "yea", "test"), VotingResult::VoteIssued);
    assert_eq!(
        dem.get_result_of_vote(0, 1),
        VoteResult::VotePassed(Proposal {
            kind: ProposalKind::ChangeOwner,
            parameter: "test2".to_owned()
        })
    );
    assert_eq!(dem.get_result_of_vote(0, 1), VoteResult::NoSuchVote);
}

fn booth_with_votes(kind: &str, yeas: usize, nays: usize) -> Democracy {
    let mut dem = Democracy::new();
    assert_eq!(dem.propose(kind, "someone"), Some(0));
    for i in 0..yeas {
        assert_eq!(dem.vote(0, "yea", &format!("yea{}", i)), VotingResult::VoteIssued);
    }
    for i in 0..nays {
        assert_eq!(dem.vote(0, "nay", &format!("nay{}", i)), VotingResult::VoteIssued);
    }
    dem
}

#[test]
fn full_vote_passes_at_six_tenths() {
    let mut dem = booth_with_votes("oper", 3, 0);
    assert!(matches!(dem.get_result_of_vote(0, 5), VoteResult::VotePassed(_)));
    let mut dem = booth_with_votes("oper", 5, 0);
    assert_eq!(dem.get_result_of_vote(0, 9), VoteResult::VoteInProgress);
    let mut dem = booth_with_votes("deop", 6, 0);
    assert!(matches!(dem.get_result_of_vote(0, 10), VoteResult::VotePassed(_)));
}

#[test]
fn full_vote_fails_at_four_tenths() {
    let mut dem = booth_with_votes("chown", 2, 1);
    assert_eq!(dem.get_result_of_vote(0, 5), VoteResult::VoteInProgress);
    let mut dem = booth_with_votes("chown", 2, 2);
    assert_eq!(dem.get_result_of_vote(0, 5), VoteResult::VoteFailed);
    assert_eq!(dem.get_result_of_vote(0, 5), VoteResult::NoSuchVote);
}

#[test]
fn partial_vote_passes_at_three_tenths() {
    let mut dem = booth_with_votes("kick", 2, 0);
    assert_eq!(dem.get_result_of_vote(0, 10), VoteResult::VoteInProgress);
    let mut dem = booth_with_votes("kick", 3, 0);
    assert!(matches!(dem.get_result_of_vote(0, 10), VoteResult::VotePassed(_)));
    let mut dem = booth_with_votes("topic", 1, 0);
    assert!(matches!(dem.get_result_of_vote(0, 3), VoteResult::VotePassed(_)));
    let mut dem = booth_with_votes("topic", 1, 0);
    assert_eq!(dem.get_result_of_vote(0, 4), VoteResult::VoteInProgress);
}

#[test]
fn partial_vote_fails_at_seven_tenths() {
    let mut dem = booth_with_votes("mode", 0, 6);
    assert_eq!(dem.get_result_of_vote(0, 10), VoteResult::VoteInProgress);
    let mut dem = booth_with_votes("mode", 0, 7);
    assert_eq!(dem.get_result_of_vote(0, 10), VoteResult::VoteFailed);
}

#[test]
fn passing_comes_before_failing() {
    let mut dem = booth_with_votes("kick", 3, 7);
    assert!(matches!(dem.get_result_of_vote(0, 10), VoteResult::VotePassed(_)));
}

#[test]
fn unknown_kind_changes_nothing() {
    let mut dem = Democracy::new();
    assert_eq!(dem.propose("ban", "test"), None);
    assert_eq!(dem, Democracy::new());
    assert_eq!(dem.get_active_proposals(), Vec::<String>::new());
    assert_eq!(dem.propose("kick", "test"), Some(0));
    for token in ["ban", "Chown", "", "kick "] {
        assert_eq!(dem.propose(token, "test"), None);
        assert_eq!(dem.last_proposal, 0);
        assert_eq!(
            dem.get_active_proposals(),
            vec!["Proposal (0) to kick test (Y: 0, N: 0).".to_owned()]
        );
    }
    assert_eq!(dem.propose("kick", "other"), Some(1));
}

#[test]
fn id_is_used_again_once_no_proposal_is_open() {
    let mut dem = Democracy::new();
    assert_eq!(dem.propose("kick", "a"), Some(0));
    assert_eq!(dem.propose("kick", "b"), Some(1));
    assert_eq!(dem.vote(0, "yea", "u"), VotingResult::VoteIssued);
    assert!(matches!(dem.get_result_of_vote(0, 1), VoteResult::VotePassed(_)));
    assert_eq!(dem.propose("kick", "c"), Some(2));
    assert_eq!(dem.vote(1, "yea", "u"), VotingResult::VoteIssued);
    assert_eq!(dem.vote(2, "yea", "u"), VotingResult::VoteIssued);
    assert!(matches!(dem.get_result_of_vote(1, 1), VoteResult::VotePassed(_)));
    assert!(matches!(dem.get_result_of_vote(2, 1), VoteResult::VotePassed(_)));
    assert_eq!(dem.propose("kick", "d"), Some(2));
}

#[test]
fn ids_start_again_after_255() {
    let mut dem = Democracy::new();
    for i in 0..=255u16 {
        assert_eq!(dem.propose("kick", "a"), Some(i as u8));
    }
    assert_eq!(dem.propose("topic", "again"), Some(0));
    assert!(dem
        .get_active_proposals()
        .contains(&"Proposal (0) to change the topic to again (Y: 0, N: 0).".to_owned()));
}

#[test]
fn only_the_first_vote_of_a_user_counts() {
    let mut dem = Democracy::new();
    assert_eq!(dem.propose("kick", "a"), Some(0));
    assert_eq!(dem.vote(0, "nay", "u"), VotingResult::VoteIssued);
    assert_eq!(dem.vote(0, "yea", "u"), VotingResult::VoteIssued);
    assert_eq!(
        dem.get_active_proposals(),
        vec!["Proposal (0) to kick a (Y: 0, N: 1).".to_owned()]
    );
}

#[test]
fn resolved_proposal_takes_its_votes_along() {
    let mut dem = Democracy::new();
    assert_eq!(dem.propose("kick", "a"), Some(0));
    assert_eq!(dem.propose("kick", "b"), Some(1));
    assert_eq!(dem.vote(0, "yea", "u"), VotingResult::VoteIssued);
    assert_eq!(dem.vote(1, "yea", "u"), VotingResult::VoteIssued);
    assert!(matches!(dem.get_result_of_vote(0, 2), VoteResult::VotePassed(_)));
    assert!(!dem.has_voted(0, "u"));
    assert!(dem.has_voted(1, "u"));
    assert_eq!(
        dem.get_active_proposals(),
        vec!["Proposal (1) to kick b (Y: 1, N: 0).".to_owned()]
    );
}

#[test]
fn vote_tokens() {
    assert_eq!(Vote::from_str("yea", 3), Some(Vote::Yea(3)));
    assert_eq!(Vote::from_str("nay", 4), Some(Vote::Nay(4)));
    assert_eq!(Vote::from_str("Yea", 3), None);
    assert_eq!(Vote::from_str("", 3), None);
    assert_eq!(Vote::Yea(7).id(), 7);
    assert_eq!(Vote::Nay(9).id(), 9);
}

#[test]
fn proposal_tokens() {
    let kinds = [
        ("chown", ProposalKind::ChangeOwner, "change the owner to x", true),
        ("oper", ProposalKind::Oper, "oper x", true),
        ("deop", ProposalKind::Deop, "deop x", true),
        ("kick", ProposalKind::Kick, "kick x", false),
        ("topic", ProposalKind::Topic, "change the topic to x", false),
        ("mode", ProposalKind::Mode, "change the channel mode to x", false),
    ];
    for (token, kind, text, full) in kinds {
        let p = Proposal::from_str(token, "x").unwrap();
        assert_eq!(p, Proposal { kind, parameter: "x".to_owned() });
        assert_eq!(p.display(), text);
        assert_eq!(p.is_full_vote(), full);
    }
    assert_eq!(Proposal::from_str("CHOWN", "x"), None);
    assert_eq!(Proposal::from_str("", "x"), None);
}
