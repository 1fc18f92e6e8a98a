use votana::cast_vote;
use votana::close_poll;
use votana::close_vote;
use votana::create_poll;
use votana::initialize;
use votana::register_candidate;
use votana::unregister_candidate;
use votana::Candidate;
use votana::Counter;
use votana::ErrorCode;
use votana::Identity;
use votana::Registrations;
use votana::Voter;
use votana::Votes;

fn ident(key: u64) -> Identity {
    Identity { key }
}

fn vacant_candidate() -> Candidate {
    Candidate {
        cid: 0,
        poll_id: 0,
        creator: ident(0),
        name: String::new(),
        votes: 0,
        has_registered: false,
    }
}

fn fresh_voter() -> Voter {
    Voter { poll_id: 0, cid: 0, has_voted: false }
}

#[test]
fn initialize_zeroes_all_counters() {
    let mut counter = Counter { total: 9, active: 9 };
    let mut registrations = Registrations { total: 9, active: 9 };
    let mut votes = Votes { total: 9, active: 9 };
    initialize(&mut counter, &mut registrations, &mut votes);
    assert_eq!(counter, Counter { total: 0, active: 0 });
    assert_eq!(registrations, Registrations { total: 0, active: 0 });
    assert_eq!(votes, Votes { total: 0, active: 0 });
}

#[test]
fn single_vote_withdraw_and_revote() {
    let mut counter = Counter { total: 0, active: 0 };
    let mut registrations = Registrations { total: 0, active: 0 };
    let mut votes = Votes { total: 0, active: 0 };
    initialize(&mut counter, &mut registrations, &mut votes);

    let creator = ident(1);
    let mut poll = create_poll(
        &mut counter,
        creator,
        50,
        "Best fruit".to_string(),
        "Pick one".to_string(),
        100,
        200,
        true,
        true,
        true,
    )
    .unwrap();
    assert_eq!(poll.id, 1);

    let mut alice = vacant_candidate();
    register_candidate(&mut poll, &mut alice, &mut registrations, ident(2), 150, 1,
        "Alice".to_string())
    .unwrap();
    assert_eq!(alice.cid, 1);
    assert!(alice.has_registered);

    let mut receipt = fresh_voter();
    cast_vote(&mut poll, &mut alice, &mut receipt, &mut votes, 150, 1, 1).unwrap();
    assert_eq!(poll.votes, 1);
    assert_eq!(alice.votes, 1);
    assert_eq!(votes.active, 1);
    assert!(receipt.has_voted);

    let again = cast_vote(&mut poll, &mut alice, &mut receipt, &mut votes, 150, 1, 1);
    assert_eq!(again, Err(ErrorCode::VoterAlreadyVoted));
    assert_eq!(poll.votes, 1);
    assert_eq!(alice.votes, 1);
    assert_eq!(votes.active, 1);
    assert_eq!(votes.total, 1);

    close_vote(&mut poll, &mut alice, &receipt, &mut votes, ident(7), 150, 1, 1).unwrap();
    assert_eq!(poll.votes, 0);
    assert_eq!(alice.votes, 0);
    assert_eq!(votes.active, 0);

    // The host reclaims the receipt cell; the same identity may now vote
    // again, for a different candidate.
    let mut bob = vacant_candidate();
    register_candidate(&mut poll, &mut bob, &mut registrations, ident(3), 150, 1,
        "Bob".to_string())
    .unwrap();
    assert_eq!(bob.cid, 2);
    let mut new_receipt = fresh_voter();
    cast_vote(&mut poll, &mut bob, &mut new_receipt, &mut votes, 150, 1, 2).unwrap();
    assert_eq!(poll.votes, 1);
    assert_eq!(bob.votes, 1);
    assert_eq!(votes.active, 1);
    assert_eq!(votes.total, 2);
}

#[test]
fn double_vote_changes_tallies_by_exactly_one() {
    let mut counter = Counter { total: 0, active: 0 };
    let mut registrations = Registrations { total: 0, active: 0 };
    let mut votes = Votes { total: 0, active: 0 };
    initialize(&mut counter, &mut registrations, &mut votes);

    let mut poll = create_poll(&mut counter, ident(1), 0, "p".to_string(), "q".to_string(),
        10, 20, true, true, true)
    .unwrap();
    let mut cand = vacant_candidate();
    register_candidate(&mut poll, &mut cand, &mut registrations, ident(1), 15, 1,
        "N".to_string())
    .unwrap();

    let mut receipt = fresh_voter();
    assert!(cast_vote(&mut poll, &mut cand, &mut receipt, &mut votes, 15, 1, 1).is_ok());
    let second = cast_vote(&mut poll, &mut cand, &mut receipt, &mut votes, 16, 1, 1);
    assert_eq!(second, Err(ErrorCode::VoterAlreadyVoted));
    assert_eq!(votes.total, 1);
    assert_eq!(votes.active, 1);
    assert_eq!(poll.votes, 1);
    assert_eq!(cand.votes, 1);
}

#[test]
fn unregister_removes_exactly_the_candidates_votes() {
    let mut counter = Counter { total: 0, active: 0 };
    let mut registrations = Registrations { total: 0, active: 0 };
    let mut votes = Votes { total: 0, active: 0 };
    initialize(&mut counter, &mut registrations, &mut votes);

    let mut poll = create_poll(&mut counter, ident(1), 0, "p".to_string(), "q".to_string(),
        10, 20, true, true, true)
    .unwrap();

    // A bystander candidate keeps the baseline tallies above zero.
    let mut other = vacant_candidate();
    register_candidate(&mut poll, &mut other, &mut registrations, ident(4), 15, 1,
        "Other".to_string())
    .unwrap();
    let mut other_receipt = fresh_voter();
    let other_cid = other.cid;
    cast_vote(&mut poll, &mut other, &mut other_receipt, &mut votes, 15, 1, other_cid).unwrap();

    let mut cand = vacant_candidate();
    register_candidate(&mut poll, &mut cand, &mut registrations, ident(5), 15, 1,
        "Target".to_string())
    .unwrap();
    let baseline_poll_votes = poll.votes;
    let baseline_active = votes.active;

    let cand_cid = cand.cid;
    for _ in 0..3 {
        let mut receipt = fresh_voter();
        cast_vote(&mut poll, &mut cand, &mut receipt, &mut votes, 15, 1, cand_cid).unwrap();
    }
    assert_eq!(cand.votes, 3);
    assert_eq!(poll.votes, baseline_poll_votes + 3);
    assert_eq!(votes.active, baseline_active + 3);

    unregister_candidate(&mut poll, &cand, &mut registrations, &mut votes, ident(5), 1)
        .unwrap();
    assert_eq!(poll.votes, baseline_poll_votes);
    assert_eq!(votes.active, baseline_active);
    assert_eq!(poll.candidates, 1);
    assert_eq!(registrations.active, 1);
    assert_eq!(registrations.total, 2);
}

#[test]
fn close_poll_gated_by_time_then_identity() {
    let mut counter = Counter { total: 0, active: 0 };
    let mut registrations = Registrations { total: 0, active: 0 };
    let mut votes = Votes { total: 0, active: 0 };
    initialize(&mut counter, &mut registrations, &mut votes);

    let creator = ident(1);
    let poll = create_poll(&mut counter, creator, 0, "p".to_string(), "q".to_string(), 10,
        20, true, true, true)
    .unwrap();

    let early = close_poll(&poll, &mut counter, &mut registrations, &mut votes, creator, 19);
    assert_eq!(early, Err(ErrorCode::PollStillActive));
    let early_stranger =
        close_poll(&poll, &mut counter, &mut registrations, &mut votes, ident(9), 19);
    assert_eq!(early_stranger, Err(ErrorCode::PollStillActive));
    let stranger = close_poll(&poll, &mut counter, &mut registrations, &mut votes, ident(9), 20);
    assert_eq!(stranger, Err(ErrorCode::Unauthorized));
    assert_eq!(counter.active, 1);

    close_poll(&poll, &mut counter, &mut registrations, &mut votes, creator, 20).unwrap();
    assert_eq!(counter, Counter { total: 1, active: 0 });
}

#[test]
fn close_poll_reconciles_global_counters() {
    let mut counter = Counter { total: 0, active: 0 };
    let mut registrations = Registrations { total: 0, active: 0 };
    let mut votes = Votes { total: 0, active: 0 };
    initialize(&mut counter, &mut registrations, &mut votes);

    let creator = ident(1);
    let mut poll = create_poll(&mut counter, creator, 0, "p".to_string(), "q".to_string(),
        10, 20, true, true, true)
    .unwrap();
    let mut cand = vacant_candidate();
    register_candidate(&mut poll, &mut cand, &mut registrations, ident(2), 15, 1,
        "A".to_string())
    .unwrap();
    let mut receipt = fresh_voter();
    cast_vote(&mut poll, &mut cand, &mut receipt, &mut votes, 15, 1, 1).unwrap();

    close_poll(&poll, &mut counter, &mut registrations, &mut votes, creator, 25).unwrap();
    assert_eq!(counter, Counter { total: 1, active: 0 });
    assert_eq!(registrations, Registrations { total: 1, active: 0 });
    assert_eq!(votes, Votes { total: 1, active: 0 });
}

#[test]
fn counters_stay_consistent_through_a_run() {
    let mut counter = Counter { total: 0, active: 0 };
    let mut registrations = Registrations { total: 0, active: 0 };
    let mut votes = Votes { total: 0, active: 0 };
    initialize(&mut counter, &mut registrations, &mut votes);
    assert!(counter.active <= counter.total);
    assert!(registrations.active <= registrations.total);
    assert!(votes.active <= votes.total);

    let creator = ident(1);
    let mut poll = create_poll(&mut counter, creator, 0, "p".to_string(), "q".to_string(),
        10, 20, true, true, true)
    .unwrap();
    assert!(counter.active <= counter.total);

    let mut cand = vacant_candidate();
    register_candidate(&mut poll, &mut cand, &mut registrations, ident(2), 15, 1,
        "A".to_string())
    .unwrap();
    assert!(registrations.active <= registrations.total);

    let mut receipt = fresh_voter();
    cast_vote(&mut poll, &mut cand, &mut receipt, &mut votes, 15, 1, 1).unwrap();
    assert!(votes.active <= votes.total);

    close_vote(&mut poll, &mut cand, &receipt, &mut votes, ident(7), 15, 1, 1).unwrap();
    assert!(votes.active <= votes.total);

    unregister_candidate(&mut poll, &cand, &mut registrations, &mut votes, ident(2), 1)
        .unwrap();
    assert!(registrations.active <= registrations.total);
    assert!(votes.active <= votes.total);

    close_poll(&poll, &mut counter, &mut registrations, &mut votes, creator, 25).unwrap();
    assert!(counter.active <= counter.total);
    assert!(registrations.active <= registrations.total);
    assert!(votes.active <= votes.total);
}
