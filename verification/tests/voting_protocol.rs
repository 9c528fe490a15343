//! The commit-reveal protocol, exercised end to end against the store.

use voting::commitment::make_commitment;
use voting::errors::VotingErrorCode;
use voting::system::VotingSystem;

const VOTER: &str = "voter-1";
const NOW: i64 = 1_700_000_000;

#[test]
fn test_create_governance() {
    let mut setup = VotingSystem::new();

    let name = "superteam";

    // Success pattern
    let success_res = setup.create_governance(name);
    assert!(success_res.is_ok());

    // Fail pattern (Same name)
    let fail_res = setup.create_governance(name);
    assert!(fail_res.is_err());
}

#[test]
fn test_join() {
    let mut setup = VotingSystem::new();
    let name = "superteam1";

    let _ = setup.create_governance(name);

    // Success pattern
    let success_res = setup.join(name, VOTER);
    assert!(success_res.is_ok());

    // Fail pattern (already joined)
    let fail_res = setup.join(name, VOTER);
    assert!(fail_res.is_err());
}

#[test]
fn test_create_proposal() {
    let mut setup = VotingSystem::new();
    let name = "superteam2";
    let title = "Hello World";

    let _ = setup.create_governance(name);
    let _ = setup.join(name, VOTER);

    // Success pattern
    let success_res = setup.create_proposal(name, title);
    assert!(success_res.is_ok());

    // Fail pattern (Already proposed)
    let fail_res = setup.create_proposal(name, title);
    assert!(fail_res.is_err());
}

#[test]
fn test_start_vote() {
    let mut setup = VotingSystem::new();
    let name = "superteam3";
    let title = "Hello World1";
    let end = NOW + 24 * 60 * 60;

    let _ = setup.create_governance(name);
    let _ = setup.join(name, VOTER);
    let _ = setup.create_proposal(name, title);

    // Success pattern
    let success_res = setup.start_vote(name, title, NOW, end);
    assert!(success_res.is_ok());

    // Fail pattern (Does not exist the governance)
    let fail_res = setup.start_vote("fake name", title, NOW, end);
    assert!(fail_res.is_err());
}

#[test]
fn test_commit_vote() {
    let mut setup = VotingSystem::new();
    let name = "superteam4";
    let title = "Hello World2";
    let end = NOW + 24 * 60 * 60;
    let vote = true; // Yes
    let salt = "salt";

    let _ = setup.create_governance(name);
    let _ = setup.join(name, VOTER);
    let _ = setup.create_proposal(name, title);
    let _ = setup.start_vote(name, title, NOW, end);

    let commitment = make_commitment(vote, salt);

    // Success pattern
    let success_res = setup.commit_vote(name, title, VOTER, &commitment, NOW);
    assert!(success_res.is_ok());

    // Fail pattern (Already committed)
    let fail_res = setup.commit_vote(name, title, VOTER, &commitment, NOW);
    assert!(fail_res.is_err());
}

#[test]
fn test_reveal_vote() {
    let mut setup = VotingSystem::new();
    let name = "superteam5";
    let title = "Hello World3";
    let end = NOW + 1;
    let vote = true; // Yes
    let salt = "salt";

    let _ = setup.create_governance(name);
    let _ = setup.join(name, VOTER);
    let _ = setup.create_proposal(name, title);
    let _ = setup.start_vote(name, title, NOW, end);
    let commitment = make_commitment(vote, salt);
    let _ = setup.commit_vote(name, title, VOTER, &commitment, NOW);

    // the window has closed by one second
    let later = NOW + 1;

    // Success pattern
    let success_res = setup.reveal_vote(name, title, VOTER, vote, salt, later);
    assert!(success_res.is_ok());

    // Fail pattern (Governance does not exist)
    let fail_res = setup.reveal_vote("fake name", title, VOTER, vote, salt, later);
    assert!(fail_res.is_err());
}

/// Drives one governance to the point where a vote can be revealed.
fn committed_setup(vote: bool, salt: &str, end: i64) -> VotingSystem {
    let mut setup = VotingSystem::new();
    assert!(setup.create_governance("superteam").is_ok());
    assert!(setup.join("superteam", VOTER).is_ok());
    assert!(setup.create_proposal("superteam", "Hello World").is_ok());
    assert!(setup.start_vote("superteam", "Hello World", NOW, end).is_ok());
    let commitment = make_commitment(vote, salt);
    assert!(setup
        .commit_vote("superteam", "Hello World", VOTER, &commitment, NOW)
        .is_ok());
    setup
}

#[test]
fn test_round_trip_for() {
    let end = NOW + 60;
    let mut setup = committed_setup(true, "salt", end);
    let res = setup.reveal_vote("superteam", "Hello World", VOTER, true, "salt", end);
    assert_eq!(res, Ok(()));
    assert_eq!(setup.get_result("superteam", "Hello World"), Ok((1, 0)));
    assert_eq!(setup.get_points("superteam", VOTER), Ok(1));
}

#[test]
fn test_round_trip_against() {
    let end = NOW + 60;
    let mut setup = committed_setup(false, "salt", end);
    let res = setup.reveal_vote("superteam", "Hello World", VOTER, false, "salt", end);
    assert_eq!(res, Ok(()));
    assert_eq!(setup.get_result("superteam", "Hello World"), Ok((0, 1)));
    assert_eq!(setup.get_points("superteam", VOTER), Ok(1));
}

#[test]
fn test_reveal_mismatched_vote() {
    let end = NOW + 60;
    let mut setup = committed_setup(true, "salt", end);
    let res = setup.reveal_vote("superteam", "Hello World", VOTER, false, "salt", end);
    assert_eq!(res, Err(VotingErrorCode::InvalidCommitment));
    // the failed reveal left the tally untouched
    assert_eq!(setup.get_result("superteam", "Hello World"), Ok((0, 0)));
    assert_eq!(setup.get_points("superteam", VOTER), Ok(0));
}

#[test]
fn test_reveal_mismatched_salt() {
    let end = NOW + 60;
    let mut setup = committed_setup(true, "salt", end);
    let res = setup.reveal_vote("superteam", "Hello World", VOTER, true, "pepper", end);
    assert_eq!(res, Err(VotingErrorCode::InvalidCommitment));
}

#[test]
fn test_reveal_before_end() {
    let end = NOW + 60;
    let mut setup = committed_setup(true, "salt", end);
    let res = setup.reveal_vote("superteam", "Hello World", VOTER, true, "salt", end - 1);
    assert_eq!(res, Err(VotingErrorCode::VotingNotEnded));
}

#[test]
fn test_commit_before_start() {
    let mut setup = VotingSystem::new();
    let _ = setup.create_governance("superteam");
    let _ = setup.create_proposal("superteam", "Hello World");
    let commitment = make_commitment(true, "salt");
    // the window was never opened
    let res = setup.commit_vote("superteam", "Hello World", VOTER, &commitment, NOW);
    assert_eq!(res, Err(VotingErrorCode::NotStarted));
    // the window opens only in the future
    let _ = setup.start_vote("superteam", "Hello World", NOW + 10, NOW + 60);
    let res = setup.commit_vote("superteam", "Hello World", VOTER, &commitment, NOW);
    assert_eq!(res, Err(VotingErrorCode::NotStarted));
}

#[test]
fn test_commit_after_end() {
    let end = NOW + 60;
    let mut setup = VotingSystem::new();
    let _ = setup.create_governance("superteam");
    let _ = setup.create_proposal("superteam", "Hello World");
    let _ = setup.start_vote("superteam", "Hello World", NOW, end);
    let commitment = make_commitment(true, "salt");
    let res = setup.commit_vote("superteam", "Hello World", VOTER, &commitment, end);
    assert_eq!(res, Err(VotingErrorCode::VotingEnded));
}

#[test]
fn test_double_commit_kind() {
    let end = NOW + 60;
    let mut setup = committed_setup(true, "salt", end);
    let commitment = make_commitment(false, "other");
    let res = setup.commit_vote("superteam", "Hello World", VOTER, &commitment, NOW + 1);
    assert_eq!(res, Err(VotingErrorCode::AlreadyExists));
}

#[test]
fn test_second_reveal_consumed() {
    let end = NOW + 60;
    let mut setup = committed_setup(true, "salt", end);
    assert!(setup
        .reveal_vote("superteam", "Hello World", VOTER, true, "salt", end)
        .is_ok());
    // the commitment was consumed by the first reveal
    let res = setup.reveal_vote("superteam", "Hello World", VOTER, true, "salt", end);
    assert_eq!(res, Err(VotingErrorCode::NotFound));
    assert_eq!(setup.get_result("superteam", "Hello World"), Ok((1, 0)));
}

#[test]
fn test_not_found_kinds() {
    let mut setup = VotingSystem::new();
    assert_eq!(setup.join("nowhere", VOTER), Err(VotingErrorCode::NotFound));
    assert_eq!(
        setup.create_proposal("nowhere", "Hello World"),
        Err(VotingErrorCode::NotFound)
    );
    assert_eq!(
        setup.start_vote("nowhere", "Hello World", NOW, NOW + 60),
        Err(VotingErrorCode::NotFound)
    );
    assert_eq!(
        setup.commit_vote("nowhere", "Hello World", VOTER, "digest", NOW),
        Err(VotingErrorCode::NotFound)
    );
    assert_eq!(
        setup.reveal_vote("nowhere", "Hello World", VOTER, true, "salt", NOW),
        Err(VotingErrorCode::NotFound)
    );
    assert_eq!(
        setup.get_result("nowhere", "Hello World"),
        Err(VotingErrorCode::NotFound)
    );
    assert_eq!(
        setup.get_points("nowhere", VOTER),
        Err(VotingErrorCode::NotFound)
    );
}

#[test]
fn test_reveal_without_commitment() {
    let end = NOW + 60;
    let mut setup = VotingSystem::new();
    let _ = setup.create_governance("superteam");
    let _ = setup.join("superteam", VOTER);
    let _ = setup.create_proposal("superteam", "Hello World");
    let _ = setup.start_vote("superteam", "Hello World", NOW, end);
    let res = setup.reveal_vote("superteam", "Hello World", VOTER, true, "salt", end);
    assert_eq!(res, Err(VotingErrorCode::NotFound));
}

#[test]
fn test_reveal_by_non_member() {
    let end = NOW + 60;
    let mut setup = VotingSystem::new();
    let _ = setup.create_governance("superteam");
    let _ = setup.create_proposal("superteam", "Hello World");
    let _ = setup.start_vote("superteam", "Hello World", NOW, end);
    // anyone may commit, but only members can reveal
    let commitment = make_commitment(true, "salt");
    assert!(setup
        .commit_vote("superteam", "Hello World", "stranger", &commitment, NOW)
        .is_ok());
    let res = setup.reveal_vote("superteam", "Hello World", "stranger", true, "salt", end);
    assert_eq!(res, Err(VotingErrorCode::NotFound));
}

#[test]
fn test_end_to_end_scenario() {
    let end = NOW + 60;
    let mut setup = VotingSystem::new();
    assert!(setup.create_governance("superteam").is_ok());
    assert!(setup.join("superteam", VOTER).is_ok());
    assert!(setup.create_proposal("superteam", "Hello World").is_ok());
    assert!(setup.start_vote("superteam", "Hello World", NOW, end).is_ok());
    let commitment = make_commitment(true, "salt");
    assert!(setup
        .commit_vote("superteam", "Hello World", VOTER, &commitment, NOW)
        .is_ok());
    assert!(setup
        .reveal_vote("superteam", "Hello World", VOTER, true, "salt", end)
        .is_ok());
    assert_eq!(setup.get_result("superteam", "Hello World"), Ok((1, 0)));
    assert_eq!(setup.get_points("superteam", VOTER), Ok(1));

    // the governance name stays taken after the whole sequence
    assert_eq!(
        setup.create_governance("superteam"),
        Err(VotingErrorCode::AlreadyExists)
    );
}

#[test]
fn test_two_voters_tally() {
    let end = NOW + 60;
    let mut setup = VotingSystem::new();
    let _ = setup.create_governance("superteam");
    let _ = setup.join("superteam", "alice-key");
    let _ = setup.join("superteam", "bob-key");
    let _ = setup.create_proposal("superteam", "Hello World");
    let _ = setup.start_vote("superteam", "Hello World", NOW, end);
    let c1 = make_commitment(true, "alice salt");
    let c2 = make_commitment(false, "bob salt");
    assert!(setup
        .commit_vote("superteam", "Hello World", "alice-key", &c1, NOW)
        .is_ok());
    assert!(setup
        .commit_vote("superteam", "Hello World", "bob-key", &c2, NOW + 1)
        .is_ok());
    assert!(setup
        .reveal_vote("superteam", "Hello World", "alice-key", true, "alice salt", end)
        .is_ok());
    assert!(setup
        .reveal_vote("superteam", "Hello World", "bob-key", false, "bob salt", end + 5)
        .is_ok());
    assert_eq!(setup.get_result("superteam", "Hello World"), Ok((1, 1)));
    assert_eq!(setup.get_points("superteam", "alice-key"), Ok(1));
    assert_eq!(setup.get_points("superteam", "bob-key"), Ok(1));
}

#[test]
fn test_round_trip_empty_salt() {
    let end = NOW + 60;
    let mut setup = committed_setup(true, "", end);
    assert_eq!(make_commitment(true, ""), "DETQ3BVhJzXiAM2SZzeFebpu7X9csWVzp9g1g6PoqQ1G");
    let res = setup.reveal_vote("superteam", "Hello World", VOTER, true, "", end);
    assert_eq!(res, Ok(()));
    assert_eq!(setup.get_result("superteam", "Hello World"), Ok((1, 0)));
}

#[test]
fn test_make_commitment_exact() {
    // SHA-256 of the preimage, rendered in base58
    assert_eq!(
        make_commitment(true, "salt"),
        "CbfJ8ZmxZpJdsbPcT5MTKLSbYtXpsQ4kXUXjne11ynac"
    );
    assert_eq!(
        make_commitment(false, "salt"),
        "7Zyi6c2ZFKjvBHxAHLGKVvCYqzFdkn3vvBNMsszG7wNH"
    );
    // the digest is a hash, not the preimage handed back
    assert_ne!(make_commitment(true, "salt"), "truesalt");
}
