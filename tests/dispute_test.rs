use soroban_sdk::{Bytes, Env};
use traqora_contracts::address::Address;
use traqora_contracts::dispute::{
    DisputeContract, DisputeError, DisputePhase, DisputeStorageKey, Verdict,
};

const DAY: u64 = 86400;

fn addr(id: u64) -> Address {
    Address::new(id)
}

fn keccak(env: &Env, bytes: &[u8]) -> [u8; 32] {
    env.crypto().keccak256(&Bytes::from_slice(env, bytes)).to_array()
}

/// The commitment a juror posts for a vote and a salt, computed with the host directly.
fn commit_for(env: &Env, vote: bool, salt: &[u8; 32]) -> [u8; 32] {
    let mut msg = vec![if vote { 1u8 } else { 0u8 }];
    msg.extend_from_slice(salt);
    keccak(env, &msg)
}

fn init(store: &mut DisputeStorageKey, jury_size: u32) {
    DisputeContract::initialize(store, 2000, jury_size, DAY, DAY, DAY, DAY, 5000, 2000).unwrap();
}

/// Files dispute 1 at time 0 between passenger 1 and airline 2, both staking 2000 on 10000.
fn filed(jury_size: u32) -> DisputeStorageKey {
    let mut store = DisputeStorageKey::new();
    init(&mut store, jury_size);
    let id = DisputeContract::file_dispute(&mut store, 0, addr(1), addr(2), 1, 10000, 2000).unwrap();
    assert_eq!(id, 1);
    DisputeContract::airline_respond(&mut store, addr(2), 1, 2000).unwrap();
    store
}

/// Seats jurors 10, 11, 12, ... after the evidence period and has them commit to `votes`.
fn committed(env: &Env, votes: &[bool]) -> DisputeStorageKey {
    let mut store = filed(votes.len() as u32);
    let t = DAY + 1;
    for i in 0..votes.len() {
        DisputeContract::select_as_juror(&mut store, t, addr(10 + i as u64), 1, 1000 + i as i128)
            .unwrap();
    }
    for (i, vote) in votes.iter().enumerate() {
        let salt = [i as u8 + 1; 32];
        DisputeContract::commit_vote(&mut store, t, addr(10 + i as u64), 1, commit_for(env, *vote, &salt))
            .unwrap();
    }
    store
}

/// Runs the votes through reveal and finalization.
fn finalized(env: &Env, votes: &[bool]) -> DisputeStorageKey {
    let mut store = committed(env, votes);
    let t = 2 * DAY + 2;
    DisputeContract::advance_to_reveal(&mut store, t, 1).unwrap();
    for (i, vote) in votes.iter().enumerate() {
        let salt = [i as u8 + 1; 32];
        DisputeContract::reveal_vote(env, &mut store, t, addr(10 + i as u64), 1, *vote, salt).unwrap();
    }
    DisputeContract::finalize_dispute(&mut store, 3 * DAY + 3, 1).unwrap();
    store
}

#[test]
fn dispute_test_test_initialize() {
    let mut store = DisputeStorageKey::new();
    DisputeContract::initialize(&mut store, 2000, 5, 86400, 86400, 86400, 86400, 5000, 2000).unwrap();
    let config = DisputeContract::get_config(&store);
    assert!(config.is_some());
    assert_eq!(config.unwrap().jury_size, 5);
}

#[test]
fn test_file_dispute() {
    let mut store = DisputeStorageKey::new();
    DisputeContract::initialize(&mut store, 2000, 5, 86400, 86400, 86400, 86400, 5000, 2000).unwrap();
    let dispute_id =
        DisputeContract::file_dispute(&mut store, 0, addr(1), addr(2), 1, 10000, 2000).unwrap();
    assert_eq!(dispute_id, 1);
    let dispute = DisputeContract::get_dispute(&store, dispute_id);
    assert!(dispute.is_some());
    let dispute = dispute.unwrap();
    assert_eq!(dispute.passenger, addr(1));
    assert_eq!(dispute.airline, addr(2));
    assert_eq!(dispute.amount, 10000);
    assert_eq!(dispute.passenger_stake, 2000);
    assert_eq!(dispute.phase, DisputePhase::Evidence);
    assert_eq!(dispute.evidence_deadline, 86400);
    assert_eq!(dispute.voting_deadline, 2 * 86400);
    assert_eq!(dispute.reveal_deadline, 3 * 86400);
    assert_eq!(dispute.appeal_deadline, 4 * 86400);
    assert_eq!(dispute.jury_size, 5);
    assert_eq!(store.get_stake(1, addr(1)), 2000);
}

#[test]
fn test_file_dispute_insufficient_stake() {
    let mut store = DisputeStorageKey::new();
    DisputeContract::initialize(&mut store, 2000, 5, 86400, 86400, 86400, 86400, 5000, 2000).unwrap();
    let r = DisputeContract::file_dispute(&mut store, 0, addr(1), addr(2), 1, 10000, 1000);
    assert_eq!(r, Err(DisputeError::InsufficientStake));
    assert_eq!(DisputeContract::get_dispute_count(&store), 0);
}

#[test]
fn stake_floor_is_exactly_the_percentage() {
    let mut store = DisputeStorageKey::new();
    init(&mut store, 3);
    assert_eq!(
        DisputeContract::file_dispute(&mut store, 0, addr(1), addr(2), 1, 10000, 1999),
        Err(DisputeError::InsufficientStake)
    );
    assert_eq!(DisputeContract::file_dispute(&mut store, 0, addr(1), addr(2), 1, 10000, 2000), Ok(1));
    // 20% of 9999 is 1999.8, truncated to 1999.
    assert_eq!(DisputeContract::file_dispute(&mut store, 0, addr(1), addr(2), 1, 9999, 1999), Ok(2));
    assert_eq!(
        DisputeContract::file_dispute(&mut store, 0, addr(1), addr(2), 1, 9999, 1998),
        Err(DisputeError::InsufficientStake)
    );
}

#[test]
fn file_dispute_needs_configuration() {
    let mut store = DisputeStorageKey::new();
    assert_eq!(
        DisputeContract::file_dispute(&mut store, 0, addr(1), addr(2), 1, 10000, 2000),
        Err(DisputeError::NotInitialized)
    );
    init(&mut store, 3);
    assert_eq!(
        DisputeContract::initialize(&mut store, 1, 1, 1, 1, 1, 1, 1, 1),
        Err(DisputeError::AlreadyInitialized)
    );
    assert_eq!(DisputeContract::get_config(&store).unwrap().jury_size, 3);
}

#[test]
fn file_dispute_overflow_is_refused() {
    let mut store = DisputeStorageKey::new();
    init(&mut store, 3);
    assert_eq!(
        DisputeContract::file_dispute(&mut store, 0, addr(1), addr(2), 1, i128::MAX, 0),
        Err(DisputeError::MathOverflow)
    );
    assert_eq!(
        DisputeContract::file_dispute(&mut store, u64::MAX - DAY, addr(1), addr(2), 1, 10000, 2000),
        Err(DisputeError::MathOverflow)
    );
}

#[test]
fn test_airline_respond() {
    let mut store = DisputeStorageKey::new();
    DisputeContract::initialize(&mut store, 2000, 5, 86400, 86400, 86400, 86400, 5000, 2000).unwrap();
    let dispute_id =
        DisputeContract::file_dispute(&mut store, 0, addr(1), addr(2), 1, 10000, 2000).unwrap();
    DisputeContract::airline_respond(&mut store, addr(2), dispute_id, 2000).unwrap();
    let dispute = DisputeContract::get_dispute(&store, dispute_id).unwrap();
    assert_eq!(dispute.airline_stake, 2000);
    assert_eq!(store.get_stake(1, addr(2)), 2000);
}

#[test]
fn respond_errors() {
    let mut store = DisputeStorageKey::new();
    init(&mut store, 3);
    DisputeContract::file_dispute(&mut store, 0, addr(1), addr(2), 1, 10000, 2000).unwrap();
    assert_eq!(
        DisputeContract::airline_respond(&mut store, addr(2), 9, 2000),
        Err(DisputeError::DisputeNotFound)
    );
    assert_eq!(
        DisputeContract::airline_respond(&mut store, addr(3), 1, 2000),
        Err(DisputeError::Unauthorized)
    );
    assert_eq!(
        DisputeContract::airline_respond(&mut store, addr(2), 1, 1999),
        Err(DisputeError::InsufficientStake)
    );
    DisputeContract::airline_respond(&mut store, addr(2), 1, 2500).unwrap();
    assert_eq!(
        DisputeContract::airline_respond(&mut store, addr(2), 1, 2500),
        Err(DisputeError::AlreadyResponded)
    );
}

#[test]
fn test_submit_evidence() {
    let mut store = filed(5);
    let evidence_hash = [1u8; 32];
    DisputeContract::submit_evidence(&mut store, 0, addr(1), 1, evidence_hash, "flight_delay".to_string())
        .unwrap();
    let evidence = DisputeContract::get_evidence(&store, 1, addr(1), 0);
    assert!(evidence.is_some());
    let evidence = evidence.unwrap();
    assert_eq!(evidence.submitter, addr(1));
    assert_eq!(evidence.evidence_hash, evidence_hash);
    assert_eq!(evidence.description, "flight_delay");
}

#[test]
fn evidence_is_indexed_per_party() {
    let mut store = filed(5);
    DisputeContract::submit_evidence(&mut store, 10, addr(1), 1, [1u8; 32], "delay".to_string()).unwrap();
    DisputeContract::submit_evidence(&mut store, 20, addr(2), 1, [2u8; 32], "weather".to_string()).unwrap();
    DisputeContract::submit_evidence(&mut store, 30, addr(1), 1, [3u8; 32], "receipt".to_string()).unwrap();
    let d = DisputeContract::get_dispute(&store, 1).unwrap();
    assert_eq!(d.passenger_evidence_count, 2);
    assert_eq!(d.airline_evidence_count, 1);
    assert_eq!(DisputeContract::get_evidence(&store, 1, addr(1), 1).unwrap().evidence_hash, [3u8; 32]);
    assert_eq!(DisputeContract::get_evidence(&store, 1, addr(2), 0).unwrap().description, "weather");
    assert_eq!(DisputeContract::get_evidence(&store, 1, addr(1), 0).unwrap().submitted_at, 10);
    assert!(DisputeContract::get_evidence(&store, 1, addr(2), 1).is_none());
}

#[test]
fn evidence_errors() {
    let mut store = filed(5);
    assert_eq!(
        DisputeContract::submit_evidence(&mut store, 0, addr(7), 1, [0u8; 32], "x".to_string()),
        Err(DisputeError::NotAParty)
    );
    assert_eq!(
        DisputeContract::submit_evidence(&mut store, DAY + 1, addr(1), 1, [0u8; 32], "x".to_string()),
        Err(DisputeError::PeriodEnded)
    );
    assert_eq!(
        DisputeContract::submit_evidence(&mut store, DAY, addr(1), 1, [0u8; 32], "x".to_string()),
        Ok(())
    );
}

#[test]
fn test_jury_selection() {
    let mut store = filed(3);
    let t = 86401;
    DisputeContract::select_as_juror(&mut store, t, addr(10), 1, 1000).unwrap();
    DisputeContract::select_as_juror(&mut store, t, addr(11), 1, 1500).unwrap();
    DisputeContract::select_as_juror(&mut store, t, addr(12), 1, 2000).unwrap();
    assert!(DisputeContract::is_juror(&store, 1, addr(10)));
    assert!(DisputeContract::is_juror(&store, 1, addr(11)));
    assert!(DisputeContract::is_juror(&store, 1, addr(12)));
    let juror_count = DisputeContract::get_juror_count(&store, 1).unwrap();
    assert_eq!(juror_count, 3);
    assert_eq!(DisputeContract::get_dispute(&store, 1).unwrap().phase, DisputePhase::CommitVote);
    let second = DisputeContract::get_juror(&store, 1, 1).unwrap();
    assert_eq!(second.juror, addr(11));
    assert_eq!(second.token_balance, 1500);
    assert!(DisputeContract::get_juror(&store, 1, 3).is_none());
}

#[test]
fn jury_selection_errors() {
    let mut store = filed(2);
    assert_eq!(
        DisputeContract::select_as_juror(&mut store, DAY, addr(10), 1, 1000),
        Err(DisputeError::WrongPhase)
    );
    let t = DAY + 1;
    assert_eq!(
        DisputeContract::select_as_juror(&mut store, t, addr(10), 1, 0),
        Err(DisputeError::NotEligible)
    );
    // A refused call leaves the phase as it was.
    assert_eq!(DisputeContract::get_dispute(&store, 1).unwrap().phase, DisputePhase::Evidence);
    DisputeContract::select_as_juror(&mut store, t, addr(10), 1, 1000).unwrap();
    assert_eq!(DisputeContract::get_dispute(&store, 1).unwrap().phase, DisputePhase::JurySelection);
    assert_eq!(
        DisputeContract::select_as_juror(&mut store, t, addr(10), 1, 1000),
        Err(DisputeError::AlreadySelected)
    );
    DisputeContract::select_as_juror(&mut store, t, addr(11), 1, 1000).unwrap();
    assert_eq!(
        DisputeContract::select_as_juror(&mut store, t, addr(12), 1, 1000),
        Err(DisputeError::JuryFull)
    );
}

#[test]
fn test_party_cannot_be_juror() {
    let mut store = DisputeStorageKey::new();
    init(&mut store, 3);
    DisputeContract::file_dispute(&mut store, 0, addr(1), addr(2), 1, 10000, 2000).unwrap();
    assert_eq!(
        DisputeContract::select_as_juror(&mut store, 86401, addr(1), 1, 1000),
        Err(DisputeError::PartyCannotJuror)
    );
    assert_eq!(
        DisputeContract::select_as_juror(&mut store, 86401, addr(2), 1, 1000),
        Err(DisputeError::PartyCannotJuror)
    );
    assert!(!DisputeContract::is_juror(&store, 1, addr(1)));
}

#[test]
fn maybe_advance_phase_waits_for_the_deadline() {
    let store = filed(3);
    let d = DisputeContract::get_dispute(&store, 1).unwrap();
    assert_eq!(DisputeContract::maybe_advance_phase(d, DAY).phase, DisputePhase::Evidence);
    assert_eq!(DisputeContract::maybe_advance_phase(d, DAY + 1).phase, DisputePhase::JurySelection);
}

#[test]
fn test_commit_reveal_voting() {
    let env = Env::default();
    let mut store = committed(&env, &[true, true, false]);
    DisputeContract::advance_to_reveal(&mut store, 2 * DAY + 2, 1).unwrap();
    for (i, vote) in [true, true, false].iter().enumerate() {
        let salt = [i as u8 + 1; 32];
        DisputeContract::reveal_vote(&env, &mut store, 2 * DAY + 2, addr(10 + i as u64), 1, *vote, salt)
            .unwrap();
    }
    let dispute = DisputeContract::get_dispute(&store, 1).unwrap();
    assert_eq!(dispute.votes_for_passenger, 2);
    assert_eq!(dispute.votes_for_airline, 1);
}

#[test]
fn commit_deadline_is_inclusive() {
    let env = Env::default();
    let mut store = filed(2);
    let t = DAY + 1;
    DisputeContract::select_as_juror(&mut store, t, addr(10), 1, 1000).unwrap();
    DisputeContract::select_as_juror(&mut store, t, addr(11), 1, 1000).unwrap();
    let deadline = DisputeContract::get_dispute(&store, 1).unwrap().voting_deadline;
    assert_eq!(deadline, 2 * DAY);
    let c = commit_for(&env, true, &[1u8; 32]);
    assert_eq!(DisputeContract::commit_vote(&mut store, deadline, addr(10), 1, c), Ok(()));
    assert_eq!(
        DisputeContract::commit_vote(&mut store, deadline + 1, addr(11), 1, c),
        Err(DisputeError::PeriodEnded)
    );
}

#[test]
fn commit_errors() {
    let env = Env::default();
    let mut store = committed(&env, &[true, false]);
    let c = commit_for(&env, true, &[9u8; 32]);
    assert_eq!(
        DisputeContract::commit_vote(&mut store, DAY + 1, addr(99), 1, c),
        Err(DisputeError::NotAJuror)
    );
    assert_eq!(
        DisputeContract::commit_vote(&mut store, DAY + 1, addr(10), 1, c),
        Err(DisputeError::AlreadyCommitted)
    );
    assert_eq!(
        DisputeContract::advance_to_reveal(&mut store, 2 * DAY, 1),
        Err(DisputeError::PeriodNotEnded)
    );
    let stored = DisputeContract::get_vote_commit(&store, 1, addr(11)).unwrap();
    assert_eq!(stored.commit_hash, commit_for(&env, false, &[2u8; 32]));
}

#[test]
fn reveal_must_match_the_commitment() {
    let env = Env::default();
    let mut store = committed(&env, &[true, false]);
    let t = 2 * DAY + 2;
    assert_eq!(
        DisputeContract::reveal_vote(&env, &mut store, t, addr(10), 1, true, [1u8; 32]),
        Err(DisputeError::WrongPhase)
    );
    DisputeContract::advance_to_reveal(&mut store, t, 1).unwrap();
    // The right salt with the other vote, and the right vote with another salt.
    assert_eq!(
        DisputeContract::reveal_vote(&env, &mut store, t, addr(10), 1, false, [1u8; 32]),
        Err(DisputeError::InvalidReveal)
    );
    assert_eq!(
        DisputeContract::reveal_vote(&env, &mut store, t, addr(10), 1, true, [7u8; 32]),
        Err(DisputeError::InvalidReveal)
    );
    assert_eq!(DisputeContract::get_dispute(&store, 1).unwrap().votes_for_passenger, 0);
    assert_eq!(DisputeContract::reveal_vote(&env, &mut store, t, addr(10), 1, true, [1u8; 32]), Ok(()));
    assert_eq!(
        DisputeContract::reveal_vote(&env, &mut store, t, addr(10), 1, true, [1u8; 32]),
        Err(DisputeError::AlreadyRevealed)
    );
    assert_eq!(
        DisputeContract::reveal_vote(&env, &mut store, t, addr(99), 1, true, [1u8; 32]),
        Err(DisputeError::NoCommitFound)
    );
    assert_eq!(
        DisputeContract::reveal_vote(&env, &mut store, 3 * DAY + 1, addr(11), 1, false, [2u8; 32]),
        Err(DisputeError::PeriodEnded)
    );
    let reveal = DisputeContract::get_vote_reveal(&store, 1, addr(10)).unwrap();
    assert!(reveal.vote_for_passenger);
    assert_eq!(reveal.salt, [1u8; 32]);
}

#[test]
fn reveal_with_digest_compares_the_digest_alone() {
    let env = Env::default();
    let mut store = committed(&env, &[true]);
    let t = 2 * DAY + 2;
    DisputeContract::advance_to_reveal(&mut store, t, 1).unwrap();
    let commitment = commit_for(&env, true, &[1u8; 32]);
    assert_eq!(
        DisputeContract::reveal_vote_with_digest(&mut store, t, addr(10), 1, true, [1u8; 32], [0u8; 32]),
        Err(DisputeError::InvalidReveal)
    );
    assert_eq!(
        DisputeContract::reveal_vote_with_digest(&mut store, t, addr(10), 1, false, [5u8; 32], commitment),
        Ok(())
    );
    assert_eq!(DisputeContract::get_dispute(&store, 1).unwrap().votes_for_airline, 1);
}

#[test]
fn commitment_hash_is_the_keccak_of_vote_and_salt() {
    let env = Env::default();
    let salt = [4u8; 32];
    let message = DisputeContract::commitment_message(false, &salt);
    assert_eq!(message.len(), 33);
    assert_eq!(message[0], 0);
    assert_eq!(&message[1..], &salt[..]);
    let h = DisputeContract::commitment_hash(&env, false, &salt);
    assert_eq!(h, commit_for(&env, false, &salt));
    assert_ne!(h, DisputeContract::commitment_hash(&env, true, &salt));
    assert_ne!(&h[..], &message[..32]);
}

#[test]
fn tallies_count_the_reveals() {
    let env = Env::default();
    let votes = [true, false, true, true, false];
    let mut store = committed(&env, &votes);
    let t = 2 * DAY + 2;
    DisputeContract::advance_to_reveal(&mut store, t, 1).unwrap();
    for (i, vote) in votes.iter().enumerate().take(4) {
        let salt = [i as u8 + 1; 32];
        DisputeContract::reveal_vote(&env, &mut store, t, addr(10 + i as u64), 1, *vote, salt).unwrap();
        let d = DisputeContract::get_dispute(&store, 1).unwrap();
        let revealed = (0..5)
            .filter(|k| DisputeContract::get_vote_reveal(&store, 1, addr(10 + *k as u64)).is_some())
            .count() as u32;
        assert_eq!(d.votes_for_passenger + d.votes_for_airline, revealed);
    }
    let d = DisputeContract::get_dispute(&store, 1).unwrap();
    assert_eq!((d.votes_for_passenger, d.votes_for_airline), (3, 1));
}

#[test]
fn test_finalize_dispute() {
    let env = Env::default();
    let store = finalized(&env, &[true, true, false]);
    let dispute = DisputeContract::get_dispute(&store, 1).unwrap();
    assert!(dispute.verdict.is_some());
    assert_eq!(dispute.verdict.unwrap(), Verdict::Passenger);
    assert_eq!(dispute.phase, DisputePhase::Appeal);
    assert_eq!(dispute.finalized_at, Some(3 * DAY + 3));
}

#[test]
fn same_votes_give_the_same_verdict() {
    let env = Env::default();
    let a = finalized(&env, &[false, true, false]);
    let b = finalized(&env, &[false, false, true]);
    assert_eq!(DisputeContract::get_dispute(&a, 1).unwrap().verdict, Some(Verdict::Airline));
    assert_eq!(DisputeContract::get_dispute(&b, 1).unwrap().verdict, Some(Verdict::Airline));
    let tie = finalized(&env, &[true, false]);
    assert_eq!(DisputeContract::get_dispute(&tie, 1).unwrap().verdict, Some(Verdict::Tie));
}

#[test]
fn finalize_errors() {
    let env = Env::default();
    let mut store = committed(&env, &[true, false]);
    DisputeContract::advance_to_reveal(&mut store, 2 * DAY + 2, 1).unwrap();
    assert_eq!(
        DisputeContract::finalize_dispute(&mut store, 3 * DAY, 1),
        Err(DisputeError::PeriodNotEnded)
    );
    assert_eq!(
        DisputeContract::finalize_dispute(&mut store, 3 * DAY + 1, 1),
        Err(DisputeError::NoVotesRevealed)
    );
    assert_eq!(
        DisputeContract::finalize_dispute(&mut store, 3 * DAY + 1, 2),
        Err(DisputeError::DisputeNotFound)
    );
}

#[test]
fn test_appeal_mechanism() {
    let env = Env::default();
    let mut store = finalized(&env, &[false, false, true]);
    let before = DisputeContract::get_dispute(&store, 1).unwrap();
    assert_eq!(before.verdict.unwrap(), Verdict::Airline);
    let t = 3 * DAY + 10;
    DisputeContract::file_appeal(&mut store, t, addr(1), 1, 5000).unwrap();
    let after = DisputeContract::get_dispute(&store, 1).unwrap();
    assert!(after.appealed);
    assert!(after.verdict.is_none());
    assert_eq!(after.phase, DisputePhase::Evidence);
    assert_eq!((after.votes_for_passenger, after.votes_for_airline), (0, 0));
    assert_eq!(after.evidence_deadline, t + DAY);
    assert_eq!(after.appeal_deadline, t + 4 * DAY);
    assert_eq!(store.get_stake(1, addr(1)), 7000);
}

#[test]
fn appeal_errors_and_single_appeal() {
    let env = Env::default();
    let mut store = finalized(&env, &[false, false, true]);
    let t = 3 * DAY + 10;
    assert_eq!(
        DisputeContract::file_appeal(&mut store, t, addr(2), 1, 5000),
        Err(DisputeError::OnlyLoserAppeals)
    );
    assert_eq!(
        DisputeContract::file_appeal(&mut store, t, addr(1), 1, 4999),
        Err(DisputeError::InsufficientStake)
    );
    assert_eq!(
        DisputeContract::file_appeal(&mut store, 4 * DAY + 1, addr(1), 1, 5000),
        Err(DisputeError::PeriodEnded)
    );
    DisputeContract::file_appeal(&mut store, t, addr(1), 1, 5000).unwrap();
    assert_eq!(
        DisputeContract::file_appeal(&mut store, t, addr(1), 1, 5000),
        Err(DisputeError::WrongPhase)
    );
}

#[test]
fn second_round_seats_a_fresh_panel_and_cannot_be_appealed() {
    let env = Env::default();
    let mut store = finalized(&env, &[false, false, true]);
    let t0 = 3 * DAY + 10;
    DisputeContract::file_appeal(&mut store, t0, addr(1), 1, 5000).unwrap();
    let t = t0 + DAY + 1;
    assert_eq!(DisputeContract::get_juror_count(&store, 1), Ok(0));
    assert_eq!(
        DisputeContract::select_as_juror(&mut store, t, addr(10), 1, 1000),
        Err(DisputeError::AlreadySelected)
    );
    let votes = [true, true, false];
    for i in 0..3u64 {
        DisputeContract::select_as_juror(&mut store, t, addr(20 + i), 1, 1000).unwrap();
    }
    for (i, vote) in votes.iter().enumerate() {
        let salt = [i as u8 + 40; 32];
        DisputeContract::commit_vote(&mut store, t, addr(20 + i as u64), 1, commit_for(&env, *vote, &salt))
            .unwrap();
    }
    let t = t0 + 2 * DAY + 1;
    DisputeContract::advance_to_reveal(&mut store, t, 1).unwrap();
    for (i, vote) in votes.iter().enumerate() {
        let salt = [i as u8 + 40; 32];
        DisputeContract::reveal_vote(&env, &mut store, t, addr(20 + i as u64), 1, *vote, salt).unwrap();
    }
    DisputeContract::finalize_dispute(&mut store, t0 + 3 * DAY + 1, 1).unwrap();
    assert_eq!(DisputeContract::get_dispute(&store, 1).unwrap().verdict, Some(Verdict::Passenger));
    assert_eq!(
        DisputeContract::file_appeal(&mut store, t0 + 3 * DAY + 2, addr(2), 1, 5000),
        Err(DisputeError::AlreadyAppealed)
    );
}

#[test]
fn test_execute_verdict() {
    let env = Env::default();
    let mut store = finalized(&env, &[true, true, false]);
    let exec = DisputeContract::execute_verdict(&mut store, 4 * DAY + 4, 1).unwrap();
    let dispute = DisputeContract::get_dispute(&store, 1).unwrap();
    assert_eq!(dispute.verdict.unwrap(), Verdict::Passenger);
    assert_eq!(dispute.phase, DisputePhase::Finalized);
    assert_eq!(exec.winner, addr(1));
    assert_eq!(exec.loser, addr(2));
    assert_eq!(exec.amount, 10000);
    assert_eq!(exec.jury_reward_pool, 800);
}

#[test]
fn execute_errors() {
    let env = Env::default();
    let mut store = finalized(&env, &[true, false]);
    assert_eq!(
        DisputeContract::execute_verdict(&mut store, 4 * DAY, 1),
        Err(DisputeError::PeriodNotEnded)
    );
    assert_eq!(
        DisputeContract::execute_verdict(&mut store, 4 * DAY + 1, 1),
        Err(DisputeError::TieVerdict)
    );
    let mut early = filed(3);
    assert_eq!(DisputeContract::execute_verdict(&mut early, 0, 1), Err(DisputeError::WrongPhase));
}

#[test]
fn test_claim_juror_reward() {
    let env = Env::default();
    let mut store = finalized(&env, &[true, true, false]);
    DisputeContract::execute_verdict(&mut store, 4 * DAY + 4, 1).unwrap();
    let reward1 = DisputeContract::claim_juror_reward(&store, addr(10), 1).unwrap();
    let reward2 = DisputeContract::claim_juror_reward(&store, addr(11), 1).unwrap();
    let total_stake = 4000i128;
    let reward_pool = total_stake * 2000 / 10000;
    let expected_reward = reward_pool / 2;
    assert_eq!(reward1, expected_reward);
    assert_eq!(reward2, expected_reward);
    assert_eq!(reward1, 400);
}

#[test]
fn test_claim_juror_reward_wrong_vote() {
    let env = Env::default();
    let mut store = finalized(&env, &[true, true, false]);
    DisputeContract::execute_verdict(&mut store, 4 * DAY + 4, 1).unwrap();
    assert_eq!(
        DisputeContract::claim_juror_reward(&store, addr(12), 1),
        Err(DisputeError::DidNotVoteMajority)
    );
}

#[test]
fn claim_errors() {
    let env = Env::default();
    let mut store = finalized(&env, &[true, true, false]);
    assert_eq!(DisputeContract::claim_juror_reward(&store, addr(10), 1), Err(DisputeError::WrongPhase));
    DisputeContract::execute_verdict(&mut store, 4 * DAY + 4, 1).unwrap();
    assert_eq!(
        DisputeContract::claim_juror_reward(&store, addr(99), 1),
        Err(DisputeError::NoRevealFound)
    );
}

#[test]
fn rewards_add_up_to_the_pool_less_the_remainder() {
    let env = Env::default();
    let votes = [true, true, true, false];
    let mut store = finalized(&env, &votes);
    let exec = DisputeContract::execute_verdict(&mut store, 4 * DAY + 4, 1).unwrap();
    assert_eq!(exec.jury_reward_pool, 800);
    let mut sum = 0i128;
    for (i, vote) in votes.iter().enumerate() {
        if *vote {
            sum += DisputeContract::claim_juror_reward(&store, addr(10 + i as u64), 1).unwrap();
        }
    }
    assert_eq!(sum, 800 - 800 % 3);
    assert_eq!(sum, 798);
}

#[test]
fn end_to_end_three_jurors() {
    let env = Env::default();
    let votes = [true, true, false];
    let mut store = DisputeStorageKey::new();
    DisputeContract::initialize(&mut store, 2000, 3, DAY, DAY, DAY, DAY, 5000, 2000).unwrap();
    let id = DisputeContract::file_dispute(&mut store, 0, addr(1), addr(2), 1, 10000, 2000).unwrap();
    DisputeContract::airline_respond(&mut store, addr(2), id, 2000).unwrap();
    let t = DAY + 1;
    for i in 0..3u64 {
        DisputeContract::select_as_juror(&mut store, t, addr(10 + i), id, 1000).unwrap();
    }
    for (i, vote) in votes.iter().enumerate() {
        let salt = [i as u8 + 1; 32];
        DisputeContract::commit_vote(&mut store, t, addr(10 + i as u64), id, commit_for(&env, *vote, &salt))
            .unwrap();
    }
    let t = 2 * DAY + 1;
    DisputeContract::advance_to_reveal(&mut store, t, id).unwrap();
    for (i, vote) in votes.iter().enumerate() {
        let salt = [i as u8 + 1; 32];
        DisputeContract::reveal_vote(&env, &mut store, t, addr(10 + i as u64), id, *vote, salt).unwrap();
    }
    DisputeContract::finalize_dispute(&mut store, 3 * DAY + 1, id).unwrap();
    assert_eq!(DisputeContract::get_dispute(&store, id).unwrap().verdict, Some(Verdict::Passenger));
    DisputeContract::execute_verdict(&mut store, 4 * DAY + 1, id).unwrap();
    assert_eq!(DisputeContract::claim_juror_reward(&store, addr(10), id), Ok(400));
    assert_eq!(DisputeContract::claim_juror_reward(&store, addr(11), id), Ok(400));
    assert_eq!(
        DisputeContract::claim_juror_reward(&store, addr(12), id),
        Err(DisputeError::DidNotVoteMajority)
    );
}

#[test]
fn test_complete_dispute_lifecycle() {
    let env = Env::default();
    let mut store = DisputeStorageKey::new();
    DisputeContract::initialize(&mut store, 2000, 5, 86400, 86400, 86400, 86400, 5000, 2000).unwrap();
    let dispute_id =
        DisputeContract::file_dispute(&mut store, 0, addr(1), addr(2), 1, 10000, 2000).unwrap();
    assert_eq!(dispute_id, 1);
    DisputeContract::airline_respond(&mut store, addr(2), dispute_id, 2000).unwrap();
    DisputeContract::submit_evidence(&mut store, 0, addr(1), dispute_id, [1u8; 32], "delay".to_string())
        .unwrap();
    DisputeContract::submit_evidence(&mut store, 0, addr(2), dispute_id, [2u8; 32], "weather".to_string())
        .unwrap();
    let t = 86401;
    let jurors: Vec<Address> = (0..5).map(|i| addr(10 + i)).collect();
    for juror in &jurors {
        DisputeContract::select_as_juror(&mut store, t, *juror, dispute_id, 1000).unwrap();
    }
    let salts: Vec<[u8; 32]> = (0..5).map(|i| [i as u8 + 10; 32]).collect();
    let votes = vec![true, true, true, false, false];
    for (i, juror) in jurors.iter().enumerate() {
        let commit_hash = commit_for(&env, votes[i], &salts[i]);
        DisputeContract::commit_vote(&mut store, t, *juror, dispute_id, commit_hash).unwrap();
    }
    let t = t + 86401;
    DisputeContract::advance_to_reveal(&mut store, t, dispute_id).unwrap();
    for (i, juror) in jurors.iter().enumerate() {
        DisputeContract::reveal_vote(&env, &mut store, t, *juror, dispute_id, votes[i], salts[i]).unwrap();
    }
    let t = t + 86401;
    DisputeContract::finalize_dispute(&mut store, t, dispute_id).unwrap();
    let dispute = DisputeContract::get_dispute(&store, dispute_id).unwrap();
    assert_eq!(dispute.verdict.unwrap(), Verdict::Passenger);
    assert_eq!(dispute.votes_for_passenger, 3);
    assert_eq!(dispute.votes_for_airline, 2);
    let t = t + 86401;
    DisputeContract::execute_verdict(&mut store, t, dispute_id).unwrap();
    for (i, juror) in jurors.iter().enumerate() {
        if votes[i] {
            let reward = DisputeContract::claim_juror_reward(&store, *juror, dispute_id).unwrap();
            assert!(reward > 0);
            assert_eq!(reward, 800 / 3);
        }
    }
}

#[test]
fn zero_stake_response_is_recorded_once() {
    let mut store = DisputeStorageKey::new();
    init(&mut store, 3);
    // 20% of 1 truncates to 0, so a stake of 0 meets the floor.
    let id = DisputeContract::file_dispute(&mut store, 0, addr(1), addr(2), 1, 1, 0).unwrap();
    assert_eq!(DisputeContract::airline_respond(&mut store, addr(2), id, 0), Ok(()));
    assert!(DisputeContract::get_dispute(&store, id).unwrap().responded);
    assert_eq!(
        DisputeContract::airline_respond(&mut store, addr(2), id, 0),
        Err(DisputeError::AlreadyResponded)
    );
}

/// Round one: jurors 10, 11 and 12 vote airline, airline, passenger, but 12 never
/// reveals; the passenger appeals. Round two seats 20, 21 and 22.
fn appealed_with_fresh_panel(env: &Env) -> DisputeStorageKey {
    let mut store = committed(env, &[false, false, true]);
    let t = 2 * DAY + 2;
    DisputeContract::advance_to_reveal(&mut store, t, 1).unwrap();
    for i in 0..2u64 {
        DisputeContract::reveal_vote(env, &mut store, t, addr(10 + i), 1, false, [i as u8 + 1; 32]).unwrap();
    }
    DisputeContract::finalize_dispute(&mut store, 3 * DAY + 3, 1).unwrap();
    DisputeContract::file_appeal(&mut store, 3 * DAY + 10, addr(1), 1, 5000).unwrap();
    let t = 4 * DAY + 11;
    for i in 0..3u64 {
        DisputeContract::select_as_juror(&mut store, t, addr(20 + i), 1, 1000).unwrap();
    }
    store
}

#[test]
fn round_one_votes_do_not_carry_into_round_two() {
    let env = Env::default();
    let mut store = appealed_with_fresh_panel(&env);
    let t = 4 * DAY + 11;
    // Round-one jurors hold no seat on the new panel.
    assert_eq!(
        DisputeContract::commit_vote(&mut store, t, addr(10), 1, commit_for(&env, true, &[1u8; 32])),
        Err(DisputeError::NotAJuror)
    );
    assert!(DisputeContract::get_vote_commit(&store, 1, addr(12)).is_none());
    let votes = [true, true, false];
    for (i, vote) in votes.iter().enumerate() {
        let salt = [i as u8 + 40; 32];
        DisputeContract::commit_vote(&mut store, t, addr(20 + i as u64), 1, commit_for(&env, *vote, &salt))
            .unwrap();
    }
    let t = 5 * DAY + 11;
    DisputeContract::advance_to_reveal(&mut store, t, 1).unwrap();
    // Juror 12's round-one commitment cannot be opened in round two.
    assert_eq!(
        DisputeContract::reveal_vote(&env, &mut store, t, addr(12), 1, true, [3u8; 32]),
        Err(DisputeError::NoCommitFound)
    );
    for (i, vote) in votes.iter().enumerate() {
        let salt = [i as u8 + 40; 32];
        DisputeContract::reveal_vote(&env, &mut store, t, addr(20 + i as u64), 1, *vote, salt).unwrap();
    }
    let d = DisputeContract::get_dispute(&store, 1).unwrap();
    assert_eq!((d.votes_for_passenger, d.votes_for_airline), (2, 1));
    DisputeContract::finalize_dispute(&mut store, 6 * DAY + 11, 1).unwrap();
    let exec = DisputeContract::execute_verdict(&mut store, 7 * DAY + 11, 1).unwrap();
    assert_eq!(exec.winner, addr(1));
    assert_eq!(exec.jury_reward_pool, 800);
    // Round-one jurors are not paid, whatever they voted.
    for k in 10..13u64 {
        assert_eq!(
            DisputeContract::claim_juror_reward(&store, addr(k), 1),
            Err(DisputeError::NoRevealFound)
        );
    }
    let mut sum = 0i128;
    for (i, vote) in votes.iter().enumerate() {
        let r = DisputeContract::claim_juror_reward(&store, addr(20 + i as u64), 1);
        if *vote {
            sum += r.unwrap();
        } else {
            assert_eq!(r, Err(DisputeError::DidNotVoteMajority));
        }
    }
    assert_eq!(sum, 800 - 800 % 2);
}
