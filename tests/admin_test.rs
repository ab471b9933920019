use traqora_contracts::address::Address;
use traqora_contracts::admin::{AdminActionType, AdminError, AdminMultisig, AdminStorage};

fn signers() -> Vec<Address> {
    vec![Address::new(1), Address::new(2), Address::new(3)]
}

fn initialized() -> AdminStorage {
    let mut store = AdminStorage::new();
    AdminMultisig::initialize(&mut store, signers(), 2, 100).unwrap();
    store
}

fn propose(store: &mut AdminStorage, now: u64, action: AdminActionType, target: Option<Address>, threshold: Option<u32>) -> u64 {
    AdminMultisig::propose_admin_action(store, now, Address::new(1), action, None, None, None, target, threshold)
        .unwrap()
}

#[test]
fn initialize_checks_the_threshold() {
    let mut store = AdminStorage::new();
    assert_eq!(AdminMultisig::initialize(&mut store, signers(), 4, 100), Err(AdminError::ThresholdExceedsSigners));
    assert_eq!(AdminMultisig::initialize(&mut store, signers(), 0, 100), Err(AdminError::InvalidThreshold));
    assert_eq!(AdminMultisig::initialize(&mut store, signers(), 1, 100), Err(AdminError::ThresholdTooLow));
    assert_eq!(AdminMultisig::initialize(&mut store, signers(), 2, 0), Err(AdminError::InvalidExpiration));
    AdminMultisig::initialize(&mut store, signers(), 2, 100).unwrap();
    assert_eq!(AdminMultisig::initialize(&mut store, signers(), 2, 100), Err(AdminError::AlreadyInitialized));
    assert!(AdminMultisig::is_signer_address(&store, Address::new(3)));
    assert!(!AdminMultisig::is_signer_address(&store, Address::new(4)));
}

#[test]
fn emergency_stop_needs_the_threshold() {
    let mut store = initialized();
    let id = propose(&mut store, 10, AdminActionType::EmergencyStop, None, None);
    assert_eq!(id, 1);
    assert_eq!(AdminMultisig::get_proposal_count(&store), 1);
    assert!(AdminMultisig::has_approved(&store, id, Address::new(1)));
    assert_eq!(
        AdminMultisig::execute_admin_action(&mut store, 10, Address::new(1), id),
        Err(AdminError::InsufficientApprovals)
    );
    assert_eq!(
        AdminMultisig::approve_admin_action(&mut store, 10, Address::new(1), id),
        Err(AdminError::AlreadyApproved)
    );
    AdminMultisig::approve_admin_action(&mut store, 10, Address::new(2), id).unwrap();
    AdminMultisig::execute_admin_action(&mut store, 10, Address::new(3), id).unwrap();
    assert!(AdminMultisig::is_emergency_stopped(&store));
    assert!(AdminMultisig::get_proposal(&store, id).unwrap().executed);
    assert_eq!(
        AdminMultisig::execute_admin_action(&mut store, 10, Address::new(3), id),
        Err(AdminError::AlreadyExecuted)
    );
    let resume = propose(&mut store, 20, AdminActionType::EmergencyResume, None, None);
    AdminMultisig::approve_admin_action(&mut store, 20, Address::new(2), resume).unwrap();
    AdminMultisig::execute_admin_action(&mut store, 20, Address::new(2), resume).unwrap();
    assert!(!AdminMultisig::is_emergency_stopped(&store));
}

#[test]
fn proposals_expire_and_can_be_cancelled() {
    let mut store = initialized();
    let id = propose(&mut store, 10, AdminActionType::ContractUpgrade, None, None);
    assert_eq!(AdminMultisig::get_proposal(&store, id).unwrap().expires_at, 110);
    assert_eq!(
        AdminMultisig::approve_admin_action(&mut store, 111, Address::new(2), id),
        Err(AdminError::ProposalExpired)
    );
    assert_eq!(
        AdminMultisig::cancel_proposal(&mut store, Address::new(2), id),
        Err(AdminError::OnlyProposerCanCancel)
    );
    AdminMultisig::cancel_proposal(&mut store, Address::new(1), id).unwrap();
    assert_eq!(
        AdminMultisig::approve_admin_action(&mut store, 20, Address::new(2), id),
        Err(AdminError::ProposalCancelled)
    );
    assert_eq!(
        AdminMultisig::approve_admin_action(&mut store, 20, Address::new(2), 9),
        Err(AdminError::ProposalNotFound)
    );
}

#[test]
fn signers_are_added_removed_and_the_threshold_changed() {
    let mut store = initialized();
    let add = propose(&mut store, 0, AdminActionType::AddSigner, Some(Address::new(4)), None);
    AdminMultisig::approve_admin_action(&mut store, 0, Address::new(2), add).unwrap();
    AdminMultisig::execute_admin_action(&mut store, 0, Address::new(1), add).unwrap();
    let (s, t) = AdminMultisig::get_multisig_config(&store).unwrap();
    assert_eq!(s.len(), 4);
    assert_eq!(t, 2);

    let raise = propose(&mut store, 0, AdminActionType::UpdateThreshold, None, Some(4));
    AdminMultisig::approve_admin_action(&mut store, 0, Address::new(2), raise).unwrap();
    AdminMultisig::execute_admin_action(&mut store, 0, Address::new(1), raise).unwrap();
    assert_eq!(AdminMultisig::get_multisig_config(&store).unwrap().1, 4);

    let remove = propose(&mut store, 0, AdminActionType::RemoveSigner, Some(Address::new(4)), None);
    for k in 2..=4u64 {
        AdminMultisig::approve_admin_action(&mut store, 0, Address::new(k), remove).unwrap();
    }
    assert_eq!(
        AdminMultisig::execute_admin_action(&mut store, 0, Address::new(1), remove),
        Err(AdminError::BelowThreshold)
    );
}

#[test]
fn malformed_proposals_are_refused() {
    let mut store = initialized();
    let p = |store: &mut AdminStorage, a, t, n| {
        AdminMultisig::propose_admin_action(store, 0, Address::new(1), a, None, None, None, t, n)
    };
    assert_eq!(p(&mut store, AdminActionType::AddSigner, None, None), Err(AdminError::MissingTargetAddress));
    assert_eq!(p(&mut store, AdminActionType::UpdateThreshold, None, None), Err(AdminError::MissingThreshold));
    assert_eq!(p(&mut store, AdminActionType::UpdateThreshold, None, Some(1)), Err(AdminError::ThresholdTooLow));
    assert_eq!(p(&mut store, AdminActionType::ParameterChange, None, None), Err(AdminError::MissingParameterKey));
    assert_eq!(
        AdminMultisig::propose_admin_action(
            &mut store, 0, Address::new(1), AdminActionType::ParameterChange, None,
            Some("fee".to_string()), None, None, None
        ),
        Err(AdminError::MissingParameterValue)
    );
    assert_eq!(
        AdminMultisig::propose_admin_action(
            &mut store, 0, Address::new(9), AdminActionType::EmergencyStop, None, None, None, None, None
        ),
        Err(AdminError::NotASigner)
    );
    assert_eq!(AdminMultisig::get_proposal_count(&store), 0);
    let add = p(&mut store, AdminActionType::AddSigner, Some(Address::new(2)), None).unwrap();
    AdminMultisig::approve_admin_action(&mut store, 0, Address::new(2), add).unwrap();
    assert_eq!(
        AdminMultisig::execute_admin_action(&mut store, 0, Address::new(1), add),
        Err(AdminError::AlreadySigner)
    );
}
