use vstd::prelude::*;

use crate::address::Address;
use crate::proxy::{copy_addresses, is_signer};
use crate::seqs::{last_of, lemma_filter_prefix_step};

verus! {

/// What an admin proposal asks for.
#[derive(Clone, Copy, Debug, PartialEq, Eq, Structural)]
pub enum AdminActionType {
    EmergencyStop,
    EmergencyResume,
    ParameterChange,
    ContractUpgrade,
    AddSigner,
    RemoveSigner,
    UpdateThreshold,
}

#[derive(Clone, Copy, Debug, PartialEq, Eq, Structural)]
pub enum AdminError {
    AlreadyInitialized,
    NotInitialized,
    ThresholdExceedsSigners,
    InvalidThreshold,
    ThresholdTooLow,
    InvalidExpiration,
    NotASigner,
    MissingParameterKey,
    MissingParameterValue,
    MissingTargetAddress,
    MissingThreshold,
    ProposalNotFound,
    AlreadyExecuted,
    ProposalCancelled,
    ProposalExpired,
    AlreadyApproved,
    InsufficientApprovals,
    AlreadySigner,
    SignerNotFound,
    BelowThreshold,
    OnlyProposerCanCancel,
    MathOverflow,
}

#[derive(Debug)]
pub struct AdminProposal {
    pub proposal_id: u64,
    pub proposer: Address,
    pub action_type: AdminActionType,
    pub target_contract: Option<Address>,
    pub parameter_key: Option<String>,
    pub parameter_value: Option<i128>,
    pub target_address: Option<Address>,
    pub new_threshold: Option<u32>,
    pub proposed_at: u64,
    pub expires_at: u64,
    pub approvals: Vec<Address>,
    pub executed: bool,
    pub cancelled: bool,
}

/// The admin signers, how many of them an action needs, and how long a
/// proposal stays open.
#[derive(Debug)]
pub struct MultisigConfig {
    pub signers: Vec<Address>,
    pub threshold: u32,
    pub proposal_expiration: u64,
}

#[derive(Clone, Copy, Debug, PartialEq, Eq, Structural)]
pub struct AdminApproval {
    pub proposal_id: u64,
    pub signer: Address,
}

/// The admin records; a later proposal under the same id wins.
pub struct AdminLedger {
    pub config: Option<MultisigConfig>,
    pub proposals: Seq<AdminProposal>,
    pub proposal_count: u64,
    pub approvals: Seq<AdminApproval>,
    pub emergency_stopped: bool,
}

pub open spec fn of_admin_proposal(proposal_id: u64) -> spec_fn(AdminProposal) -> bool {
    |p: AdminProposal| p.proposal_id == proposal_id
}

pub open spec fn other_than(a: Address) -> spec_fn(Address) -> bool {
    |x: Address| x != a
}

impl AdminLedger {
    pub open spec fn proposal(self, proposal_id: u64) -> Option<AdminProposal> {
        last_of(self.proposals, of_admin_proposal(proposal_id))
    }

    pub open spec fn has_approved(self, proposal_id: u64, signer: Address) -> bool {
        exists|i: int|
            0 <= i < self.approvals.len() && (#[trigger] self.approvals[i]).proposal_id
                == proposal_id && self.approvals[i].signer == signer
    }

    pub open spec fn is_signer(self, a: Address) -> bool {
        self.config is Some && self.config.unwrap().signers@.contains(a)
    }

    pub open spec fn signers(self) -> Seq<Address> {
        self.config.unwrap().signers@
    }

    pub open spec fn threshold(self) -> u32 {
        self.config.unwrap().threshold
    }
}

/// Whether `q` is `p` but for its executed and cancelled flags.
pub open spec fn same_proposal(q: AdminProposal, p: AdminProposal) -> bool {
    &&& q.proposal_id == p.proposal_id
    &&& q.proposer == p.proposer
    &&& q.action_type == p.action_type
    &&& q.target_contract == p.target_contract
    &&& q.parameter_key == p.parameter_key
    &&& q.parameter_value == p.parameter_value
    &&& q.target_address == p.target_address
    &&& q.new_threshold == p.new_threshold
    &&& q.proposed_at == p.proposed_at
    &&& q.expires_at == p.expires_at
    &&& q.approvals@ == p.approvals@
}

/// Why a proposal of this kind is malformed, if it is.
pub open spec fn proposal_error(
    action_type: AdminActionType,
    parameter_key: Option<String>,
    parameter_value: Option<i128>,
    target_address: Option<Address>,
    new_threshold: Option<u32>,
) -> Option<AdminError> {
    match action_type {
        AdminActionType::ParameterChange => if parameter_key is None {
            Some(AdminError::MissingParameterKey)
        } else if parameter_value is None {
            Some(AdminError::MissingParameterValue)
        } else {
            None
        },
        AdminActionType::AddSigner | AdminActionType::RemoveSigner => if target_address is None {
            Some(AdminError::MissingTargetAddress)
        } else {
            None
        },
        AdminActionType::UpdateThreshold => match new_threshold {
            None => Some(AdminError::MissingThreshold),
            Some(t) => if t == 0 {
                Some(AdminError::InvalidThreshold)
            } else if t < 2 {
                Some(AdminError::ThresholdTooLow)
            } else {
                None
            },
        },
        _ => None,
    }
}

/// The signers, threshold and stop flag after a proposal's action, or why
/// the action cannot be carried out.
pub open spec fn action_outcome(
    signers: Seq<Address>,
    threshold: u32,
    stopped: bool,
    p: AdminProposal,
) -> Result<(Seq<Address>, u32, bool), AdminError> {
    match p.action_type {
        AdminActionType::EmergencyStop => Ok((signers, threshold, true)),
        AdminActionType::EmergencyResume => Ok((signers, threshold, false)),
        AdminActionType::AddSigner => match p.target_address {
            None => Err(AdminError::MissingTargetAddress),
            Some(a) => if signers.contains(a) {
                Err(AdminError::AlreadySigner)
            } else {
                Ok((signers.push(a), threshold, stopped))
            },
        },
        AdminActionType::RemoveSigner => match p.target_address {
            None => Err(AdminError::MissingTargetAddress),
            Some(a) => if !signers.contains(a) {
                Err(AdminError::SignerNotFound)
            } else if signers.filter(other_than(a)).len() < threshold {
                Err(AdminError::BelowThreshold)
            } else {
                Ok((signers.filter(other_than(a)), threshold, stopped))
            },
        },
        AdminActionType::UpdateThreshold => match p.new_threshold {
            None => Err(AdminError::MissingThreshold),
            Some(t) => if signers.len() < t {
                Err(AdminError::ThresholdExceedsSigners)
            } else if t < 2 {
                Err(AdminError::ThresholdTooLow)
            } else {
                Ok((signers, t, stopped))
            },
        },
        AdminActionType::ParameterChange => if p.parameter_key is None {
            Err(AdminError::MissingParameterKey)
        } else if p.parameter_value is None {
            Err(AdminError::MissingParameterValue)
        } else {
            Ok((signers, threshold, stopped))
        },
        AdminActionType::ContractUpgrade => Ok((signers, threshold, stopped)),
    }
}

/// Why a signer's approval or execution of a proposal is refused at `now`,
/// before the approval count is looked at.
pub open spec fn open_proposal_error(s: AdminLedger, now: u64, signer: Address, proposal_id: u64) -> Option<
    AdminError,
> {
    if s.config is None {
        Some(AdminError::NotInitialized)
    } else if !s.is_signer(signer) {
        Some(AdminError::NotASigner)
    } else {
        match s.proposal(proposal_id) {
            None => Some(AdminError::ProposalNotFound),
            Some(p) => if p.executed {
                Some(AdminError::AlreadyExecuted)
            } else if p.cancelled {
                Some(AdminError::ProposalCancelled)
            } else if now > p.expires_at {
                Some(AdminError::ProposalExpired)
            } else {
                None
            },
        }
    }
}

/// The admin multisig's store.
pub struct AdminStorage {
    config: Option<MultisigConfig>,
    proposals: Vec<AdminProposal>,
    proposal_count: u64,
    approvals: Vec<AdminApproval>,
    emergency_stopped: bool,
}

impl View for AdminStorage {
    type V = AdminLedger;

    closed spec fn view(&self) -> AdminLedger {
        AdminLedger {
            config: self.config,
            proposals: self.proposals@,
            proposal_count: self.proposal_count,
            approvals: self.approvals@,
            emergency_stopped: self.emergency_stopped,
        }
    }
}

fn copy_key(k: &Option<String>) -> (c: Option<String>)
    ensures
        c == *k,
{
    match k {
        None => None,
        Some(s) => Some(s.clone()),
    }
}

pub fn copy_admin_proposal(p: &AdminProposal) -> (c: AdminProposal)
    ensures
        same_proposal(c, *p),
        c.executed == p.executed,
        c.cancelled == p.cancelled,
{
    AdminProposal {
        proposal_id: p.proposal_id,
        proposer: p.proposer,
        action_type: p.action_type,
        target_contract: p.target_contract,
        parameter_key: copy_key(&p.parameter_key),
        parameter_value: p.parameter_value,
        target_address: p.target_address,
        new_threshold: p.new_threshold,
        proposed_at: p.proposed_at,
        expires_at: p.expires_at,
        approvals: copy_addresses(&p.approvals),
        executed: p.executed,
        cancelled: p.cancelled,
    }
}

/// The signers without `a`.
pub fn without_signer(signers: &Vec<Address>, a: Address) -> (r: Vec<Address>)
    ensures
        r@ == signers@.filter(other_than(a)),
{
    let ghost p = other_than(a);
    let mut rest: Vec<Address> = Vec::new();
    let mut i: usize = 0;
    while i < signers.len()
        invariant
            i <= signers@.len(),
            p == other_than(a),
            rest@ == signers@.subrange(0, i as int).filter(p),
        decreases signers@.len() - i,
    {
        proof {
            lemma_filter_prefix_step(signers@, p, i as int);
        }
        if signers[i] != a {
            rest.push(signers[i]);
        }
        i = i + 1;
    }
    proof {
        assert(signers@.subrange(0, i as int) =~= signers@);
    }
    rest
}

impl AdminStorage {
    pub fn new() -> (r: AdminStorage)
        ensures
            r@.config is None,
            r@.proposals.len() == 0,
            r@.proposal_count == 0,
            r@.approvals.len() == 0,
            !r@.emergency_stopped,
    {
        AdminStorage {
            config: None,
            proposals: Vec::new(),
            proposal_count: 0,
            approvals: Vec::new(),
            emergency_stopped: false,
        }
    }

    pub fn is_configured_signer(&self, address: Address) -> (r: bool)
        ensures
            r == self@.is_signer(address),
    {
        match &self.config {
            None => false,
            Some(c) => is_signer(&c.signers, address),
        }
    }

    pub fn get_proposal(&self, proposal_id: u64) -> (r: Option<AdminProposal>)
        ensures
            r is Some <==> self@.proposal(proposal_id) is Some,
            r is Some ==> same_proposal(r.unwrap(), self@.proposal(proposal_id).unwrap())
                && r.unwrap().executed == self@.proposal(proposal_id).unwrap().executed
                && r.unwrap().cancelled == self@.proposal(proposal_id).unwrap().cancelled,
    {
        let ghost p = of_admin_proposal(proposal_id);
        let mut found: Option<usize> = None;
        let mut i: usize = 0;
        while i < self.proposals.len()
            invariant
                i <= self.proposals@.len(),
                p == of_admin_proposal(proposal_id),
                found is None ==> last_of(self.proposals@.subrange(0, i as int), p) is None,
                found is Some ==> found.unwrap() < i && last_of(
                    self.proposals@.subrange(0, i as int),
                    p,
                ) == Some(self.proposals@[found.unwrap() as int]),
            decreases self.proposals@.len() - i,
        {
            proof {
                lemma_filter_prefix_step(self.proposals@, p, i as int);
            }
            if self.proposals[i].proposal_id == proposal_id {
                found = Some(i);
            }
            i = i + 1;
        }
        proof {
            assert(self.proposals@.subrange(0, i as int) =~= self.proposals@);
        }
        match found {
            None => None,
            Some(k) => Some(copy_admin_proposal(&self.proposals[k])),
        }
    }

    pub fn has_approved(&self, proposal_id: u64, signer: Address) -> (r: bool)
        ensures
            r == self@.has_approved(proposal_id, signer),
    {
        let mut i: usize = 0;
        while i < self.approvals.len()
            invariant
                i <= self.approvals@.len(),
                forall|k: int|
                    0 <= k < i ==> !((#[trigger] self.approvals@[k]).proposal_id == proposal_id
                        && self.approvals@[k].signer == signer),
            decreases self.approvals@.len() - i,
        {
            let a = self.approvals[i];
            if a.proposal_id == proposal_id && a.signer == signer {
                assert(self@.approvals[i as int] == a);
                return true;
            }
            i = i + 1;
        }
        false
    }

    /// The checks that approving and executing share.
    fn check_open(&self, now: u64, signer: Address, proposal_id: u64) -> (r: Result<
        AdminProposal,
        AdminError,
    >)
        ensures
            match open_proposal_error(self@, now, signer, proposal_id) {
                Some(e) => r == Err::<AdminProposal, _>(e),
                None => r is Ok && same_proposal(
                    r.unwrap(),
                    self@.proposal(proposal_id).unwrap(),
                ) && !r.unwrap().executed && !r.unwrap().cancelled,
            },
    {
        if self.config.is_none() {
            return Err(AdminError::NotInitialized);
        }
        if !self.is_configured_signer(signer) {
            return Err(AdminError::NotASigner);
        }
        let proposal = match self.get_proposal(proposal_id) {
            None => return Err(AdminError::ProposalNotFound),
            Some(p) => p,
        };
        if proposal.executed {
            return Err(AdminError::AlreadyExecuted);
        }
        if proposal.cancelled {
            return Err(AdminError::ProposalCancelled);
        }
        if now > proposal.expires_at {
            return Err(AdminError::ProposalExpired);
        }
        Ok(proposal)
    }
}

/// The admin multisig's operations.
pub struct AdminMultisig;

impl AdminMultisig {
    /// Names the signers, the threshold (at least 2) and the proposal lifetime.
    pub fn initialize(
        store: &mut AdminStorage,
        signers: Vec<Address>,
        threshold: u32,
        proposal_expiration: u64,
    ) -> (r: Result<(), AdminError>)
        ensures
            ({
                let s = old(store)@;
                if s.config is Some {
                    r == Err::<(), _>(AdminError::AlreadyInitialized) && final(store)@ == s
                } else if signers@.len() < threshold {
                    r == Err::<(), _>(AdminError::ThresholdExceedsSigners) && final(store)@ == s
                } else if threshold == 0 {
                    r == Err::<(), _>(AdminError::InvalidThreshold) && final(store)@ == s
                } else if threshold < 2 {
                    r == Err::<(), _>(AdminError::ThresholdTooLow) && final(store)@ == s
                } else if proposal_expiration == 0 {
                    r == Err::<(), _>(AdminError::InvalidExpiration) && final(store)@ == s
                } else {
                    &&& r is Ok
                    &&& final(store)@.config matches Some(c) && c.signers@ == signers@
                        && c.threshold == threshold && c.proposal_expiration
                        == proposal_expiration
                    &&& final(store)@.proposals == s.proposals
                    &&& final(store)@.approvals == s.approvals
                    &&& final(store)@.proposal_count == s.proposal_count
                    &&& final(store)@.emergency_stopped == s.emergency_stopped
                }
            }),
    {
        if store.config.is_some() {
            return Err(AdminError::AlreadyInitialized);
        }
        if signers.len() < threshold as usize {
            return Err(AdminError::ThresholdExceedsSigners);
        }
        if threshold == 0 {
            return Err(AdminError::InvalidThreshold);
        }
        if threshold < 2 {
            return Err(AdminError::ThresholdTooLow);
        }
        if proposal_expiration == 0 {
            return Err(AdminError::InvalidExpiration);
        }
        store.config = Some(MultisigConfig { signers, threshold, proposal_expiration });
        Ok(())
    }

    /// A signer proposes an action, approving it at once; the proposal
    /// expires after the configured lifetime. Returns its id, one more than
    /// the proposals before it.
    pub fn propose_admin_action(
        store: &mut AdminStorage,
        now: u64,
        proposer: Address,
        action_type: AdminActionType,
        target_contract: Option<Address>,
        parameter_key: Option<String>,
        parameter_value: Option<i128>,
        target_address: Option<Address>,
        new_threshold: Option<u32>,
    ) -> (r: Result<u64, AdminError>)
        ensures
            ({
                let s = old(store)@;
                let e = proposal_error(
                    action_type,
                    parameter_key,
                    parameter_value,
                    target_address,
                    new_threshold,
                );
                if s.config is None {
                    r == Err::<u64, _>(AdminError::NotInitialized) && final(store)@ == s
                } else if !s.is_signer(proposer) {
                    r == Err::<u64, _>(AdminError::NotASigner) && final(store)@ == s
                } else if e is Some {
                    r == Err::<u64, _>(e.unwrap()) && final(store)@ == s
                } else if s.proposal_count == u64::MAX || now + s.config.unwrap().proposal_expiration
                    > u64::MAX {
                    r == Err::<u64, _>(AdminError::MathOverflow) && final(store)@ == s
                } else {
                    let id = (s.proposal_count + 1) as u64;
                    let p = final(store)@.proposals.last();
                    &&& r == Ok::<u64, AdminError>(id)
                    &&& final(store)@.proposal_count == id
                    &&& final(store)@.proposals.drop_last() == s.proposals
                    &&& final(store)@.proposals.len() == s.proposals.len() + 1
                    &&& p.proposal_id == id
                    &&& p.proposer == proposer
                    &&& p.action_type == action_type
                    &&& p.target_contract == target_contract
                    &&& p.parameter_key == parameter_key
                    &&& p.parameter_value == parameter_value
                    &&& p.target_address == target_address
                    &&& p.new_threshold == new_threshold
                    &&& p.proposed_at == now
                    &&& p.expires_at == now + s.config.unwrap().proposal_expiration
                    &&& p.approvals@ == seq![proposer]
                    &&& !p.executed
                    &&& !p.cancelled
                    &&& final(store)@.approvals == s.approvals.push(
                        AdminApproval { proposal_id: id, signer: proposer },
                    )
                    &&& final(store)@.config == s.config
                    &&& final(store)@.emergency_stopped == s.emergency_stopped
                }
            }),
    {
        let expiration = match &store.config {
            None => return Err(AdminError::NotInitialized),
            Some(c) => c.proposal_expiration,
        };
        if !store.is_configured_signer(proposer) {
            return Err(AdminError::NotASigner);
        }
        match action_type {
            AdminActionType::ParameterChange => {
                if parameter_key.is_none() {
                    return Err(AdminError::MissingParameterKey);
                }
                if parameter_value.is_none() {
                    return Err(AdminError::MissingParameterValue);
                }
            },
            AdminActionType::AddSigner | AdminActionType::RemoveSigner => {
                if target_address.is_none() {
                    return Err(AdminError::MissingTargetAddress);
                }
            },
            AdminActionType::UpdateThreshold => {
                match new_threshold {
                    None => return Err(AdminError::MissingThreshold),
                    Some(t) => {
                        if t == 0 {
                            return Err(AdminError::InvalidThreshold);
                        }
                        if t < 2 {
                            return Err(AdminError::ThresholdTooLow);
                        }
                    },
                }
            },
            _ => {},
        }
        if store.proposal_count == u64::MAX {
            return Err(AdminError::MathOverflow);
        }
        let expires_at = match now.checked_add(expiration) {
            None => return Err(AdminError::MathOverflow),
            Some(t) => t,
        };
        let proposal_id = store.proposal_count + 1;
        store.proposal_count = proposal_id;
        let mut approvals: Vec<Address> = Vec::new();
        approvals.push(proposer);
        store.proposals.push(
            AdminProposal {
                proposal_id,
                proposer,
                action_type,
                target_contract,
                parameter_key,
                parameter_value,
                target_address,
                new_threshold,
                proposed_at: now,
                expires_at,
                approvals,
                executed: false,
                cancelled: false,
            },
        );
        store.approvals.push(AdminApproval { proposal_id, signer: proposer });
        proof {
            assert(store@.proposals.drop_last() =~= old(store)@.proposals);
        }
        Ok(proposal_id)
    }

    /// Another signer approves an open proposal, once.
    pub fn approve_admin_action(store: &mut AdminStorage, now: u64, signer: Address, proposal_id: u64) -> (r:
        Result<(), AdminError>)
        ensures
            ({
                let s = old(store)@;
                match open_proposal_error(s, now, signer, proposal_id) {
                    Some(e) => r == Err::<(), _>(e) && final(store)@ == s,
                    None => if s.has_approved(proposal_id, signer) {
                        r == Err::<(), _>(AdminError::AlreadyApproved) && final(store)@ == s
                    } else {
                        let p = s.proposal(proposal_id).unwrap();
                        let q = final(store)@.proposals.last();
                        &&& r is Ok
                        &&& final(store)@.proposals.drop_last() == s.proposals
                        &&& final(store)@.proposals.len() == s.proposals.len() + 1
                        &&& same_proposal(q, AdminProposal { approvals: q.approvals, ..p })
                        &&& q.approvals@ == p.approvals@.push(signer)
                        &&& !q.executed && !q.cancelled
                        &&& final(store)@.approvals == s.approvals.push(
                            AdminApproval { proposal_id, signer },
                        )
                        &&& final(store)@.config == s.config
                        &&& final(store)@.proposal_count == s.proposal_count
                        &&& final(store)@.emergency_stopped == s.emergency_stopped
                    },
                }
            }),
    {
        let mut proposal = match store.check_open(now, signer, proposal_id) {
            Err(e) => return Err(e),
            Ok(p) => p,
        };
        if store.has_approved(proposal_id, signer) {
            return Err(AdminError::AlreadyApproved);
        }
        proposal.approvals.push(signer);
        store.proposals.push(proposal);
        store.approvals.push(AdminApproval { proposal_id, signer });
        proof {
            assert(store@.proposals.drop_last() =~= old(store)@.proposals);
        }
        Ok(())
    }

    /// A signer carries out an open proposal that has gathered the threshold
    /// of approvals; the proposal is then marked executed.
    pub fn execute_admin_action(store: &mut AdminStorage, now: u64, executor: Address, proposal_id: u64) -> (r:
        Result<(), AdminError>)
        ensures
            ({
                let s = old(store)@;
                match open_proposal_error(s, now, executor, proposal_id) {
                    Some(e) => r == Err::<(), _>(e) && final(store)@ == s,
                    None => {
                        let p = s.proposal(proposal_id).unwrap();
                        if p.approvals@.len() < s.threshold() {
                            r == Err::<(), _>(AdminError::InsufficientApprovals) && final(store)@
                                == s
                        } else {
                            match action_outcome(s.signers(), s.threshold(), s.emergency_stopped, p) {
                                Err(e) => r == Err::<(), _>(e) && final(store)@ == s,
                                Ok(out) => {
                                    let q = final(store)@.proposals.last();
                                    &&& r is Ok
                                    &&& final(store)@.config matches Some(c) && c.signers@
                                        == out.0 && c.threshold == out.1 && c.proposal_expiration
                                        == s.config.unwrap().proposal_expiration
                                    &&& final(store)@.emergency_stopped == out.2
                                    &&& final(store)@.proposals.drop_last() == s.proposals
                                    &&& final(store)@.proposals.len() == s.proposals.len() + 1
                                    &&& same_proposal(q, p)
                                    &&& q.executed && !q.cancelled
                                    &&& final(store)@.approvals == s.approvals
                                    &&& final(store)@.proposal_count == s.proposal_count
                                },
                            }
                        }
                    },
                }
            }),
    {
        let mut proposal = match store.check_open(now, executor, proposal_id) {
            Err(e) => return Err(e),
            Ok(p) => p,
        };
        let (signers, threshold, expiration) = match &store.config {
            None => return Err(AdminError::NotInitialized),
            Some(c) => (copy_addresses(&c.signers), c.threshold, c.proposal_expiration),
        };
        if proposal.approvals.len() < threshold as usize {
            return Err(AdminError::InsufficientApprovals);
        }
        let mut new_signers = signers;
        let mut new_threshold = threshold;
        let mut stopped = store.emergency_stopped;
        match proposal.action_type {
            AdminActionType::EmergencyStop => {
                stopped = true;
            },
            AdminActionType::EmergencyResume => {
                stopped = false;
            },
            AdminActionType::AddSigner => {
                let a = match proposal.target_address {
                    None => return Err(AdminError::MissingTargetAddress),
                    Some(a) => a,
                };
                if is_signer(&new_signers, a) {
                    return Err(AdminError::AlreadySigner);
                }
                new_signers.push(a);
            },
            AdminActionType::RemoveSigner => {
                let a = match proposal.target_address {
                    None => return Err(AdminError::MissingTargetAddress),
                    Some(a) => a,
                };
                if !is_signer(&new_signers, a) {
                    return Err(AdminError::SignerNotFound);
                }
                let rest = without_signer(&new_signers, a);
                if rest.len() < threshold as usize {
                    return Err(AdminError::BelowThreshold);
                }
                new_signers = rest;
            },
            AdminActionType::UpdateThreshold => {
                let t = match proposal.new_threshold {
                    None => return Err(AdminError::MissingThreshold),
                    Some(t) => t,
                };
                if new_signers.len() < t as usize {
                    return Err(AdminError::ThresholdExceedsSigners);
                }
                if t < 2 {
                    return Err(AdminError::ThresholdTooLow);
                }
                new_threshold = t;
            },
            AdminActionType::ParameterChange => {
                if proposal.parameter_key.is_none() {
                    return Err(AdminError::MissingParameterKey);
                }
                if proposal.parameter_value.is_none() {
                    return Err(AdminError::MissingParameterValue);
                }
            },
            AdminActionType::ContractUpgrade => {},
        }
        store.config = Some(
            MultisigConfig {
                signers: new_signers,
                threshold: new_threshold,
                proposal_expiration: expiration,
            },
        );
        store.emergency_stopped = stopped;
        proposal.executed = true;
        store.proposals.push(proposal);
        proof {
            assert(store@.proposals.drop_last() =~= old(store)@.proposals);
        }
        Ok(())
    }

    /// The proposer withdraws a proposal that was neither executed nor
    /// cancelled.
    pub fn cancel_proposal(store: &mut AdminStorage, proposer: Address, proposal_id: u64) -> (r: Result<
        (),
        AdminError,
    >)
        ensures
            ({
                let s = old(store)@;
                match s.proposal(proposal_id) {
                    None => r == Err::<(), _>(AdminError::ProposalNotFound) && final(store)@ == s,
                    Some(p) => if p.proposer != proposer {
                        r == Err::<(), _>(AdminError::OnlyProposerCanCancel) && final(store)@ == s
                    } else if p.executed {
                        r == Err::<(), _>(AdminError::AlreadyExecuted) && final(store)@ == s
                    } else if p.cancelled {
                        r == Err::<(), _>(AdminError::ProposalCancelled) && final(store)@ == s
                    } else {
                        let q = final(store)@.proposals.last();
                        &&& r is Ok
                        &&& final(store)@.proposals.drop_last() == s.proposals
                        &&& final(store)@.proposals.len() == s.proposals.len() + 1
                        &&& same_proposal(q, p)
                        &&& q.cancelled && !q.executed
                        &&& final(store)@.config == s.config
                        &&& final(store)@.approvals == s.approvals
                        &&& final(store)@.proposal_count == s.proposal_count
                        &&& final(store)@.emergency_stopped == s.emergency_stopped
                    },
                }
            }),
    {
        let mut proposal = match store.get_proposal(proposal_id) {
            None => return Err(AdminError::ProposalNotFound),
            Some(p) => p,
        };
        if proposal.proposer != proposer {
            return Err(AdminError::OnlyProposerCanCancel);
        }
        if proposal.executed {
            return Err(AdminError::AlreadyExecuted);
        }
        if proposal.cancelled {
            return Err(AdminError::ProposalCancelled);
        }
        proposal.cancelled = true;
        store.proposals.push(proposal);
        proof {
            assert(store@.proposals.drop_last() =~= old(store)@.proposals);
        }
        Ok(())
    }

    pub fn get_proposal(store: &AdminStorage, proposal_id: u64) -> (r: Option<AdminProposal>)
        ensures
            r is Some <==> store@.proposal(proposal_id) is Some,
            r is Some ==> same_proposal(r.unwrap(), store@.proposal(proposal_id).unwrap())
                && r.unwrap().executed == store@.proposal(proposal_id).unwrap().executed
                && r.unwrap().cancelled == store@.proposal(proposal_id).unwrap().cancelled,
    {
        store.get_proposal(proposal_id)
    }

    /// The signers and the threshold, if the multisig is set up.
    pub fn get_multisig_config(store: &AdminStorage) -> (r: Option<(Vec<Address>, u32)>)
        ensures
            r is Some <==> store@.config is Some,
            r matches Some(m) ==> m.0@ == store@.signers() && m.1 == store@.threshold(),
    {
        match &store.config {
            None => None,
            Some(c) => Some((copy_addresses(&c.signers), c.threshold)),
        }
    }

    pub fn get_proposal_count(store: &AdminStorage) -> (r: u64)
        ensures
            r == store@.proposal_count,
    {
        store.proposal_count
    }

    pub fn is_emergency_stopped(store: &AdminStorage) -> (r: bool)
        ensures
            r == store@.emergency_stopped,
    {
        store.emergency_stopped
    }

    pub fn has_approved(store: &AdminStorage, proposal_id: u64, signer: Address) -> (r: bool)
        ensures
            r == store@.has_approved(proposal_id, signer),
    {
        store.has_approved(proposal_id, signer)
    }

    pub fn is_signer_address(store: &AdminStorage, address: Address) -> (r: bool)
        ensures
            r == store@.is_signer(address),
    {
        store.is_configured_signer(address)
    }
}

} // verus!
