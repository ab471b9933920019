use vstd::prelude::*;

use crate::address::Address;
use crate::seqs::{last_of, lemma_filter_prefix_step};

verus! {

#[derive(Clone, Copy, Debug, PartialEq, Eq, Structural)]
pub enum ProposalStatus {
    Active,
    Passed,
    Rejected,
}

#[derive(Clone, Copy, Debug, PartialEq, Eq, Structural)]
pub enum GovernanceError {
    NotInitialized,
    VotingPeriodTooShort,
    ProposalNotFound,
    AlreadyVoted,
    VotingEnded,
    VotingActive,
    NotActive,
    MathOverflow,
}

#[derive(Debug)]
pub struct Proposal {
    pub proposal_id: u64,
    pub proposer: Address,
    pub title: String,
    pub description: String,
    pub proposal_type: String,
    pub voting_start: u64,
    pub voting_end: u64,
    pub yes_votes: i128,
    pub no_votes: i128,
    pub status: ProposalStatus,
    pub executed: bool,
}

#[derive(Clone, Copy, Debug, PartialEq, Eq, Structural)]
pub struct GovernanceConfig {
    pub min_voting_period: u64,
    /// The total voting power a proposal needs to pass.
    pub quorum: i128,
    pub proposal_threshold: i128,
}

#[derive(Clone, Copy, Debug, PartialEq, Eq, Structural)]
pub struct VoteRecord {
    pub voter: Address,
    pub proposal_id: u64,
}

/// The records of the governance module; a later proposal under the same id
/// wins.
pub struct GovernanceLedger {
    pub config: Option<GovernanceConfig>,
    pub proposals: Seq<Proposal>,
    pub votes: Seq<VoteRecord>,
}

pub open spec fn of_proposal(proposal_id: u64) -> spec_fn(Proposal) -> bool {
    |p: Proposal| p.proposal_id == proposal_id
}

impl GovernanceLedger {
    pub open spec fn proposal(self, proposal_id: u64) -> Option<Proposal> {
        last_of(self.proposals, of_proposal(proposal_id))
    }

    pub open spec fn has_voted(self, voter: Address, proposal_id: u64) -> bool {
        exists|i: int|
            0 <= i < self.votes.len() && (#[trigger] self.votes[i]).voter == voter
                && self.votes[i].proposal_id == proposal_id
    }
}

/// The keyed store of the governance module.
pub struct GovernanceStorageKey {
    config: Option<GovernanceConfig>,
    proposals: Vec<Proposal>,
    votes: Vec<VoteRecord>,
}

impl View for GovernanceStorageKey {
    type V = GovernanceLedger;

    closed spec fn view(&self) -> GovernanceLedger {
        GovernanceLedger { config: self.config, proposals: self.proposals@, votes: self.votes@ }
    }
}

pub fn copy_proposal(p: &Proposal) -> (c: Proposal)
    ensures
        c == *p,
{
    Proposal {
        proposal_id: p.proposal_id,
        proposer: p.proposer,
        title: p.title.clone(),
        description: p.description.clone(),
        proposal_type: p.proposal_type.clone(),
        voting_start: p.voting_start,
        voting_end: p.voting_end,
        yes_votes: p.yes_votes,
        no_votes: p.no_votes,
        status: p.status,
        executed: p.executed,
    }
}

impl GovernanceStorageKey {
    pub fn new() -> (r: GovernanceStorageKey)
        ensures
            r@.config is None,
            r@.proposals.len() == 0,
            r@.votes.len() == 0,
    {
        GovernanceStorageKey { config: None, proposals: Vec::new(), votes: Vec::new() }
    }

    pub fn get_proposal(&self, proposal_id: u64) -> (r: Option<Proposal>)
        ensures
            r == self@.proposal(proposal_id),
    {
        let ghost p = of_proposal(proposal_id);
        let mut found: Option<usize> = None;
        let mut i: usize = 0;
        while i < self.proposals.len()
            invariant
                i <= self.proposals@.len(),
                p == of_proposal(proposal_id),
                found is None ==> last_of(self.proposals@.subrange(0, i as int), p) is None,
                found is Some ==> found.unwrap() < i && last_of(
                    self.proposals@.subrange(0, i as int),
                    p,
                ) == Some(self.proposals@[found.unwrap() as int]),
            decreases self.proposals@.len() - i,
        {
            proof {
                lemma_filter_prefix_step(self.proposals@, p, i as int);
            }
            if self.proposals[i].proposal_id == proposal_id {
                found = Some(i);
            }
            i = i + 1;
        }
        proof {
            assert(self.proposals@.subrange(0, i as int) =~= self.proposals@);
        }
        match found {
            None => None,
            Some(k) => Some(copy_proposal(&self.proposals[k])),
        }
    }

    pub fn set_proposal(&mut self, proposal: Proposal)
        ensures
            final(self)@ == (GovernanceLedger {
                proposals: old(self)@.proposals.push(proposal),
                ..old(self)@
            }),
    {
        self.proposals.push(proposal);
    }

    pub fn has_voted(&self, voter: Address, proposal_id: u64) -> (r: bool)
        ensures
            r == self@.has_voted(voter, proposal_id),
    {
        let mut i: usize = 0;
        while i < self.votes.len()
            invariant
                i <= self.votes@.len(),
                forall|k: int|
                    0 <= k < i ==> !((#[trigger] self.votes@[k]).voter == voter
                        && self.votes@[k].proposal_id == proposal_id),
            decreases self.votes@.len() - i,
        {
            let v = self.votes[i];
            if v.voter == voter && v.proposal_id == proposal_id {
                assert(self@.votes[i as int] == v);
                return true;
            }
            i = i + 1;
        }
        false
    }

    pub fn record_vote(&mut self, voter: Address, proposal_id: u64)
        ensures
            final(self)@ == (GovernanceLedger {
                votes: old(self)@.votes.push(VoteRecord { voter, proposal_id }),
                ..old(self)@
            }),
    {
        self.votes.push(VoteRecord { voter, proposal_id });
    }

    pub fn get_config(&self) -> (r: Option<GovernanceConfig>)
        ensures
            r == self@.config,
    {
        self.config
    }

    pub fn set_config(&mut self, config: GovernanceConfig)
        ensures
            final(self)@ == (GovernanceLedger { config: Some(config), ..old(self)@ }),
    {
        self.config = Some(config);
    }
}

/// Why `cast_vote` refuses, if it does.
pub open spec fn vote_error(
    s: GovernanceLedger,
    now: u64,
    voter: Address,
    proposal_id: u64,
    support: bool,
    voting_power: i128,
) -> Option<GovernanceError> {
    if s.has_voted(voter, proposal_id) {
        Some(GovernanceError::AlreadyVoted)
    } else {
        match s.proposal(proposal_id) {
            None => Some(GovernanceError::ProposalNotFound),
            Some(p) => if now > p.voting_end {
                Some(GovernanceError::VotingEnded)
            } else if p.status != ProposalStatus::Active {
                Some(GovernanceError::NotActive)
            } else if support && !(i128::MIN <= p.yes_votes + voting_power <= i128::MAX) {
                Some(GovernanceError::MathOverflow)
            } else if !support && !(i128::MIN <= p.no_votes + voting_power <= i128::MAX) {
                Some(GovernanceError::MathOverflow)
            } else {
                None
            },
        }
    }
}

/// Why `finalize_proposal` refuses, if it does.
pub open spec fn finalize_error(s: GovernanceLedger, now: u64, proposal_id: u64) -> Option<
    GovernanceError,
> {
    match s.proposal(proposal_id) {
        None => Some(GovernanceError::ProposalNotFound),
        Some(p) => if now <= p.voting_end {
            Some(GovernanceError::VotingActive)
        } else if p.status != ProposalStatus::Active {
            Some(GovernanceError::NotActive)
        } else if s.config is None {
            Some(GovernanceError::NotInitialized)
        } else if !(i128::MIN <= p.yes_votes + p.no_votes <= i128::MAX) {
            Some(GovernanceError::MathOverflow)
        } else {
            None
        },
    }
}

/// A proposal passes when the votes cast reach the quorum and the yes votes
/// outnumber the no votes.
pub open spec fn outcome(p: Proposal, c: GovernanceConfig) -> ProposalStatus {
    if p.yes_votes + p.no_votes >= c.quorum && p.yes_votes > p.no_votes {
        ProposalStatus::Passed
    } else {
        ProposalStatus::Rejected
    }
}

/// The governance module's operations.
pub struct GovernanceContract;

impl GovernanceContract {
    /// Sets the voting rules.
    pub fn initialize(
        store: &mut GovernanceStorageKey,
        min_voting_period: u64,
        quorum: i128,
        proposal_threshold: i128,
    )
        ensures
            final(store)@ == (GovernanceLedger {
                config: Some(GovernanceConfig { min_voting_period, quorum, proposal_threshold }),
                ..old(store)@
            }),
    {
        store.set_config(GovernanceConfig { min_voting_period, quorum, proposal_threshold });
    }

    /// Opens a proposal for `voting_period` seconds from now; its id is the
    /// ledger time.
    pub fn create_proposal(
        store: &mut GovernanceStorageKey,
        now: u64,
        proposer: Address,
        title: String,
        description: String,
        proposal_type: String,
        voting_period: u64,
    ) -> (r: Result<u64, GovernanceError>)
        ensures
            old(store)@.config is None ==> r == Err::<u64, _>(GovernanceError::NotInitialized)
                && final(store)@ == old(store)@,
            old(store)@.config matches Some(c) ==> {
                if voting_period < c.min_voting_period {
                    r == Err::<u64, _>(GovernanceError::VotingPeriodTooShort) && final(store)@
                        == old(store)@
                } else if now + voting_period > u64::MAX {
                    r == Err::<u64, _>(GovernanceError::MathOverflow) && final(store)@
                        == old(store)@
                } else {
                    &&& r == Ok::<u64, GovernanceError>(now)
                    &&& final(store)@ == (GovernanceLedger {
                        proposals: old(store)@.proposals.push(
                            Proposal {
                                proposal_id: now,
                                proposer,
                                title,
                                description,
                                proposal_type,
                                voting_start: now,
                                voting_end: (now + voting_period) as u64,
                                yes_votes: 0,
                                no_votes: 0,
                                status: ProposalStatus::Active,
                                executed: false,
                            },
                        ),
                        ..old(store)@
                    })
                }
            },
    {
        let config = match store.get_config() {
            None => return Err(GovernanceError::NotInitialized),
            Some(c) => c,
        };
        if voting_period < config.min_voting_period {
            return Err(GovernanceError::VotingPeriodTooShort);
        }
        let voting_end = match now.checked_add(voting_period) {
            None => return Err(GovernanceError::MathOverflow),
            Some(e) => e,
        };
        store.set_proposal(
            Proposal {
                proposal_id: now,
                proposer,
                title,
                description,
                proposal_type,
                voting_start: now,
                voting_end,
                yes_votes: 0,
                no_votes: 0,
                status: ProposalStatus::Active,
                executed: false,
            },
        );
        Ok(now)
    }

    /// Adds `voting_power` to one side of an active proposal; each voter
    /// votes once.
    pub fn cast_vote(
        store: &mut GovernanceStorageKey,
        now: u64,
        voter: Address,
        proposal_id: u64,
        support: bool,
        voting_power: i128,
    ) -> (r: Result<(), GovernanceError>)
        ensures
            match vote_error(old(store)@, now, voter, proposal_id, support, voting_power) {
                Some(e) => r == Err::<(), _>(e) && final(store)@ == old(store)@,
                None => {
                    let p = old(store)@.proposal(proposal_id).unwrap();
                    let q = if support {
                        Proposal { yes_votes: (p.yes_votes + voting_power) as i128, ..p }
                    } else {
                        Proposal { no_votes: (p.no_votes + voting_power) as i128, ..p }
                    };
                    &&& r is Ok
                    &&& final(store)@ == (GovernanceLedger {
                        proposals: old(store)@.proposals.push(q),
                        votes: old(store)@.votes.push(VoteRecord { voter, proposal_id }),
                        ..old(store)@
                    })
                },
            },
    {
        if store.has_voted(voter, proposal_id) {
            return Err(GovernanceError::AlreadyVoted);
        }
        let mut proposal = match store.get_proposal(proposal_id) {
            None => return Err(GovernanceError::ProposalNotFound),
            Some(p) => p,
        };
        if now > proposal.voting_end {
            return Err(GovernanceError::VotingEnded);
        }
        if proposal.status != ProposalStatus::Active {
            return Err(GovernanceError::NotActive);
        }
        if support {
            proposal.yes_votes = match proposal.yes_votes.checked_add(voting_power) {
                None => return Err(GovernanceError::MathOverflow),
                Some(v) => v,
            };
        } else {
            proposal.no_votes = match proposal.no_votes.checked_add(voting_power) {
                None => return Err(GovernanceError::MathOverflow),
                Some(v) => v,
            };
        }
        store.set_proposal(proposal);
        store.record_vote(voter, proposal_id);
        Ok(())
    }

    /// Closes a proposal whose voting period is over, as passed or rejected.
    pub fn finalize_proposal(store: &mut GovernanceStorageKey, now: u64, proposal_id: u64) -> (r:
        Result<ProposalStatus, GovernanceError>)
        ensures
            match finalize_error(old(store)@, now, proposal_id) {
                Some(e) => r == Err::<ProposalStatus, _>(e) && final(store)@ == old(store)@,
                None => {
                    let p = old(store)@.proposal(proposal_id).unwrap();
                    let status = outcome(p, old(store)@.config.unwrap());
                    &&& r == Ok::<_, GovernanceError>(status)
                    &&& final(store)@ == (GovernanceLedger {
                        proposals: old(store)@.proposals.push(Proposal { status, ..p }),
                        ..old(store)@
                    })
                },
            },
    {
        let mut proposal = match store.get_proposal(proposal_id) {
            None => return Err(GovernanceError::ProposalNotFound),
            Some(p) => p,
        };
        if now <= proposal.voting_end {
            return Err(GovernanceError::VotingActive);
        }
        if proposal.status != ProposalStatus::Active {
            return Err(GovernanceError::NotActive);
        }
        let config = match store.get_config() {
            None => return Err(GovernanceError::NotInitialized),
            Some(c) => c,
        };
        let total = match proposal.yes_votes.checked_add(proposal.no_votes) {
            None => return Err(GovernanceError::MathOverflow),
            Some(t) => t,
        };
        let status = if total >= config.quorum && proposal.yes_votes > proposal.no_votes {
            ProposalStatus::Passed
        } else {
            ProposalStatus::Rejected
        };
        proposal.status = status;
        store.set_proposal(proposal);
        Ok(status)
    }

    pub fn get_proposal(store: &GovernanceStorageKey, proposal_id: u64) -> (r: Option<Proposal>)
        ensures
            r == store@.proposal(proposal_id),
    {
        store.get_proposal(proposal_id)
    }

    pub fn has_voted(store: &GovernanceStorageKey, voter: Address, proposal_id: u64) -> (r: bool)
        ensures
            r == store@.has_voted(voter, proposal_id),
    {
        store.has_voted(voter, proposal_id)
    }
}

} // verus!
