use vstd::prelude::*;

use crate::address::Address;
use crate::seqs::{last_of, lemma_filter_prefix_step};

verus! {

/// Whether the proxied contract is serving calls.
#[derive(Clone, Copy, Debug, PartialEq, Eq, Structural)]
pub enum ProxyState {
    Active,
    Paused,
    Upgrading,
}

#[derive(Clone, Copy, Debug, PartialEq, Eq, Structural)]
pub enum ProxyError {
    AlreadyInitialized,
    NotInitialized,
    MultisigNotConfigured,
    ThresholdExceedsSigners,
    InvalidThreshold,
    NotASigner,
    ProposalNotFound,
    AlreadyExecuted,
    AlreadyApproved,
    InsufficientApprovals,
    Unauthorized,
    WrongState,
    MigrationNotFound,
    MigrationCompleted,
    MathOverflow,
}

/// The proxy's settings: which implementation it forwards to, at which
/// version, and with which storage layout.
#[derive(Clone, Copy, Debug)]
pub struct ProxyConfig {
    pub admin: Address,
    pub implementation: [u8; 32],
    pub state: ProxyState,
    pub version: u32,
    pub storage_version: u32,
}

/// The signers whose approvals an upgrade needs, and how many of them.
#[derive(Debug)]
pub struct MultisigConfig {
    pub signers: Vec<Address>,
    pub threshold: u32,
    pub proposal_count: u64,
}

#[derive(Debug)]
pub struct UpgradeProposal {
    pub proposal_id: u64,
    pub new_implementation: [u8; 32],
    pub new_storage_version: Option<u32>,
    pub proposed_at: u64,
    pub approvals: Vec<Address>,
    pub executed: bool,
}

/// A storage layout change that an upgrade asks for; an admin marks it done.
#[derive(Clone, Copy, Debug, PartialEq, Eq, Structural)]
pub struct StorageMigration {
    pub from_version: u32,
    pub to_version: u32,
    pub completed: bool,
}

#[derive(Clone, Copy, Debug, PartialEq, Eq, Structural)]
pub struct ApprovalRecord {
    pub proposal_id: u64,
    pub signer: Address,
}

/// The records of the proxy; a later record under the same key wins.
pub struct ProxyLedger {
    pub config: Option<ProxyConfig>,
    pub multisig: Option<MultisigConfig>,
    pub proposal_count: u64,
    pub proposals: Seq<UpgradeProposal>,
    pub approvals: Seq<ApprovalRecord>,
    pub migrations: Seq<StorageMigration>,
}

pub open spec fn of_upgrade(proposal_id: u64) -> spec_fn(UpgradeProposal) -> bool {
    |p: UpgradeProposal| p.proposal_id == proposal_id
}

pub open spec fn of_migration(from_version: u32, to_version: u32) -> spec_fn(StorageMigration) -> bool {
    |m: StorageMigration| m.from_version == from_version && m.to_version == to_version
}

impl ProxyLedger {
    pub open spec fn proposal(self, proposal_id: u64) -> Option<UpgradeProposal> {
        last_of(self.proposals, of_upgrade(proposal_id))
    }

    pub open spec fn migration(self, from_version: u32, to_version: u32) -> Option<StorageMigration> {
        last_of(self.migrations, of_migration(from_version, to_version))
    }

    pub open spec fn has_approved(self, proposal_id: u64, signer: Address) -> bool {
        exists|i: int|
            0 <= i < self.approvals.len() && (#[trigger] self.approvals[i]).proposal_id
                == proposal_id && self.approvals[i].signer == signer
    }

    /// Whether `a` is one of the configured signers.
    pub open spec fn is_signer(self, a: Address) -> bool {
        self.multisig is Some && self.multisig.unwrap().signers@.contains(a)
    }
}

/// The proxy's keyed store.
pub struct ProxyStorage {
    config: Option<ProxyConfig>,
    multisig: Option<MultisigConfig>,
    proposal_count: u64,
    proposals: Vec<UpgradeProposal>,
    approvals: Vec<ApprovalRecord>,
    migrations: Vec<StorageMigration>,
}

impl View for ProxyStorage {
    type V = ProxyLedger;

    closed spec fn view(&self) -> ProxyLedger {
        ProxyLedger {
            config: self.config,
            multisig: self.multisig,
            proposal_count: self.proposal_count,
            proposals: self.proposals@,
            approvals: self.approvals@,
            migrations: self.migrations@,
        }
    }
}

/// A copy of a list of addresses, element by element.
pub fn copy_addresses(v: &Vec<Address>) -> (c: Vec<Address>)
    ensures
        c@ == v@,
{
    let mut c: Vec<Address> = Vec::new();
    let mut i: usize = 0;
    while i < v.len()
        invariant
            i <= v@.len(),
            c@ == v@.subrange(0, i as int),
        decreases v@.len() - i,
    {
        c.push(v[i]);
        proof {
            assert(v@.subrange(0, i + 1) =~= v@.subrange(0, i as int).push(v@[i as int]));
        }
        i = i + 1;
    }
    proof {
        assert(v@.subrange(0, i as int) =~= v@);
    }
    c
}

pub fn copy_proposal(p: &UpgradeProposal) -> (c: UpgradeProposal)
    ensures
        c.proposal_id == p.proposal_id,
        c.new_implementation == p.new_implementation,
        c.new_storage_version == p.new_storage_version,
        c.proposed_at == p.proposed_at,
        c.approvals@ == p.approvals@,
        c.executed == p.executed,
{
    UpgradeProposal {
        proposal_id: p.proposal_id,
        new_implementation: p.new_implementation,
        new_storage_version: p.new_storage_version,
        proposed_at: p.proposed_at,
        approvals: copy_addresses(&p.approvals),
        executed: p.executed,
    }
}

/// Whether `address` is in `signers`.
pub fn is_signer(signers: &Vec<Address>, address: Address) -> (r: bool)
    ensures
        r == signers@.contains(address),
{
    let mut i: usize = 0;
    while i < signers.len()
        invariant
            i <= signers@.len(),
            forall|k: int| 0 <= k < i ==> signers@[k] != address,
        decreases signers@.len() - i,
    {
        if signers[i] == address {
            assert(signers@[i as int] == address);
            return true;
        }
        i = i + 1;
    }
    false
}

impl ProxyStorage {
    pub fn new() -> (r: ProxyStorage)
        ensures
            r@.config is None,
            r@.multisig is None,
            r@.proposal_count == 0,
            r@.proposals.len() == 0,
            r@.approvals.len() == 0,
            r@.migrations.len() == 0,
    {
        ProxyStorage {
            config: None,
            multisig: None,
            proposal_count: 0,
            proposals: Vec::new(),
            approvals: Vec::new(),
            migrations: Vec::new(),
        }
    }

    pub fn get_config(&self) -> (r: Option<ProxyConfig>)
        ensures
            r == self@.config,
    {
        self.config
    }

    /// Whether `address` is one of the configured signers; none before a
    /// multisig is configured.
    pub fn is_configured_signer(&self, address: Address) -> (r: bool)
        ensures
            r == self@.is_signer(address),
    {
        match &self.multisig {
            None => false,
            Some(m) => is_signer(&m.signers, address),
        }
    }

    pub fn get_upgrade_proposal(&self, proposal_id: u64) -> (r: Option<UpgradeProposal>)
        ensures
            r is Some <==> self@.proposal(proposal_id) is Some,
            r is Some ==> {
                let p = self@.proposal(proposal_id).unwrap();
                let q = r.unwrap();
                &&& q.proposal_id == p.proposal_id
                &&& q.new_implementation == p.new_implementation
                &&& q.new_storage_version == p.new_storage_version
                &&& q.proposed_at == p.proposed_at
                &&& q.approvals@ == p.approvals@
                &&& q.executed == p.executed
            },
    {
        let ghost p = of_upgrade(proposal_id);
        let mut found: Option<usize> = None;
        let mut i: usize = 0;
        while i < self.proposals.len()
            invariant
                i <= self.proposals@.len(),
                p == of_upgrade(proposal_id),
                found is None ==> last_of(self.proposals@.subrange(0, i as int), p) is None,
                found is Some ==> found.unwrap() < i && last_of(
                    self.proposals@.subrange(0, i as int),
                    p,
                ) == Some(self.proposals@[found.unwrap() as int]),
            decreases self.proposals@.len() - i,
        {
            proof {
                lemma_filter_prefix_step(self.proposals@, p, i as int);
            }
            if self.proposals[i].proposal_id == proposal_id {
                found = Some(i);
            }
            i = i + 1;
        }
        proof {
            assert(self.proposals@.subrange(0, i as int) =~= self.proposals@);
        }
        match found {
            None => None,
            Some(k) => Some(copy_proposal(&self.proposals[k])),
        }
    }

    pub fn has_approved(&self, proposal_id: u64, signer: Address) -> (r: bool)
        ensures
            r == self@.has_approved(proposal_id, signer),
    {
        let mut i: usize = 0;
        while i < self.approvals.len()
            invariant
                i <= self.approvals@.len(),
                forall|k: int|
                    0 <= k < i ==> !((#[trigger] self.approvals@[k]).proposal_id == proposal_id
                        && self.approvals@[k].signer == signer),
            decreases self.approvals@.len() - i,
        {
            let a = self.approvals[i];
            if a.proposal_id == proposal_id && a.signer == signer {
                assert(self@.approvals[i as int] == a);
                return true;
            }
            i = i + 1;
        }
        false
    }

    pub fn get_storage_migration(&self, from_version: u32, to_version: u32) -> (r: Option<
        StorageMigration,
    >)
        ensures
            r == self@.migration(from_version, to_version),
    {
        let ghost p = of_migration(from_version, to_version);
        let mut found: Option<StorageMigration> = None;
        let mut i: usize = 0;
        while i < self.migrations.len()
            invariant
                i <= self.migrations@.len(),
                p == of_migration(from_version, to_version),
                found == last_of(self.migrations@.subrange(0, i as int), p),
            decreases self.migrations@.len() - i,
        {
            proof {
                lemma_filter_prefix_step(self.migrations@, p, i as int);
            }
            let m = self.migrations[i];
            if m.from_version == from_version && m.to_version == to_version {
                found = Some(m);
            }
            i = i + 1;
        }
        proof {
            assert(self.migrations@.subrange(0, i as int) =~= self.migrations@);
        }
        found
    }
}

/// The proxy's operations.
pub struct ContractProxy;

impl ContractProxy {
    /// Points the proxy at its first implementation and names the signers.
    pub fn initialize(
        store: &mut ProxyStorage,
        admin: Address,
        implementation: [u8; 32],
        signers: Vec<Address>,
        threshold: u32,
    ) -> (r: Result<(), ProxyError>)
        ensures
            ({
                let s = old(store)@;
                if s.config is Some {
                    r == Err::<(), _>(ProxyError::AlreadyInitialized) && final(store)@ == s
                } else if signers@.len() < threshold {
                    r == Err::<(), _>(ProxyError::ThresholdExceedsSigners) && final(store)@ == s
                } else if threshold == 0 {
                    r == Err::<(), _>(ProxyError::InvalidThreshold) && final(store)@ == s
                } else {
                    &&& r is Ok
                    &&& final(store)@.config == Some(
                        ProxyConfig {
                            admin,
                            implementation,
                            state: ProxyState::Active,
                            version: 1,
                            storage_version: 1,
                        },
                    )
                    &&& final(store)@.multisig matches Some(m) && m.signers@ == signers@
                        && m.threshold == threshold && m.proposal_count == 0
                    &&& final(store)@.proposals == s.proposals
                    &&& final(store)@.approvals == s.approvals
                    &&& final(store)@.migrations == s.migrations
                    &&& final(store)@.proposal_count == s.proposal_count
                }
            }),
    {
        if store.config.is_some() {
            return Err(ProxyError::AlreadyInitialized);
        }
        if signers.len() < threshold as usize {
            return Err(ProxyError::ThresholdExceedsSigners);
        }
        if threshold == 0 {
            return Err(ProxyError::InvalidThreshold);
        }
        store.config = Some(
            ProxyConfig {
                admin,
                implementation,
                state: ProxyState::Active,
                version: 1,
                storage_version: 1,
            },
        );
        store.multisig = Some(MultisigConfig { signers, threshold, proposal_count: 0 });
        Ok(())
    }

    /// A signer proposes a new implementation, approving it at once; returns
    /// the proposal's id, one more than the proposals before it.
    pub fn propose_upgrade(
        store: &mut ProxyStorage,
        now: u64,
        proposer: Address,
        new_implementation: [u8; 32],
        new_storage_version: Option<u32>,
    ) -> (r: Result<u64, ProxyError>)
        ensures
            ({
                let s = old(store)@;
                if s.multisig is None {
                    r == Err::<u64, _>(ProxyError::MultisigNotConfigured) && final(store)@ == s
                } else if !s.is_signer(proposer) {
                    r == Err::<u64, _>(ProxyError::NotASigner) && final(store)@ == s
                } else if s.proposal_count == u64::MAX {
                    r == Err::<u64, _>(ProxyError::MathOverflow) && final(store)@ == s
                } else {
                    let id = (s.proposal_count + 1) as u64;
                    let p = final(store)@.proposals.last();
                    &&& r == Ok::<u64, ProxyError>(id)
                    &&& final(store)@.proposal_count == id
                    &&& final(store)@.proposals.drop_last() == s.proposals
                    &&& final(store)@.proposals.len() == s.proposals.len() + 1
                    &&& p.proposal_id == id
                    &&& p.new_implementation == new_implementation
                    &&& p.new_storage_version == new_storage_version
                    &&& p.proposed_at == now
                    &&& p.approvals@ == seq![proposer]
                    &&& !p.executed
                    &&& final(store)@.approvals == s.approvals.push(
                        ApprovalRecord { proposal_id: id, signer: proposer },
                    )
                    &&& final(store)@.config == s.config
                    &&& final(store)@.multisig == s.multisig
                    &&& final(store)@.migrations == s.migrations
                }
            }),
    {
        if store.multisig.is_none() {
            return Err(ProxyError::MultisigNotConfigured);
        }
        if !store.is_configured_signer(proposer) {
            return Err(ProxyError::NotASigner);
        }
        if store.proposal_count == u64::MAX {
            return Err(ProxyError::MathOverflow);
        }
        let proposal_id = store.proposal_count + 1;
        store.proposal_count = proposal_id;
        let mut approvals: Vec<Address> = Vec::new();
        approvals.push(proposer);
        store.proposals.push(
            UpgradeProposal {
                proposal_id,
                new_implementation,
                new_storage_version,
                proposed_at: now,
                approvals,
                executed: false,
            },
        );
        store.approvals.push(ApprovalRecord { proposal_id, signer: proposer });
        proof {
            assert(store@.proposals.drop_last() =~= old(store)@.proposals);
        }
        Ok(proposal_id)
    }

    /// Another signer approves a pending proposal, once.
    pub fn approve_upgrade(store: &mut ProxyStorage, signer: Address, proposal_id: u64) -> (r: Result<
        (),
        ProxyError,
    >)
        ensures
            ({
                let s = old(store)@;
                if s.multisig is None {
                    r == Err::<(), _>(ProxyError::MultisigNotConfigured) && final(store)@ == s
                } else if !s.is_signer(signer) {
                    r == Err::<(), _>(ProxyError::NotASigner) && final(store)@ == s
                } else if s.proposal(proposal_id) is None {
                    r == Err::<(), _>(ProxyError::ProposalNotFound) && final(store)@ == s
                } else if s.proposal(proposal_id).unwrap().executed {
                    r == Err::<(), _>(ProxyError::AlreadyExecuted) && final(store)@ == s
                } else if s.has_approved(proposal_id, signer) {
                    r == Err::<(), _>(ProxyError::AlreadyApproved) && final(store)@ == s
                } else {
                    let old_p = s.proposal(proposal_id).unwrap();
                    let p = final(store)@.proposals.last();
                    &&& r is Ok
                    &&& final(store)@.proposals.drop_last() == s.proposals
                    &&& final(store)@.proposals.len() == s.proposals.len() + 1
                    &&& p.proposal_id == proposal_id
                    &&& p.new_implementation == old_p.new_implementation
                    &&& p.new_storage_version == old_p.new_storage_version
                    &&& p.proposed_at == old_p.proposed_at
                    &&& p.approvals@ == old_p.approvals@.push(signer)
                    &&& !p.executed
                    &&& final(store)@.approvals == s.approvals.push(
                        ApprovalRecord { proposal_id, signer },
                    )
                    &&& final(store)@.config == s.config
                    &&& final(store)@.multisig == s.multisig
                    &&& final(store)@.migrations == s.migrations
                    &&& final(store)@.proposal_count == s.proposal_count
                }
            }),
    {
        if store.multisig.is_none() {
            return Err(ProxyError::MultisigNotConfigured);
        }
        if !store.is_configured_signer(signer) {
            return Err(ProxyError::NotASigner);
        }
        let mut proposal = match store.get_upgrade_proposal(proposal_id) {
            None => return Err(ProxyError::ProposalNotFound),
            Some(p) => p,
        };
        if proposal.executed {
            return Err(ProxyError::AlreadyExecuted);
        }
        if store.has_approved(proposal_id, signer) {
            return Err(ProxyError::AlreadyApproved);
        }
        proposal.approvals.push(signer);
        store.proposals.push(proposal);
        store.approvals.push(ApprovalRecord { proposal_id, signer });
        proof {
            assert(store@.proposals.drop_last() =~= old(store)@.proposals);
        }
        Ok(())
    }

    /// A signer carries out a proposal that has gathered the threshold of
    /// approvals: the proxy moves to the new implementation and its version
    /// goes up by one; a new storage version records a migration to do.
    pub fn upgrade_to(store: &mut ProxyStorage, executor: Address, proposal_id: u64) -> (r: Result<
        (),
        ProxyError,
    >)
        ensures
            ({
                let s = old(store)@;
                if s.multisig is None {
                    r == Err::<(), _>(ProxyError::MultisigNotConfigured) && final(store)@ == s
                } else if !s.is_signer(executor) {
                    r == Err::<(), _>(ProxyError::NotASigner) && final(store)@ == s
                } else if s.proposal(proposal_id) is None {
                    r == Err::<(), _>(ProxyError::ProposalNotFound) && final(store)@ == s
                } else if s.proposal(proposal_id).unwrap().executed {
                    r == Err::<(), _>(ProxyError::AlreadyExecuted) && final(store)@ == s
                } else if s.proposal(proposal_id).unwrap().approvals@.len()
                    < s.multisig.unwrap().threshold {
                    r == Err::<(), _>(ProxyError::InsufficientApprovals) && final(store)@ == s
                } else if s.config is None {
                    r == Err::<(), _>(ProxyError::NotInitialized) && final(store)@ == s
                } else if s.config.unwrap().version == u32::MAX {
                    r == Err::<(), _>(ProxyError::MathOverflow) && final(store)@ == s
                } else {
                    let c = s.config.unwrap();
                    let p = s.proposal(proposal_id).unwrap();
                    let q = final(store)@.proposals.last();
                    &&& r is Ok
                    &&& final(store)@.config == Some(
                        ProxyConfig {
                            implementation: p.new_implementation,
                            version: (c.version + 1) as u32,
                            storage_version: match p.new_storage_version {
                                Some(v) => v,
                                None => c.storage_version,
                            },
                            state: ProxyState::Active,
                            ..c
                        },
                    )
                    &&& final(store)@.migrations == match p.new_storage_version {
                        Some(v) => s.migrations.push(
                            StorageMigration {
                                from_version: c.storage_version,
                                to_version: v,
                                completed: false,
                            },
                        ),
                        None => s.migrations,
                    }
                    &&& final(store)@.proposals.drop_last() == s.proposals
                    &&& final(store)@.proposals.len() == s.proposals.len() + 1
                    &&& q.proposal_id == proposal_id
                    &&& q.new_implementation == p.new_implementation
                    &&& q.new_storage_version == p.new_storage_version
                    &&& q.proposed_at == p.proposed_at
                    &&& q.approvals@ == p.approvals@
                    &&& q.executed
                    &&& final(store)@.approvals == s.approvals
                    &&& final(store)@.multisig == s.multisig
                    &&& final(store)@.proposal_count == s.proposal_count
                }
            }),
    {
        let threshold = match &store.multisig {
            None => return Err(ProxyError::MultisigNotConfigured),
            Some(m) => m.threshold,
        };
        if !store.is_configured_signer(executor) {
            return Err(ProxyError::NotASigner);
        }
        let mut proposal = match store.get_upgrade_proposal(proposal_id) {
            None => return Err(ProxyError::ProposalNotFound),
            Some(p) => p,
        };
        if proposal.executed {
            return Err(ProxyError::AlreadyExecuted);
        }
        if proposal.approvals.len() < threshold as usize {
            return Err(ProxyError::InsufficientApprovals);
        }
        let mut config = match store.config {
            None => return Err(ProxyError::NotInitialized),
            Some(c) => c,
        };
        if config.version == u32::MAX {
            return Err(ProxyError::MathOverflow);
        }
        config.implementation = proposal.new_implementation;
        config.version = config.version + 1;
        match proposal.new_storage_version {
            Some(v) => {
                store.migrations.push(
                    StorageMigration {
                        from_version: config.storage_version,
                        to_version: v,
                        completed: false,
                    },
                );
                config.storage_version = v;
            },
            None => {},
        }
        config.state = ProxyState::Active;
        store.config = Some(config);
        proposal.executed = true;
        store.proposals.push(proposal);
        proof {
            assert(store@.proposals.drop_last() =~= old(store)@.proposals);
        }
        Ok(())
    }

    fn set_state(store: &mut ProxyStorage, admin: Address, state: ProxyState) -> (r: Result<
        (),
        ProxyError,
    >)
        ensures
            ({
                let s = old(store)@;
                match s.config {
                    None => r == Err::<(), _>(ProxyError::NotInitialized) && final(store)@ == s,
                    Some(c) => if c.admin != admin {
                        r == Err::<(), _>(ProxyError::Unauthorized) && final(store)@ == s
                    } else {
                        r is Ok && final(store)@ == (ProxyLedger {
                            config: Some(ProxyConfig { state, ..c }),
                            ..s
                        })
                    },
                }
            }),
    {
        let mut config = match store.config {
            None => return Err(ProxyError::NotInitialized),
            Some(c) => c,
        };
        if config.admin != admin {
            return Err(ProxyError::Unauthorized);
        }
        config.state = state;
        store.config = Some(config);
        Ok(())
    }

    /// The admin pauses the proxy.
    pub fn pause_contract(store: &mut ProxyStorage, admin: Address) -> (r: Result<(), ProxyError>)
        ensures
            ({
                let s = old(store)@;
                match s.config {
                    None => r == Err::<(), _>(ProxyError::NotInitialized) && final(store)@ == s,
                    Some(c) => if c.admin != admin {
                        r == Err::<(), _>(ProxyError::Unauthorized) && final(store)@ == s
                    } else {
                        r is Ok && final(store)@ == (ProxyLedger {
                            config: Some(ProxyConfig { state: ProxyState::Paused, ..c }),
                            ..s
                        })
                    },
                }
            }),
    {
        Self::set_state(store, admin, ProxyState::Paused)
    }

    /// The admin resumes the proxy.
    pub fn unpause_contract(store: &mut ProxyStorage, admin: Address) -> (r: Result<(), ProxyError>)
        ensures
            ({
                let s = old(store)@;
                match s.config {
                    None => r == Err::<(), _>(ProxyError::NotInitialized) && final(store)@ == s,
                    Some(c) => if c.admin != admin {
                        r == Err::<(), _>(ProxyError::Unauthorized) && final(store)@ == s
                    } else {
                        r is Ok && final(store)@ == (ProxyLedger {
                            config: Some(ProxyConfig { state: ProxyState::Active, ..c }),
                            ..s
                        })
                    },
                }
            }),
    {
        Self::set_state(store, admin, ProxyState::Active)
    }

    /// The admin marks a recorded migration done, while the proxy is paused
    /// or upgrading.
    pub fn migrate_storage(store: &mut ProxyStorage, migrator: Address, from_version: u32, to_version: u32) -> (r:
        Result<(), ProxyError>)
        ensures
            ({
                let s = old(store)@;
                match s.config {
                    None => r == Err::<(), _>(ProxyError::NotInitialized) && final(store)@ == s,
                    Some(c) => if c.admin != migrator {
                        r == Err::<(), _>(ProxyError::Unauthorized) && final(store)@ == s
                    } else if c.state != ProxyState::Upgrading && c.state != ProxyState::Paused {
                        r == Err::<(), _>(ProxyError::WrongState) && final(store)@ == s
                    } else {
                        match s.migration(from_version, to_version) {
                            None => r == Err::<(), _>(ProxyError::MigrationNotFound)
                                && final(store)@ == s,
                            Some(m) => if m.completed {
                                r == Err::<(), _>(ProxyError::MigrationCompleted) && final(store)@
                                    == s
                            } else {
                                r is Ok && final(store)@ == (ProxyLedger {
                                    migrations: s.migrations.push(
                                        StorageMigration { completed: true, ..m },
                                    ),
                                    ..s
                                })
                            },
                        }
                    },
                }
            }),
    {
        let config = match store.config {
            None => return Err(ProxyError::NotInitialized),
            Some(c) => c,
        };
        if config.admin != migrator {
            return Err(ProxyError::Unauthorized);
        }
        if config.state != ProxyState::Upgrading && config.state != ProxyState::Paused {
            return Err(ProxyError::WrongState);
        }
        let mut migration = match store.get_storage_migration(from_version, to_version) {
            None => return Err(ProxyError::MigrationNotFound),
            Some(m) => m,
        };
        if migration.completed {
            return Err(ProxyError::MigrationCompleted);
        }
        migration.completed = true;
        store.migrations.push(migration);
        Ok(())
    }

    /// The admin replaces the signers and the threshold.
    pub fn update_multisig(
        store: &mut ProxyStorage,
        admin: Address,
        new_signers: Vec<Address>,
        new_threshold: u32,
    ) -> (r: Result<(), ProxyError>)
        ensures
            ({
                let s = old(store)@;
                match s.config {
                    None => r == Err::<(), _>(ProxyError::NotInitialized) && final(store)@ == s,
                    Some(c) => if c.admin != admin {
                        r == Err::<(), _>(ProxyError::Unauthorized) && final(store)@ == s
                    } else if new_signers@.len() < new_threshold {
                        r == Err::<(), _>(ProxyError::ThresholdExceedsSigners) && final(store)@
                            == s
                    } else if new_threshold == 0 {
                        r == Err::<(), _>(ProxyError::InvalidThreshold) && final(store)@ == s
                    } else if s.multisig is None {
                        r == Err::<(), _>(ProxyError::MultisigNotConfigured) && final(store)@ == s
                    } else {
                        &&& r is Ok
                        &&& final(store)@.multisig matches Some(m) && m.signers@ == new_signers@
                            && m.threshold == new_threshold && m.proposal_count
                            == s.multisig.unwrap().proposal_count
                        &&& final(store)@.config == s.config
                        &&& final(store)@.proposals == s.proposals
                        &&& final(store)@.approvals == s.approvals
                        &&& final(store)@.migrations == s.migrations
                        &&& final(store)@.proposal_count == s.proposal_count
                    },
                }
            }),
    {
        let config = match store.config {
            None => return Err(ProxyError::NotInitialized),
            Some(c) => c,
        };
        if config.admin != admin {
            return Err(ProxyError::Unauthorized);
        }
        if new_signers.len() < new_threshold as usize {
            return Err(ProxyError::ThresholdExceedsSigners);
        }
        if new_threshold == 0 {
            return Err(ProxyError::InvalidThreshold);
        }
        let proposal_count = match &store.multisig {
            None => return Err(ProxyError::MultisigNotConfigured),
            Some(m) => m.proposal_count,
        };
        store.multisig = Some(
            MultisigConfig { signers: new_signers, threshold: new_threshold, proposal_count },
        );
        Ok(())
    }

    pub fn get_implementation(store: &ProxyStorage) -> (r: Option<[u8; 32]>)
        ensures
            r == match store@.config {
                Some(c) => Some(c.implementation),
                None => None,
            },
    {
        match store.config {
            Some(c) => Some(c.implementation),
            None => None,
        }
    }

    pub fn get_proxy_state(store: &ProxyStorage) -> (r: Option<ProxyState>)
        ensures
            r == match store@.config {
                Some(c) => Some(c.state),
                None => None,
            },
    {
        match store.config {
            Some(c) => Some(c.state),
            None => None,
        }
    }

    pub fn get_version(store: &ProxyStorage) -> (r: Option<u32>)
        ensures
            r == match store@.config {
                Some(c) => Some(c.version),
                None => None,
            },
    {
        match store.config {
            Some(c) => Some(c.version),
            None => None,
        }
    }

    pub fn get_storage_version(store: &ProxyStorage) -> (r: Option<u32>)
        ensures
            r == match store@.config {
                Some(c) => Some(c.storage_version),
                None => None,
            },
    {
        match store.config {
            Some(c) => Some(c.storage_version),
            None => None,
        }
    }

    pub fn get_upgrade_proposal(store: &ProxyStorage, proposal_id: u64) -> (r: Option<UpgradeProposal>)
        ensures
            r is Some <==> store@.proposal(proposal_id) is Some,
            r is Some ==> r.unwrap().approvals@ == store@.proposal(proposal_id).unwrap().approvals@
                && r.unwrap().executed == store@.proposal(proposal_id).unwrap().executed,
    {
        store.get_upgrade_proposal(proposal_id)
    }

    /// The signers and the threshold, if a multisig is configured.
    pub fn get_multisig_config(store: &ProxyStorage) -> (r: Option<(Vec<Address>, u32)>)
        ensures
            r is Some <==> store@.multisig is Some,
            r matches Some(m) ==> m.0@ == store@.multisig.unwrap().signers@ && m.1
                == store@.multisig.unwrap().threshold,
    {
        match &store.multisig {
            None => None,
            Some(m) => Some((copy_addresses(&m.signers), m.threshold)),
        }
    }

    pub fn is_paused(store: &ProxyStorage) -> (r: Option<bool>)
        ensures
            r == match store@.config {
                Some(c) => Some(c.state == ProxyState::Paused),
                None => None,
            },
    {
        match store.config {
            Some(c) => Some(c.state == ProxyState::Paused),
            None => None,
        }
    }

    pub fn is_upgrading(store: &ProxyStorage) -> (r: Option<bool>)
        ensures
            r == match store@.config {
                Some(c) => Some(c.state == ProxyState::Upgrading),
                None => None,
            },
    {
        match store.config {
            Some(c) => Some(c.state == ProxyState::Upgrading),
            None => None,
        }
    }
}

} // verus!
