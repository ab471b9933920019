use vstd::prelude::*;

use crate::address::Address;
use crate::seqs::{last_of, lemma_filter_prefix, lemma_filter_prefix_step};

verus! {

/// The contracts whose storage layouts are versioned.
#[derive(Clone, Copy, Debug, PartialEq, Eq, Structural)]
pub enum ContractType {
    Booking,
    Airline,
    Dispute,
    Governance,
    Loyalty,
    Refund,
    Token,
}

pub const BOOKING_CONTRACT: ContractType = ContractType::Booking;

pub const AIRLINE_CONTRACT: ContractType = ContractType::Airline;

pub const DISPUTE_CONTRACT: ContractType = ContractType::Dispute;

pub const GOVERNANCE_CONTRACT: ContractType = ContractType::Governance;

pub const LOYALTY_CONTRACT: ContractType = ContractType::Loyalty;

pub const REFUND_CONTRACT: ContractType = ContractType::Refund;

pub const TOKEN_CONTRACT: ContractType = ContractType::Token;

#[derive(Clone, Copy, Debug, PartialEq, Eq, Structural)]
pub enum VersionError {
    InvalidMigrationDirection,
    VersionMismatch,
}

/// A completed migration of one contract's storage.
#[derive(Debug)]
pub struct MigrationRecord {
    pub from_version: u32,
    pub to_version: u32,
    pub timestamp: u64,
    pub migration_type: String,
    pub description: String,
}

/// How far a contract's latest migration has come.
#[derive(Clone, Copy, Debug, PartialEq, Eq, Structural)]
pub struct MigrationProgress {
    pub contract_type: ContractType,
    pub from_version: u32,
    pub to_version: u32,
    pub current_step: u32,
    pub total_steps: u32,
    pub completed: bool,
    pub started_at: u64,
    pub completed_at: Option<u64>,
}

#[derive(Clone, Copy, Debug, PartialEq, Eq, Structural)]
pub struct VersionEntry {
    pub contract_type: ContractType,
    pub version: u32,
}

#[derive(Debug)]
pub struct MigrationEntry {
    pub contract_type: ContractType,
    pub record: MigrationRecord,
}

/// The versioning records; a later record under the same key wins, and each
/// contract's migrations are numbered from 1 in the order recorded.
pub struct VersionLedger {
    pub versions: Seq<VersionEntry>,
    pub progress: Seq<MigrationProgress>,
    pub migrations: Seq<MigrationEntry>,
}

pub open spec fn of_version(contract_type: ContractType) -> spec_fn(VersionEntry) -> bool {
    |v: VersionEntry| v.contract_type == contract_type
}

pub open spec fn of_progress(contract_type: ContractType) -> spec_fn(MigrationProgress) -> bool {
    |p: MigrationProgress| p.contract_type == contract_type
}

pub open spec fn of_contract(contract_type: ContractType) -> spec_fn(MigrationEntry) -> bool {
    |m: MigrationEntry| m.contract_type == contract_type
}

impl VersionLedger {
    /// A contract's storage version; 1 until one is set.
    pub open spec fn version(self, contract_type: ContractType) -> u32 {
        match last_of(self.versions, of_version(contract_type)) {
            Some(v) => v.version,
            None => 1,
        }
    }

    pub open spec fn progress_of(self, contract_type: ContractType) -> Option<MigrationProgress> {
        last_of(self.progress, of_progress(contract_type))
    }

    /// The migrations recorded for a contract, the first numbered 1.
    pub open spec fn migrations_of(self, contract_type: ContractType) -> Seq<MigrationEntry> {
        self.migrations.filter(of_contract(contract_type))
    }
}

/// The slot range reserved for a kind of data; unknown kinds get the
/// reserved range.
pub open spec fn slot_range(data_type: Seq<char>) -> (u32, u32) {
    if data_type == "config"@ {
        CONFIG_SLOTS
    } else if data_type == "user"@ {
        USER_DATA_SLOTS
    } else if data_type == "booking"@ {
        BOOKING_SLOTS
    } else if data_type == "flight"@ {
        FLIGHT_SLOTS
    } else if data_type == "dispute"@ {
        DISPUTE_SLOTS
    } else if data_type == "governance"@ {
        GOVERNANCE_SLOTS
    } else if data_type == "loyalty"@ {
        LOYALTY_SLOTS
    } else if data_type == "refund"@ {
        REFUND_SLOTS
    } else if data_type == "token"@ {
        TOKEN_SLOTS
    } else if data_type == "migration"@ {
        MIGRATION_SLOTS
    } else {
        RESERVED_SLOTS
    }
}

pub const CONFIG_SLOTS: (u32, u32) = (0, 99);

pub const USER_DATA_SLOTS: (u32, u32) = (100, 9999);

pub const BOOKING_SLOTS: (u32, u32) = (10000, 19999);

pub const FLIGHT_SLOTS: (u32, u32) = (20000, 29999);

pub const DISPUTE_SLOTS: (u32, u32) = (30000, 39999);

pub const GOVERNANCE_SLOTS: (u32, u32) = (40000, 49999);

pub const LOYALTY_SLOTS: (u32, u32) = (50000, 59999);

pub const REFUND_SLOTS: (u32, u32) = (60000, 69999);

pub const TOKEN_SLOTS: (u32, u32) = (70000, 79999);

pub const RESERVED_SLOTS: (u32, u32) = (80000, 99999);

pub const MIGRATION_SLOTS: (u32, u32) = (100000, 109999);

/// The slot range reserved for a kind of data.
pub fn get_slot_range(data_type: &String) -> (r: (u32, u32))
    ensures
        r == slot_range(data_type@),
{
    if *data_type == "config".to_owned() {
        CONFIG_SLOTS
    } else if *data_type == "user".to_owned() {
        USER_DATA_SLOTS
    } else if *data_type == "booking".to_owned() {
        BOOKING_SLOTS
    } else if *data_type == "flight".to_owned() {
        FLIGHT_SLOTS
    } else if *data_type == "dispute".to_owned() {
        DISPUTE_SLOTS
    } else if *data_type == "governance".to_owned() {
        GOVERNANCE_SLOTS
    } else if *data_type == "loyalty".to_owned() {
        LOYALTY_SLOTS
    } else if *data_type == "refund".to_owned() {
        REFUND_SLOTS
    } else if *data_type == "token".to_owned() {
        TOKEN_SLOTS
    } else if *data_type == "migration".to_owned() {
        MIGRATION_SLOTS
    } else {
        RESERVED_SLOTS
    }
}

/// The versioning store.
pub struct VersionedStorage {
    versions: Vec<VersionEntry>,
    progress: Vec<MigrationProgress>,
    migrations: Vec<MigrationEntry>,
}

impl View for VersionedStorage {
    type V = VersionLedger;

    closed spec fn view(&self) -> VersionLedger {
        VersionLedger {
            versions: self.versions@,
            progress: self.progress@,
            migrations: self.migrations@,
        }
    }
}

pub fn copy_record(r: &MigrationRecord) -> (c: MigrationRecord)
    ensures
        c == *r,
{
    MigrationRecord {
        from_version: r.from_version,
        to_version: r.to_version,
        timestamp: r.timestamp,
        migration_type: r.migration_type.clone(),
        description: r.description.clone(),
    }
}

impl VersionedStorage {
    pub fn new() -> (r: VersionedStorage)
        ensures
            r@.versions.len() == 0,
            r@.progress.len() == 0,
            r@.migrations.len() == 0,
    {
        VersionedStorage { versions: Vec::new(), progress: Vec::new(), migrations: Vec::new() }
    }

    pub fn get_storage_version(&self, contract_type: ContractType) -> (r: u32)
        ensures
            r == self@.version(contract_type),
    {
        let ghost p = of_version(contract_type);
        let mut found: Option<VersionEntry> = None;
        let mut i: usize = 0;
        while i < self.versions.len()
            invariant
                i <= self.versions@.len(),
                p == of_version(contract_type),
                found == last_of(self.versions@.subrange(0, i as int), p),
            decreases self.versions@.len() - i,
        {
            proof {
                lemma_filter_prefix_step(self.versions@, p, i as int);
            }
            let v = self.versions[i];
            if v.contract_type == contract_type {
                found = Some(v);
            }
            i = i + 1;
        }
        proof {
            assert(self.versions@.subrange(0, i as int) =~= self.versions@);
        }
        match found {
            Some(v) => v.version,
            None => 1,
        }
    }

    pub fn set_storage_version(&mut self, contract_type: ContractType, version: u32)
        ensures
            final(self)@ == (VersionLedger {
                versions: old(self)@.versions.push(VersionEntry { contract_type, version }),
                ..old(self)@
            }),
            final(self)@.version(contract_type) == version,
    {
        proof {
            crate::seqs::lemma_filter_push(
                self@.versions,
                VersionEntry { contract_type, version },
                of_version(contract_type),
            );
        }
        self.versions.push(VersionEntry { contract_type, version });
    }

    /// Moves a contract's storage from `from_version` up to `to_version`,
    /// one version at a time, and records the completed migration.
    pub fn migrate_storage(
        &mut self,
        now: u64,
        contract_type: ContractType,
        from_version: u32,
        to_version: u32,
        _migrator: Address,
    ) -> (r: Result<bool, VersionError>)
        ensures
            from_version >= to_version ==> r == Err::<bool, _>(
                VersionError::InvalidMigrationDirection,
            ) && final(self)@ == old(self)@,
            from_version < to_version && old(self)@.version(contract_type) != from_version ==> r
                == Err::<bool, _>(VersionError::VersionMismatch) && final(self)@ == old(self)@,
            from_version < to_version && old(self)@.version(contract_type) == from_version ==> {
                &&& r == Ok::<bool, VersionError>(true)
                &&& final(self)@.version(contract_type) == to_version
                &&& final(self)@.progress_of(contract_type) == Some(
                    MigrationProgress {
                        contract_type,
                        from_version,
                        to_version,
                        current_step: (to_version - from_version) as u32,
                        total_steps: (to_version - from_version) as u32,
                        completed: true,
                        started_at: now,
                        completed_at: Some(now),
                    },
                )
                &&& final(self)@.migrations.len() == old(self)@.migrations.len() + 1
                &&& final(self)@.migrations.drop_last() == old(self)@.migrations
                &&& final(self)@.migrations.last().contract_type == contract_type
                &&& final(self)@.migrations.last().record.from_version == from_version
                &&& final(self)@.migrations.last().record.to_version == to_version
                &&& final(self)@.migrations.last().record.timestamp == now
                &&& final(self)@.migrations.last().record.migration_type@ == "manual"@
                &&& final(self)@.migrations.last().record.description@ == "completed"@
            },
    {
        if from_version >= to_version {
            return Err(VersionError::InvalidMigrationDirection);
        }
        if self.get_storage_version(contract_type) != from_version {
            return Err(VersionError::VersionMismatch);
        }
        let mut current = from_version;
        while current < to_version
            invariant
                from_version <= current <= to_version,
                current == from_version || self@.version(contract_type) == current,
                self@.progress == old(self)@.progress,
                self@.migrations == old(self)@.migrations,
            decreases to_version - current,
        {
            current = current + 1;
            self.set_storage_version(contract_type, current);
        }
        let done = MigrationProgress {
            contract_type,
            from_version,
            to_version,
            current_step: to_version - from_version,
            total_steps: to_version - from_version,
            completed: true,
            started_at: now,
            completed_at: Some(now),
        };
        proof {
            crate::seqs::lemma_filter_push(self@.progress, done, of_progress(contract_type));
        }
        self.progress.push(done);
        let migration_type = "manual".to_owned();
        let description = "completed".to_owned();
        self.record_migration(now, contract_type, from_version, to_version, migration_type, description);
        Ok(true)
    }

    pub fn get_migration_progress(&self, contract_type: ContractType) -> (r: Option<MigrationProgress>)
        ensures
            r == self@.progress_of(contract_type),
    {
        let ghost p = of_progress(contract_type);
        let mut found: Option<MigrationProgress> = None;
        let mut i: usize = 0;
        while i < self.progress.len()
            invariant
                i <= self.progress@.len(),
                p == of_progress(contract_type),
                found == last_of(self.progress@.subrange(0, i as int), p),
            decreases self.progress@.len() - i,
        {
            proof {
                lemma_filter_prefix_step(self.progress@, p, i as int);
            }
            let g = self.progress[i];
            if g.contract_type == contract_type {
                found = Some(g);
            }
            i = i + 1;
        }
        proof {
            assert(self.progress@.subrange(0, i as int) =~= self.progress@);
        }
        found
    }

    /// Records a migration of a contract's storage under the next number.
    pub fn record_migration(
        &mut self,
        now: u64,
        contract_type: ContractType,
        from_version: u32,
        to_version: u32,
        migration_type: String,
        description: String,
    )
        ensures
            final(self)@ == (VersionLedger {
                migrations: old(self)@.migrations.push(
                    MigrationEntry {
                        contract_type,
                        record: MigrationRecord {
                            from_version,
                            to_version,
                            timestamp: now,
                            migration_type,
                            description,
                        },
                    },
                ),
                ..old(self)@
            }),
    {
        self.migrations.push(
            MigrationEntry {
                contract_type,
                record: MigrationRecord {
                    from_version,
                    to_version,
                    timestamp: now,
                    migration_type,
                    description,
                },
            },
        );
    }

    /// How many migrations were recorded for a contract.
    pub fn get_migration_count(&self, contract_type: ContractType) -> (r: u64)
        ensures
            r == self@.migrations_of(contract_type).len(),
    {
        let ghost p = of_contract(contract_type);
        let mut seen: u64 = 0;
        let mut i: usize = 0;
        while i < self.migrations.len()
            invariant
                i <= self.migrations@.len(),
                p == of_contract(contract_type),
                seen as int == self.migrations@.subrange(0, i as int).filter(p).len(),
                seen <= i,
            decreases self.migrations@.len() - i,
        {
            proof {
                lemma_filter_prefix_step(self.migrations@, p, i as int);
            }
            if self.migrations[i].contract_type == contract_type {
                seen = seen + 1;
            }
            i = i + 1;
        }
        proof {
            assert(self.migrations@.subrange(0, i as int) =~= self.migrations@);
        }
        seen
    }

    /// The migration numbered `migration_id` (from 1) for a contract.
    pub fn get_migration(&self, contract_type: ContractType, migration_id: u64) -> (r: Option<
        MigrationRecord,
    >)
        ensures
            r is Some <==> 1 <= migration_id <= self@.migrations_of(contract_type).len(),
            r is Some ==> r.unwrap() == self@.migrations_of(contract_type)[migration_id - 1].record,
    {
        if migration_id == 0 {
            return None;
        }
        let ghost p = of_contract(contract_type);
        let index = migration_id - 1;
        let mut seen: u64 = 0;
        let mut i: usize = 0;
        while i < self.migrations.len()
            invariant
                i <= self.migrations@.len(),
                p == of_contract(contract_type),
                seen as int == self.migrations@.subrange(0, i as int).filter(p).len(),
                seen <= index,
                index == migration_id - 1,
            decreases self.migrations@.len() - i,
        {
            proof {
                lemma_filter_prefix_step(self.migrations@, p, i as int);
            }
            let m = &self.migrations[i];
            if m.contract_type == contract_type {
                if seen == index {
                    proof {
                        lemma_filter_prefix(self.migrations@, p, i + 1);
                        assert(self.migrations@.subrange(0, i + 1).filter(p)[seen as int] == *m);
                    }
                    return Some(copy_record(&m.record));
                }
                seen = seen + 1;
            }
            i = i + 1;
        }
        proof {
            assert(self.migrations@.subrange(0, i as int) =~= self.migrations@);
        }
        None
    }

    /// Whether a contract's storage is older than `required_version`.
    pub fn needs_migration(&self, contract_type: ContractType, required_version: u32) -> (r: bool)
        ensures
            r == (self@.version(contract_type) < required_version),
    {
        self.get_storage_version(contract_type) < required_version
    }

    /// Sets a contract's version to 1 where it was set to 0.
    pub fn initialize_storage_version(&mut self, contract_type: ContractType)
        ensures
            old(self)@.version(contract_type) == 0 ==> final(self)@ == (VersionLedger {
                versions: old(self)@.versions.push(VersionEntry { contract_type, version: 1 }),
                ..old(self)@
            }),
            old(self)@.version(contract_type) != 0 ==> final(self)@ == old(self)@,
    {
        if self.get_storage_version(contract_type) == 0 {
            self.set_storage_version(contract_type, 1);
        }
    }

    /// Whether a contract's version lies in `[min_version, max_version]`.
    pub fn validate_storage_version(&self, contract_type: ContractType, min_version: u32, max_version: u32) -> (r:
        bool)
        ensures
            r == (min_version <= self@.version(contract_type) <= max_version),
    {
        let current = self.get_storage_version(contract_type);
        current >= min_version && current <= max_version
    }
}

} // verus!
