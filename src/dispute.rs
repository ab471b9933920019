use vstd::prelude::*;

use crate::address::Address;
use crate::crypto::{bytes32_eq, keccak256, keccak_of};
use crate::seqs::{
    last_of, lemma_filter_none, lemma_last_of_none, lemma_filter_prefix, lemma_filter_prefix_step, lemma_filter_push,
};

verus! {

/// Percentages in the configuration are basis points of this whole.
pub const BASIS_POINTS: i128 = 10000;

/// The stages of a dispute, in the order in which it moves through them.
#[derive(Clone, Copy, Debug, PartialEq, Eq, Structural)]
pub enum DisputePhase {
    Evidence,
    JurySelection,
    CommitVote,
    RevealVote,
    Appeal,
    Finalized,
}

/// Which side the revealed votes favour.
#[derive(Clone, Copy, Debug, PartialEq, Eq, Structural)]
pub enum Verdict {
    Passenger,
    Airline,
    Tie,
}

/// Why an operation on a dispute was refused; a refused call changes nothing.
#[derive(Clone, Copy, Debug, PartialEq, Eq, Structural)]
pub enum DisputeError {
    NotInitialized,
    AlreadyInitialized,
    DisputeNotFound,
    Unauthorized,
    NotAParty,
    WrongPhase,
    PeriodEnded,
    PeriodNotEnded,
    InsufficientStake,
    AlreadyResponded,
    AlreadySelected,
    NotEligible,
    PartyCannotJuror,
    JuryFull,
    NotAJuror,
    AlreadyCommitted,
    NoCommitFound,
    AlreadyRevealed,
    InvalidReveal,
    NoVotesRevealed,
    TieVerdict,
    AlreadyAppealed,
    OnlyLoserAppeals,
    NoRevealFound,
    DidNotVoteMajority,
    MathOverflow,
}

/// Settings fixed when the module is initialized.
#[derive(Clone, Copy, Debug, PartialEq, Eq, Structural)]
pub struct DisputeConfig {
    /// Basis points of the disputed amount that each party must stake.
    pub min_stake_percentage: u32,
    pub jury_size: u32,
    pub evidence_period: u64,
    pub voting_period: u64,
    pub reveal_period: u64,
    pub appeal_period: u64,
    /// Basis points of the disputed amount that an appeal must stake.
    pub appeal_stake_multiplier: u32,
    /// Basis points of the combined stake that goes to the jurors.
    pub jury_reward_pool_percentage: u32,
}

/// A dispute between a passenger (the claimant) and an airline (the respondent).
#[derive(Clone, Copy, Debug, PartialEq, Eq, Structural)]
pub struct Dispute {
    pub dispute_id: u64,
    pub refund_request_id: u64,
    pub passenger: Address,
    pub airline: Address,
    pub amount: i128,
    pub passenger_stake: i128,
    pub airline_stake: i128,
    /// Whether the airline has answered the dispute.
    pub responded: bool,
    pub phase: DisputePhase,
    pub evidence_deadline: u64,
    pub voting_deadline: u64,
    pub reveal_deadline: u64,
    pub appeal_deadline: u64,
    pub passenger_evidence_count: u32,
    pub airline_evidence_count: u32,
    pub jury_size: u32,
    pub votes_for_passenger: u32,
    pub votes_for_airline: u32,
    pub verdict: Option<Verdict>,
    pub appealed: bool,
    pub created_at: u64,
    pub finalized_at: Option<u64>,
}

/// A piece of evidence: a digest of the off-ledger content and a short tag.
#[derive(Debug)]
pub struct Evidence {
    pub dispute_id: u64,
    pub submitter: Address,
    pub evidence_hash: [u8; 32],
    pub description: String,
    pub submitted_at: u64,
}

/// A juror's seat on the panel of one round of a dispute (0 before an
/// appeal, 1 after it).
#[derive(Clone, Copy, Debug, PartialEq, Eq, Structural)]
pub struct JurorSelection {
    pub dispute_id: u64,
    pub round: u32,
    pub juror: Address,
    /// The juror's token balance when selected; it does not weight the vote.
    pub token_balance: i128,
    pub selected_at: u64,
}

/// A juror's hidden vote in one round: the digest of the vote byte followed by a salt.
#[derive(Clone, Copy, Debug)]
pub struct VoteCommit {
    pub dispute_id: u64,
    /// The round whose panel the juror voted in.
    pub round: u32,
    pub juror: Address,
    pub commit_hash: [u8; 32],
    pub committed_at: u64,
}

/// A juror's vote, opened against the commitment.
#[derive(Clone, Copy, Debug)]
pub struct VoteReveal {
    pub dispute_id: u64,
    /// The round whose panel the juror voted in.
    pub round: u32,
    pub juror: Address,
    pub vote_for_passenger: bool,
    pub salt: [u8; 32],
    pub revealed_at: u64,
}

/// What a party has staked on a dispute, appeals included.
#[derive(Clone, Copy, Debug, PartialEq, Eq, Structural)]
pub struct StakeRecord {
    pub dispute_id: u64,
    pub party: Address,
    pub amount: i128,
}

/// What the escrow module needs to settle a dispute whose verdict was executed.
#[derive(Clone, Copy, Debug, PartialEq, Eq, Structural)]
pub struct VerdictExecution {
    pub dispute_id: u64,
    pub winner: Address,
    pub loser: Address,
    pub amount: i128,
    pub jury_reward_pool: i128,
}

/// The records of the dispute module, as mathematical values. Records are
/// only ever added; a later record under the same key wins.
pub struct DisputeLedger {
    pub config: Option<DisputeConfig>,
    /// The dispute with id `k + 1` is at index `k`.
    pub disputes: Seq<Dispute>,
    pub evidence: Seq<Evidence>,
    pub jurors: Seq<JurorSelection>,
    pub commits: Seq<VoteCommit>,
    pub reveals: Seq<VoteReveal>,
    pub stakes: Seq<StakeRecord>,
}

/// `value * bps / 10000`, the division truncating toward zero.
pub open spec fn bps_of(value: int, bps: int) -> int {
    let p = value * bps;
    if p >= 0 {
        p / 10000
    } else {
        -((-p) / 10000)
    }
}

/// Whether `value * bps` fits in an `i128`.
pub open spec fn bps_fits(value: int, bps: int) -> bool {
    i128::MIN <= value * bps <= i128::MAX
}

/// The majority of the revealed votes; equal counts are a tie.
pub open spec fn verdict_of(for_passenger: int, for_airline: int) -> Verdict {
    if for_passenger > for_airline {
        Verdict::Passenger
    } else if for_airline > for_passenger {
        Verdict::Airline
    } else {
        Verdict::Tie
    }
}

/// The round that a dispute's jury is selected for.
pub open spec fn round_of(d: Dispute) -> u32 {
    if d.appealed {
        1
    } else {
        0
    }
}

pub open spec fn of_panel(dispute_id: u64, round: u32) -> spec_fn(JurorSelection) -> bool {
    |j: JurorSelection| j.dispute_id == dispute_id && j.round == round
}

pub open spec fn of_evidence(dispute_id: u64, submitter: Address) -> spec_fn(Evidence) -> bool {
    |e: Evidence| e.dispute_id == dispute_id && e.submitter == submitter
}

pub open spec fn of_commit(dispute_id: u64, round: u32, juror: Address) -> spec_fn(VoteCommit) -> bool {
    |c: VoteCommit| c.dispute_id == dispute_id && c.round == round && c.juror == juror
}

pub open spec fn of_reveal(dispute_id: u64, round: u32, juror: Address) -> spec_fn(VoteReveal) -> bool {
    |r: VoteReveal| r.dispute_id == dispute_id && r.round == round && r.juror == juror
}

pub open spec fn of_vote(dispute_id: u64, round: u32, vote: bool) -> spec_fn(VoteReveal) -> bool {
    |r: VoteReveal| r.dispute_id == dispute_id && r.round == round && r.vote_for_passenger == vote
}

/// The revealed votes of one round of a dispute, whichever side they favour.
pub open spec fn of_round_reveal(dispute_id: u64, round: u32) -> spec_fn(VoteReveal) -> bool {
    |r: VoteReveal| r.dispute_id == dispute_id && r.round == round
}

pub open spec fn of_stake(dispute_id: u64, party: Address) -> spec_fn(StakeRecord) -> bool {
    |s: StakeRecord| s.dispute_id == dispute_id && s.party == party
}

impl DisputeLedger {
    pub open spec fn dispute(self, id: u64) -> Option<Dispute> {
        if 1 <= id <= self.disputes.len() {
            Some(self.disputes[id - 1])
        } else {
            None
        }
    }

    /// The jurors seated on a round's panel, in the order they were selected.
    pub open spec fn panel(self, id: u64, round: u32) -> Seq<JurorSelection> {
        self.jurors.filter(of_panel(id, round))
    }

    /// The panel that jury selection currently fills.
    pub open spec fn current_panel(self, id: u64) -> Seq<JurorSelection> {
        self.panel(id, round_of(self.dispute(id).unwrap()))
    }

    /// Whether `a` was ever selected as a juror of the dispute, in any round.
    pub open spec fn is_juror(self, id: u64, a: Address) -> bool {
        exists|i: int|
            0 <= i < self.jurors.len() && (#[trigger] self.jurors[i]).dispute_id == id
                && self.jurors[i].juror == a
    }

    /// Whether `a` holds a seat on the panel of one round of the dispute.
    pub open spec fn is_seated(self, id: u64, round: u32, a: Address) -> bool {
        exists|i: int|
            0 <= i < self.jurors.len() && (#[trigger] self.jurors[i]).dispute_id == id
                && self.jurors[i].round == round && self.jurors[i].juror == a
    }

    /// What `submitter` has submitted on the dispute, in order.
    pub open spec fn evidence_of(self, id: u64, submitter: Address) -> Seq<Evidence> {
        self.evidence.filter(of_evidence(id, submitter))
    }

    /// A juror's commitment in one round of the dispute.
    pub open spec fn commit_record(self, id: u64, round: u32, juror: Address) -> Option<VoteCommit> {
        last_of(self.commits, of_commit(id, round, juror))
    }

    /// A juror's revealed vote in one round of the dispute.
    pub open spec fn reveal_record(self, id: u64, round: u32, juror: Address) -> Option<VoteReveal> {
        last_of(self.reveals, of_reveal(id, round, juror))
    }

    /// How many revealed votes of one round of the dispute went to one side.
    pub open spec fn revealed_votes(self, id: u64, round: u32, vote: bool) -> nat {
        self.reveals.filter(of_vote(id, round, vote)).len()
    }

    pub open spec fn stake(self, id: u64, party: Address) -> i128 {
        match last_of(self.stakes, of_stake(id, party)) {
            Some(r) => r.amount,
            None => 0,
        }
    }

    /// The same records with one dispute replaced.
    pub open spec fn with_dispute(self, d: Dispute) -> DisputeLedger {
        DisputeLedger { disputes: self.disputes.update(d.dispute_id - 1, d), ..self }
    }

    pub open spec fn with_stake(self, id: u64, party: Address, amount: i128) -> DisputeLedger {
        DisputeLedger {
            stakes: self.stakes.push(StakeRecord { dispute_id: id, party, amount }),
            ..self
        }
    }

    /// Each panel of a dispute holds at most its jury size.
    pub open spec fn panels_fit(self, d: Dispute) -> bool {
        &&& self.panel(d.dispute_id, 0).len() <= d.jury_size
        &&& self.panel(d.dispute_id, 1).len() <= d.jury_size
    }

    /// The invariant that every operation keeps.
    pub open spec fn wf(self) -> bool {
        &&& forall|k: int|
            0 <= k < self.disputes.len() ==> (#[trigger] self.disputes[k]).dispute_id == k + 1
        &&& forall|k: int|
            0 <= k < self.disputes.len() ==> self.dispute_ok(#[trigger] self.disputes[k])
        &&& forall|i: int|
            0 <= i < self.jurors.len() ==> 1 <= (#[trigger] self.jurors[i]).dispute_id
                <= self.disputes.len()
        &&& forall|i: int|
            0 <= i < self.reveals.len() ==> 1 <= (#[trigger] self.reveals[i]).dispute_id
                <= self.disputes.len()
        &&& forall|i: int|
            0 <= i < self.evidence.len() ==> 1 <= (#[trigger] self.evidence[i]).dispute_id
                <= self.disputes.len()
        &&& forall|i: int| 0 <= i < self.jurors.len() ==> self.not_party(#[trigger] self.jurors[i])
        &&& forall|i: int|
            0 <= i < self.reveals.len() ==> self.in_past_round(#[trigger] self.reveals[i])
        &&& forall|i: int, k: int|
            0 <= i < k < self.jurors.len() && (#[trigger] self.jurors[i]).dispute_id == (
            #[trigger] self.jurors[k]).dispute_id ==> self.jurors[i].juror != self.jurors[k].juror
        &&& forall|i: int, k: int|
            0 <= i < k < self.reveals.len() && (#[trigger] self.reveals[i]).dispute_id == (
            #[trigger] self.reveals[k]).dispute_id && self.reveals[i].round == self.reveals[k].round
                ==> self.reveals[i].juror != self.reveals[k].juror
    }

    /// Whether a revealed vote belongs to the current round of its dispute or
    /// an earlier one.
    pub open spec fn in_past_round(self, r: VoteReveal) -> bool {
        r.round <= round_of(self.disputes[r.dispute_id - 1])
    }

    /// Whether a juror seat is held by someone other than the two parties of
    /// its dispute.
    pub open spec fn not_party(self, j: JurorSelection) -> bool {
        let d = self.disputes[j.dispute_id - 1];
        j.juror != d.passenger && j.juror != d.airline
    }

    /// A dispute's verdict agrees with its tallies, the tallies count the
    /// votes revealed in its current round, and each party's evidence counter
    /// is the number of that party's records.
    pub open spec fn dispute_ok(self, d: Dispute) -> bool {
        &&& d.verdict is Some <==> (d.phase == DisputePhase::Appeal || d.phase
            == DisputePhase::Finalized)
        &&& d.verdict is Some ==> d.verdict == Some(
            verdict_of(d.votes_for_passenger as int, d.votes_for_airline as int),
        )
        &&& self.panels_fit(d)
        &&& d.votes_for_passenger == self.revealed_votes(d.dispute_id, round_of(d), true)
        &&& d.votes_for_airline == self.revealed_votes(d.dispute_id, round_of(d), false)
        &&& d.passenger_evidence_count == self.evidence_of(d.dispute_id, d.passenger).len()
        &&& d.airline != d.passenger ==> d.airline_evidence_count == self.evidence_of(
            d.dispute_id,
            d.airline,
        ).len()
    }
}

/// Every dispute of `s1` is still in `s2`, and one that was appealed still is.
pub open spec fn appeals_kept(s1: DisputeLedger, s2: DisputeLedger) -> bool {
    &&& s1.disputes.len() <= s2.disputes.len()
    &&& forall|k: int|
        0 <= k < s1.disputes.len() && (#[trigger] s1.disputes[k]).appealed
            ==> s2.disputes[k].appealed
}

/// The keyed store of the dispute module.
pub struct DisputeStorageKey {
    config: Option<DisputeConfig>,
    disputes: Vec<Dispute>,
    evidence: Vec<Evidence>,
    jurors: Vec<JurorSelection>,
    commits: Vec<VoteCommit>,
    reveals: Vec<VoteReveal>,
    stakes: Vec<StakeRecord>,
}

impl View for DisputeStorageKey {
    type V = DisputeLedger;

    closed spec fn view(&self) -> DisputeLedger {
        DisputeLedger {
            config: self.config,
            disputes: self.disputes@,
            evidence: self.evidence@,
            jurors: self.jurors@,
            commits: self.commits@,
            reveals: self.reveals@,
            stakes: self.stakes@,
        }
    }
}

impl DisputeStorageKey {
    /// An empty store, before the module is initialized.
    pub fn new() -> (r: DisputeStorageKey)
        ensures
            r@.config is None,
            r@.disputes.len() == 0,
            r@.evidence.len() == 0,
            r@.jurors.len() == 0,
            r@.commits.len() == 0,
            r@.reveals.len() == 0,
            r@.stakes.len() == 0,
            r@.wf(),
    {
        DisputeStorageKey {
            config: None,
            disputes: Vec::new(),
            evidence: Vec::new(),
            jurors: Vec::new(),
            commits: Vec::new(),
            reveals: Vec::new(),
            stakes: Vec::new(),
        }
    }

    pub fn get_config(&self) -> (r: Option<DisputeConfig>)
        ensures
            r == self@.config,
    {
        self.config
    }

    pub fn get_dispute_count(&self) -> (r: u64)
        ensures
            r == self@.disputes.len(),
    {
        self.disputes.len() as u64
    }

    pub fn get_dispute(&self, dispute_id: u64) -> (r: Option<Dispute>)
        ensures
            r == self@.dispute(dispute_id),
    {
        if dispute_id >= 1 && dispute_id - 1 < self.disputes.len() as u64 {
            Some(self.disputes[(dispute_id - 1) as usize])
        } else {
            None
        }
    }

    /// The `index`-th piece of evidence that `submitter` gave on the dispute.
    pub fn get_evidence(&self, dispute_id: u64, submitter: Address, index: u32) -> (r: Option<
        &Evidence,
    >)
        ensures
            r is Some <==> index < self@.evidence_of(dispute_id, submitter).len(),
            r is Some ==> *r.unwrap() == self@.evidence_of(dispute_id, submitter)[index as int],
    {
        let ghost p = of_evidence(dispute_id, submitter);
        let mut seen: u32 = 0;
        let mut i: usize = 0;
        while i < self.evidence.len()
            invariant
                i <= self.evidence@.len(),
                p == of_evidence(dispute_id, submitter),
                seen as int == self.evidence@.subrange(0, i as int).filter(p).len(),
                seen <= index,
            decreases self.evidence@.len() - i,
        {
            proof {
                lemma_filter_prefix_step(self.evidence@, p, i as int);
            }
            let e = &self.evidence[i];
            if e.dispute_id == dispute_id && e.submitter == submitter {
                if seen == index {
                    proof {
                        lemma_filter_prefix(self.evidence@, p, i + 1);
                        assert(self.evidence@.subrange(0, i + 1).filter(p)[seen as int] == *e);
                    }
                    return Some(e);
                }
                seen = seen + 1;
            }
            i = i + 1;
        }
        proof {
            assert(self.evidence@.subrange(0, i as int) =~= self.evidence@);
        }
        None
    }

    /// The `index`-th juror of the panel of one round of the dispute.
    pub fn get_juror(&self, dispute_id: u64, round: u32, index: u32) -> (r: Option<JurorSelection>)
        ensures
            r is Some <==> index < self@.panel(dispute_id, round).len(),
            r is Some ==> r.unwrap() == self@.panel(dispute_id, round)[index as int],
    {
        let ghost p = of_panel(dispute_id, round);
        let mut seen: u32 = 0;
        let mut i: usize = 0;
        while i < self.jurors.len()
            invariant
                i <= self.jurors@.len(),
                p == of_panel(dispute_id, round),
                seen as int == self.jurors@.subrange(0, i as int).filter(p).len(),
                seen <= index,
            decreases self.jurors@.len() - i,
        {
            proof {
                lemma_filter_prefix_step(self.jurors@, p, i as int);
            }
            let j = self.jurors[i];
            if j.dispute_id == dispute_id && j.round == round {
                if seen == index {
                    proof {
                        lemma_filter_prefix(self.jurors@, p, i + 1);
                        assert(self.jurors@.subrange(0, i + 1).filter(p)[seen as int] == j);
                    }
                    return Some(j);
                }
                seen = seen + 1;
            }
            i = i + 1;
        }
        proof {
            assert(self.jurors@.subrange(0, i as int) =~= self.jurors@);
        }
        None
    }

    /// How many jurors sit on the panel of one round of the dispute.
    pub fn panel_size(&self, dispute_id: u64, round: u32) -> (r: usize)
        ensures
            r == self@.panel(dispute_id, round).len(),
    {
        let ghost p = of_panel(dispute_id, round);
        let mut seen: usize = 0;
        let mut i: usize = 0;
        while i < self.jurors.len()
            invariant
                i <= self.jurors@.len(),
                p == of_panel(dispute_id, round),
                seen as int == self.jurors@.subrange(0, i as int).filter(p).len(),
                seen <= i,
            decreases self.jurors@.len() - i,
        {
            proof {
                lemma_filter_prefix_step(self.jurors@, p, i as int);
            }
            let j = self.jurors[i];
            if j.dispute_id == dispute_id && j.round == round {
                seen = seen + 1;
            }
            i = i + 1;
        }
        proof {
            assert(self.jurors@.subrange(0, i as int) =~= self.jurors@);
        }
        seen
    }

    /// Whether `address` was ever selected as a juror of the dispute.
    pub fn is_juror(&self, dispute_id: u64, address: Address) -> (r: bool)
        ensures
            r == self@.is_juror(dispute_id, address),
    {
        let mut i: usize = 0;
        while i < self.jurors.len()
            invariant
                i <= self.jurors@.len(),
                forall|k: int|
                    0 <= k < i ==> !((#[trigger] self.jurors@[k]).dispute_id == dispute_id
                        && self.jurors@[k].juror == address),
            decreases self.jurors@.len() - i,
        {
            let j = self.jurors[i];
            if j.dispute_id == dispute_id && j.juror == address {
                assert(self@.jurors[i as int] == j);
                return true;
            }
            i = i + 1;
        }
        false
    }

    /// Whether `address` holds a seat on the panel of one round of the dispute.
    pub fn is_seated(&self, dispute_id: u64, round: u32, address: Address) -> (r: bool)
        ensures
            r == self@.is_seated(dispute_id, round, address),
    {
        let mut i: usize = 0;
        while i < self.jurors.len()
            invariant
                i <= self.jurors@.len(),
                forall|k: int|
                    0 <= k < i ==> !((#[trigger] self.jurors@[k]).dispute_id == dispute_id
                        && self.jurors@[k].round == round && self.jurors@[k].juror == address),
            decreases self.jurors@.len() - i,
        {
            let j = self.jurors[i];
            if j.dispute_id == dispute_id && j.round == round && j.juror == address {
                assert(self@.jurors[i as int] == j);
                return true;
            }
            i = i + 1;
        }
        false
    }

    /// A juror's commitment in one round of the dispute.
    pub fn get_vote_commit(&self, dispute_id: u64, round: u32, juror: Address) -> (r: Option<VoteCommit>)
        ensures
            r == self@.commit_record(dispute_id, round, juror),
    {
        let ghost p = of_commit(dispute_id, round, juror);
        let mut found: Option<VoteCommit> = None;
        let mut i: usize = 0;
        while i < self.commits.len()
            invariant
                i <= self.commits@.len(),
                p == of_commit(dispute_id, round, juror),
                found == last_of(self.commits@.subrange(0, i as int), p),
            decreases self.commits@.len() - i,
        {
            proof {
                lemma_filter_prefix_step(self.commits@, p, i as int);
            }
            let c = self.commits[i];
            if c.dispute_id == dispute_id && c.round == round && c.juror == juror {
                found = Some(c);
            }
            i = i + 1;
        }
        proof {
            assert(self.commits@.subrange(0, i as int) =~= self.commits@);
        }
        found
    }

    /// A juror's revealed vote in one round of the dispute.
    pub fn get_vote_reveal(&self, dispute_id: u64, round: u32, juror: Address) -> (r: Option<VoteReveal>)
        ensures
            r == self@.reveal_record(dispute_id, round, juror),
    {
        let ghost p = of_reveal(dispute_id, round, juror);
        let mut found: Option<VoteReveal> = None;
        let mut i: usize = 0;
        while i < self.reveals.len()
            invariant
                i <= self.reveals@.len(),
                p == of_reveal(dispute_id, round, juror),
                found == last_of(self.reveals@.subrange(0, i as int), p),
            decreases self.reveals@.len() - i,
        {
            proof {
                lemma_filter_prefix_step(self.reveals@, p, i as int);
            }
            let v = self.reveals[i];
            if v.dispute_id == dispute_id && v.round == round && v.juror == juror {
                found = Some(v);
            }
            i = i + 1;
        }
        proof {
            assert(self.reveals@.subrange(0, i as int) =~= self.reveals@);
        }
        found
    }

    /// What `party` has staked on the dispute; nothing staked is 0.
    pub fn get_stake(&self, dispute_id: u64, party: Address) -> (r: i128)
        ensures
            r == self@.stake(dispute_id, party),
    {
        let ghost p = of_stake(dispute_id, party);
        let mut found: Option<StakeRecord> = None;
        let mut i: usize = 0;
        while i < self.stakes.len()
            invariant
                i <= self.stakes@.len(),
                p == of_stake(dispute_id, party),
                found == last_of(self.stakes@.subrange(0, i as int), p),
            decreases self.stakes@.len() - i,
        {
            proof {
                lemma_filter_prefix_step(self.stakes@, p, i as int);
            }
            let s = self.stakes[i];
            if s.dispute_id == dispute_id && s.party == party {
                found = Some(s);
            }
            i = i + 1;
        }
        proof {
            assert(self.stakes@.subrange(0, i as int) =~= self.stakes@);
        }
        match found {
            Some(s) => s.amount,
            None => 0,
        }
    }
}

impl DisputeStorageKey {
    fn set_config(&mut self, config: DisputeConfig)
        ensures
            final(self)@ == (DisputeLedger { config: Some(config), ..old(self)@ }),
    {
        self.config = Some(config);
    }

    fn push_dispute(&mut self, d: Dispute)
        ensures
            final(self)@ == (DisputeLedger { disputes: old(self)@.disputes.push(d), ..old(self)@ }),
    {
        self.disputes.push(d);
    }

    fn set_dispute(&mut self, d: Dispute)
        requires
            1 <= d.dispute_id <= old(self)@.disputes.len(),
        ensures
            final(self)@ == old(self)@.with_dispute(d),
    {
        self.disputes.set((d.dispute_id - 1) as usize, d);
    }

    fn set_stake(&mut self, dispute_id: u64, party: Address, amount: i128)
        ensures
            final(self)@ == old(self)@.with_stake(dispute_id, party, amount),
    {
        self.stakes.push(StakeRecord { dispute_id, party, amount });
    }

    fn push_evidence(&mut self, e: Evidence)
        ensures
            final(self)@ == (DisputeLedger { evidence: old(self)@.evidence.push(e), ..old(self)@ }),
    {
        self.evidence.push(e);
    }

    fn push_juror(&mut self, j: JurorSelection)
        ensures
            final(self)@ == (DisputeLedger { jurors: old(self)@.jurors.push(j), ..old(self)@ }),
    {
        self.jurors.push(j);
    }

    fn push_commit(&mut self, c: VoteCommit)
        ensures
            final(self)@ == (DisputeLedger { commits: old(self)@.commits.push(c), ..old(self)@ }),
    {
        self.commits.push(c);
    }

    fn push_reveal(&mut self, v: VoteReveal)
        ensures
            final(self)@ == (DisputeLedger { reveals: old(self)@.reveals.push(v), ..old(self)@ }),
    {
        self.reveals.push(v);
    }
}

/// `value * bps / 10000` truncated toward zero, or `None` where the product
/// does not fit in an `i128`.
pub fn basis_points(value: i128, bps: u32) -> (r: Option<i128>)
    ensures
        r is Some <==> bps_fits(value as int, bps as int),
        r is Some ==> r.unwrap() == bps_of(value as int, bps as int),
{
    match value.checked_mul(bps as i128) {
        None => None,
        Some(p) => p.checked_div(BASIS_POINTS),
    }
}

/// Whether the four periods of a round, laid end to end from `now`, end
/// within the range of a timestamp.
pub open spec fn schedule_fits(now: u64, c: DisputeConfig) -> bool {
    now + c.evidence_period + c.voting_period + c.reveal_period + c.appeal_period <= u64::MAX
}

/// A dispute whose four deadlines are laid out from `now`, each period
/// following the previous one.
pub open spec fn scheduled(d: Dispute, now: u64, c: DisputeConfig) -> Dispute {
    Dispute {
        evidence_deadline: (now + c.evidence_period) as u64,
        voting_deadline: (now + c.evidence_period + c.voting_period) as u64,
        reveal_deadline: (now + c.evidence_period + c.voting_period + c.reveal_period) as u64,
        appeal_deadline: (now + c.evidence_period + c.voting_period + c.reveal_period
            + c.appeal_period) as u64,
        ..d
    }
}

fn schedule(d: &mut Dispute, now: u64, c: DisputeConfig)
    requires
        schedule_fits(now, c),
    ensures
        *final(d) == scheduled(*old(d), now, c),
{
    d.evidence_deadline = now + c.evidence_period;
    d.voting_deadline = d.evidence_deadline + c.voting_period;
    d.reveal_deadline = d.voting_deadline + c.reveal_period;
    d.appeal_deadline = d.reveal_deadline + c.appeal_period;
}

/// Why `file_dispute` refuses, if it does.
pub open spec fn file_error(s: DisputeLedger, now: u64, amount: i128, passenger_stake: i128) -> Option<
    DisputeError,
> {
    match s.config {
        None => Some(DisputeError::NotInitialized),
        Some(c) => if !bps_fits(amount as int, c.min_stake_percentage as int) {
            Some(DisputeError::MathOverflow)
        } else if passenger_stake < bps_of(amount as int, c.min_stake_percentage as int) {
            Some(DisputeError::InsufficientStake)
        } else if s.disputes.len() >= u64::MAX || !schedule_fits(now, c) {
            Some(DisputeError::MathOverflow)
        } else {
            None
        },
    }
}

/// The dispute that `file_dispute` records.
pub open spec fn filed_dispute(
    s: DisputeLedger,
    now: u64,
    passenger: Address,
    airline: Address,
    refund_request_id: u64,
    amount: i128,
    passenger_stake: i128,
) -> Dispute {
    let c = s.config.unwrap();
    scheduled(
        Dispute {
            dispute_id: (s.disputes.len() + 1) as u64,
            refund_request_id,
            passenger,
            airline,
            amount,
            passenger_stake,
            airline_stake: 0,
            responded: false,
            phase: DisputePhase::Evidence,
            evidence_deadline: 0,
            voting_deadline: 0,
            reveal_deadline: 0,
            appeal_deadline: 0,
            passenger_evidence_count: 0,
            airline_evidence_count: 0,
            jury_size: c.jury_size,
            votes_for_passenger: 0,
            votes_for_airline: 0,
            verdict: None,
            appealed: false,
            created_at: now,
            finalized_at: None,
        },
        now,
        c,
    )
}

/// Why `airline_respond` refuses, if it does.
pub open spec fn respond_error(s: DisputeLedger, airline: Address, dispute_id: u64, airline_stake: i128) -> Option<
    DisputeError,
> {
    match s.dispute(dispute_id) {
        None => Some(DisputeError::DisputeNotFound),
        Some(d) => if d.airline != airline {
            Some(DisputeError::Unauthorized)
        } else if d.phase != DisputePhase::Evidence {
            Some(DisputeError::WrongPhase)
        } else if d.responded {
            Some(DisputeError::AlreadyResponded)
        } else {
            match s.config {
                None => Some(DisputeError::NotInitialized),
                Some(c) => if !bps_fits(d.amount as int, c.min_stake_percentage as int) {
                    Some(DisputeError::MathOverflow)
                } else if airline_stake < bps_of(d.amount as int, c.min_stake_percentage as int) {
                    Some(DisputeError::InsufficientStake)
                } else {
                    None
                },
            }
        },
    }
}

/// Why `submit_evidence` refuses, if it does.
pub open spec fn evidence_error(s: DisputeLedger, now: u64, submitter: Address, dispute_id: u64) -> Option<
    DisputeError,
> {
    match s.dispute(dispute_id) {
        None => Some(DisputeError::DisputeNotFound),
        Some(d) => if now > d.evidence_deadline {
            Some(DisputeError::PeriodEnded)
        } else if d.phase != DisputePhase::Evidence {
            Some(DisputeError::WrongPhase)
        } else if submitter != d.passenger && submitter != d.airline {
            Some(DisputeError::NotAParty)
        } else if submitter == d.passenger && d.passenger_evidence_count == u32::MAX {
            Some(DisputeError::MathOverflow)
        } else if submitter != d.passenger && d.airline_evidence_count == u32::MAX {
            Some(DisputeError::MathOverflow)
        } else {
            None
        },
    }
}

/// The dispute after `submitter` gave one more piece of evidence.
pub open spec fn counted_evidence(d: Dispute, submitter: Address) -> Dispute {
    if submitter == d.passenger {
        Dispute { passenger_evidence_count: (d.passenger_evidence_count + 1) as u32, ..d }
    } else {
        Dispute { airline_evidence_count: (d.airline_evidence_count + 1) as u32, ..d }
    }
}

/// A dispute whose evidence period is over moves on to jury selection.
pub open spec fn advanced(d: Dispute, now: u64) -> Dispute {
    if now > d.evidence_deadline && d.phase == DisputePhase::Evidence {
        Dispute { phase: DisputePhase::JurySelection, ..d }
    } else {
        d
    }
}

/// Why `select_as_juror` refuses, if it does.
pub open spec fn select_error(
    s: DisputeLedger,
    now: u64,
    juror: Address,
    dispute_id: u64,
    token_balance: i128,
) -> Option<DisputeError> {
    match s.dispute(dispute_id) {
        None => Some(DisputeError::DisputeNotFound),
        Some(d0) => {
            let d = advanced(d0, now);
            if d.phase != DisputePhase::JurySelection && d.phase != DisputePhase::CommitVote {
                Some(DisputeError::WrongPhase)
            } else if token_balance <= 0 {
                Some(DisputeError::NotEligible)
            } else if s.is_juror(dispute_id, juror) {
                Some(DisputeError::AlreadySelected)
            } else if juror == d.passenger || juror == d.airline {
                Some(DisputeError::PartyCannotJuror)
            } else if s.panel(dispute_id, round_of(d)).len() >= d.jury_size {
                Some(DisputeError::JuryFull)
            } else {
                None
            }
        },
    }
}

/// The records after `juror` takes the next seat of the current panel; the
/// seat that fills the panel opens the commit phase.
pub open spec fn seated(
    s: DisputeLedger,
    now: u64,
    juror: Address,
    dispute_id: u64,
    token_balance: i128,
) -> DisputeLedger {
    let d = advanced(s.dispute(dispute_id).unwrap(), now);
    let n = s.panel(dispute_id, round_of(d)).len();
    let d2 = if n + 1 >= d.jury_size {
        Dispute { phase: DisputePhase::CommitVote, ..d }
    } else {
        d
    };
    DisputeLedger {
        jurors: s.jurors.push(
            JurorSelection {
                dispute_id,
                round: round_of(d),
                juror,
                token_balance,
                selected_at: now,
            },
        ),
        ..s.with_dispute(d2)
    }
}

/// Why `commit_vote` refuses, if it does.
pub open spec fn commit_error(s: DisputeLedger, now: u64, juror: Address, dispute_id: u64) -> Option<
    DisputeError,
> {
    match s.dispute(dispute_id) {
        None => Some(DisputeError::DisputeNotFound),
        Some(d) => if now > d.voting_deadline {
            Some(DisputeError::PeriodEnded)
        } else if d.phase != DisputePhase::CommitVote {
            Some(DisputeError::WrongPhase)
        } else if !s.is_seated(dispute_id, round_of(d), juror) {
            Some(DisputeError::NotAJuror)
        } else if s.commit_record(dispute_id, round_of(d), juror) is Some {
            Some(DisputeError::AlreadyCommitted)
        } else {
            None
        },
    }
}

/// Why `advance_to_reveal` refuses, if it does.
pub open spec fn to_reveal_error(s: DisputeLedger, now: u64, dispute_id: u64) -> Option<
    DisputeError,
> {
    match s.dispute(dispute_id) {
        None => Some(DisputeError::DisputeNotFound),
        Some(d) => if now <= d.voting_deadline {
            Some(DisputeError::PeriodNotEnded)
        } else if d.phase != DisputePhase::CommitVote {
            Some(DisputeError::WrongPhase)
        } else {
            None
        },
    }
}

/// The bytes a juror commits to: the vote as one byte (1 for the passenger,
/// 0 for the airline) followed by the salt.
pub open spec fn commitment_message(vote_for_passenger: bool, salt: Seq<u8>) -> Seq<u8> {
    seq![if vote_for_passenger { 1u8 } else { 0u8 }] + salt
}

/// Why `reveal_vote` refuses, if it does, given the digest of the opened vote.
pub open spec fn reveal_error(
    s: DisputeLedger,
    now: u64,
    juror: Address,
    dispute_id: u64,
    vote_for_passenger: bool,
    digest: Seq<u8>,
) -> Option<DisputeError> {
    match s.dispute(dispute_id) {
        None => Some(DisputeError::DisputeNotFound),
        Some(d) => if now > d.reveal_deadline {
            Some(DisputeError::PeriodEnded)
        } else if d.phase != DisputePhase::RevealVote {
            Some(DisputeError::WrongPhase)
        } else if s.commit_record(dispute_id, round_of(d), juror) is None {
            Some(DisputeError::NoCommitFound)
        } else if s.reveal_record(dispute_id, round_of(d), juror) is Some {
            Some(DisputeError::AlreadyRevealed)
        } else if digest != s.commit_record(dispute_id, round_of(d), juror).unwrap().commit_hash@ {
            Some(DisputeError::InvalidReveal)
        } else if vote_for_passenger && d.votes_for_passenger == u32::MAX {
            Some(DisputeError::MathOverflow)
        } else if !vote_for_passenger && d.votes_for_airline == u32::MAX {
            Some(DisputeError::MathOverflow)
        } else {
            None
        },
    }
}

/// The dispute with one more vote for one side.
pub open spec fn tallied(d: Dispute, vote_for_passenger: bool) -> Dispute {
    if vote_for_passenger {
        Dispute { votes_for_passenger: (d.votes_for_passenger + 1) as u32, ..d }
    } else {
        Dispute { votes_for_airline: (d.votes_for_airline + 1) as u32, ..d }
    }
}

/// The records after a juror's vote is revealed.
pub open spec fn revealed(
    s: DisputeLedger,
    now: u64,
    juror: Address,
    dispute_id: u64,
    vote_for_passenger: bool,
    salt: [u8; 32],
) -> DisputeLedger {
    let d = s.dispute(dispute_id).unwrap();
    DisputeLedger {
        reveals: s.reveals.push(
            VoteReveal {
                dispute_id,
                round: round_of(d),
                juror,
                vote_for_passenger,
                salt,
                revealed_at: now,
            },
        ),
        ..s.with_dispute(tallied(s.dispute(dispute_id).unwrap(), vote_for_passenger))
    }
}

/// Why `finalize_dispute` refuses, if it does.
pub open spec fn finalize_error(s: DisputeLedger, now: u64, dispute_id: u64) -> Option<
    DisputeError,
> {
    match s.dispute(dispute_id) {
        None => Some(DisputeError::DisputeNotFound),
        Some(d) => if now <= d.reveal_deadline {
            Some(DisputeError::PeriodNotEnded)
        } else if d.phase != DisputePhase::RevealVote {
            Some(DisputeError::WrongPhase)
        } else if d.votes_for_passenger + d.votes_for_airline == 0 {
            Some(DisputeError::NoVotesRevealed)
        } else {
            None
        },
    }
}

/// The dispute once its votes are counted: the verdict is recorded and the
/// appeal window opens.
pub open spec fn finalized(d: Dispute, now: u64) -> Dispute {
    Dispute {
        verdict: Some(verdict_of(d.votes_for_passenger as int, d.votes_for_airline as int)),
        phase: DisputePhase::Appeal,
        finalized_at: Some(now),
        ..d
    }
}

/// Whether `a` is the side that the dispute's verdict went against.
pub open spec fn is_loser(d: Dispute, a: Address) -> bool {
    ||| d.verdict == Some(Verdict::Airline) && a == d.passenger
    ||| d.verdict == Some(Verdict::Passenger) && a == d.airline
}

/// Why `file_appeal` refuses, if it does.
pub open spec fn appeal_error(
    s: DisputeLedger,
    now: u64,
    appellant: Address,
    dispute_id: u64,
    appeal_stake: i128,
) -> Option<DisputeError> {
    match s.dispute(dispute_id) {
        None => Some(DisputeError::DisputeNotFound),
        Some(d) => if now > d.appeal_deadline {
            Some(DisputeError::PeriodEnded)
        } else if d.phase != DisputePhase::Appeal {
            Some(DisputeError::WrongPhase)
        } else if d.appealed {
            Some(DisputeError::AlreadyAppealed)
        } else if !is_loser(d, appellant) {
            Some(DisputeError::OnlyLoserAppeals)
        } else {
            match s.config {
                None => Some(DisputeError::NotInitialized),
                Some(c) => if !bps_fits(d.amount as int, c.appeal_stake_multiplier as int) {
                    Some(DisputeError::MathOverflow)
                } else if appeal_stake < bps_of(d.amount as int, c.appeal_stake_multiplier as int) {
                    Some(DisputeError::InsufficientStake)
                } else if !schedule_fits(now, c) {
                    Some(DisputeError::MathOverflow)
                } else if s.stake(dispute_id, appellant) + appeal_stake > i128::MAX
                    || s.stake(dispute_id, appellant) + appeal_stake < i128::MIN {
                    Some(DisputeError::MathOverflow)
                } else {
                    None
                },
            }
        },
    }
}

/// The dispute sent back to a fresh evidence round by an appeal.
pub open spec fn reopened(d: Dispute, now: u64, c: DisputeConfig) -> Dispute {
    scheduled(
        Dispute {
            appealed: true,
            phase: DisputePhase::Evidence,
            votes_for_passenger: 0,
            votes_for_airline: 0,
            verdict: None,
            ..d
        },
        now,
        c,
    )
}

/// The jurors' share of the combined stake of a dispute.
pub open spec fn jury_pool(d: Dispute, c: DisputeConfig) -> int {
    bps_of(d.passenger_stake + d.airline_stake, c.jury_reward_pool_percentage as int)
}

/// Whether the jury pool of a dispute can be computed in `i128`.
pub open spec fn jury_pool_fits(d: Dispute, c: DisputeConfig) -> bool {
    &&& i128::MIN <= d.passenger_stake + d.airline_stake <= i128::MAX
    &&& bps_fits(d.passenger_stake + d.airline_stake, c.jury_reward_pool_percentage as int)
}

/// Why `execute_verdict` refuses, if it does.
pub open spec fn execute_error(s: DisputeLedger, now: u64, dispute_id: u64) -> Option<
    DisputeError,
> {
    match s.dispute(dispute_id) {
        None => Some(DisputeError::DisputeNotFound),
        Some(d) => if d.phase == DisputePhase::Appeal && now <= d.appeal_deadline {
            Some(DisputeError::PeriodNotEnded)
        } else if d.verdict is None {
            Some(DisputeError::WrongPhase)
        } else if d.verdict == Some(Verdict::Tie) {
            Some(DisputeError::TieVerdict)
        } else {
            match s.config {
                None => Some(DisputeError::NotInitialized),
                Some(c) => if !jury_pool_fits(d, c) {
                    Some(DisputeError::MathOverflow)
                } else {
                    None
                },
            }
        },
    }
}

/// What an executed verdict hands to the escrow module.
pub open spec fn execution_of(d: Dispute, c: DisputeConfig) -> VerdictExecution {
    let passenger_won = d.verdict == Some(Verdict::Passenger);
    VerdictExecution {
        dispute_id: d.dispute_id,
        winner: if passenger_won { d.passenger } else { d.airline },
        loser: if passenger_won { d.airline } else { d.passenger },
        amount: d.amount,
        jury_reward_pool: jury_pool(d, c) as i128,
    }
}

/// Whether a vote agrees with a verdict; no vote agrees with a tie.
pub open spec fn agrees(verdict: Verdict, vote_for_passenger: bool) -> bool {
    ||| verdict == Verdict::Passenger && vote_for_passenger
    ||| verdict == Verdict::Airline && !vote_for_passenger
}

/// `x / d` truncated toward zero, for `d > 0`.
pub open spec fn trunc_div(x: int, d: int) -> int {
    if x >= 0 {
        x / d
    } else {
        -((-x) / d)
    }
}

/// How many votes the winning side of the dispute received.
pub open spec fn winning_votes(d: Dispute) -> int {
    if d.verdict == Some(Verdict::Passenger) {
        d.votes_for_passenger as int
    } else {
        d.votes_for_airline as int
    }
}

/// Why `claim_juror_reward` refuses, if it does.
pub open spec fn claim_error(s: DisputeLedger, juror: Address, dispute_id: u64) -> Option<
    DisputeError,
> {
    match s.dispute(dispute_id) {
        None => Some(DisputeError::DisputeNotFound),
        Some(d) => if d.phase != DisputePhase::Finalized || d.verdict is None {
            Some(DisputeError::WrongPhase)
        } else if s.reveal_record(dispute_id, round_of(d), juror) is None {
            Some(DisputeError::NoRevealFound)
        } else if !agrees(
            d.verdict.unwrap(),
            s.reveal_record(dispute_id, round_of(d), juror).unwrap().vote_for_passenger,
        ) {
            Some(DisputeError::DidNotVoteMajority)
        } else {
            match s.config {
                None => Some(DisputeError::NotInitialized),
                Some(c) => if !jury_pool_fits(d, c) {
                    Some(DisputeError::MathOverflow)
                } else {
                    None
                },
            }
        },
    }
}

/// One majority juror's reward: the jury pool split evenly over the winning
/// votes, truncated.
pub open spec fn reward_of(d: Dispute, c: DisputeConfig) -> int {
    trunc_div(jury_pool(d, c), winning_votes(d))
}

proof fn lemma_with_dispute_wf(s: DisputeLedger, d: Dispute)
    requires
        s.wf(),
        1 <= d.dispute_id <= s.disputes.len(),
        s.dispute_ok(d),
        d.passenger == s.disputes[d.dispute_id - 1].passenger,
        d.airline == s.disputes[d.dispute_id - 1].airline,
        s.disputes[d.dispute_id - 1].appealed ==> d.appealed,
    ensures
        s.with_dispute(d).wf(),
        appeals_kept(s, s.with_dispute(d)),
{
    let s2 = s.with_dispute(d);
    assert forall|i: int| 0 <= i < s2.reveals.len() implies s2.in_past_round(
        #[trigger] s2.reveals[i],
    ) by {
        assert(s.in_past_round(s.reveals[i]));
    }
    assert forall|k: int| 0 <= k < s2.disputes.len() implies s2.dispute_ok(
        #[trigger] s2.disputes[k],
    ) by {
        assert(s.dispute_ok(s.disputes[k]));
    }
    assert forall|i: int| 0 <= i < s2.jurors.len() implies s2.not_party(#[trigger] s2.jurors[i]) by {
        assert(s.not_party(s.jurors[i]));
    }
}

/// The dispute module's operations. Each takes the module's store, and the
/// ledger time where the rules depend on it; the identity that an operation
/// names is the caller, whose authorization the host has already checked.
pub struct DisputeContract;

impl DisputeContract {
    /// Sets the module's configuration, once.
    pub fn initialize(
        store: &mut DisputeStorageKey,
        min_stake_percentage: u32,
        jury_size: u32,
        evidence_period: u64,
        voting_period: u64,
        reveal_period: u64,
        appeal_period: u64,
        appeal_stake_multiplier: u32,
        jury_reward_pool_percentage: u32,
    ) -> (r: Result<(), DisputeError>)
        requires
            old(store)@.wf(),
        ensures
            final(store)@.wf(),
            appeals_kept(old(store)@, final(store)@),
            old(store)@.config is Some ==> r == Err::<(), _>(DisputeError::AlreadyInitialized)
                && final(store)@ == old(store)@,
            old(store)@.config is None ==> r is Ok && final(store)@ == (DisputeLedger {
                config: Some(
                    DisputeConfig {
                        min_stake_percentage,
                        jury_size,
                        evidence_period,
                        voting_period,
                        reveal_period,
                        appeal_period,
                        appeal_stake_multiplier,
                        jury_reward_pool_percentage,
                    },
                ),
                ..old(store)@
            }),
    {
        if store.get_config().is_some() {
            return Err(DisputeError::AlreadyInitialized);
        }
        store.set_config(
            DisputeConfig {
                min_stake_percentage,
                jury_size,
                evidence_period,
                voting_period,
                reveal_period,
                appeal_period,
                appeal_stake_multiplier,
                jury_reward_pool_percentage,
            },
        );
        Ok(())
    }

    /// Opens a dispute over `amount`, staked by the passenger, and returns its
    /// id: one more than the number of disputes before it.
    pub fn file_dispute(
        store: &mut DisputeStorageKey,
        now: u64,
        passenger: Address,
        airline: Address,
        refund_request_id: u64,
        amount: i128,
        passenger_stake: i128,
    ) -> (r: Result<u64, DisputeError>)
        requires
            old(store)@.wf(),
        ensures
            final(store)@.wf(),
            appeals_kept(old(store)@, final(store)@),
            match file_error(old(store)@, now, amount, passenger_stake) {
                Some(e) => r == Err::<u64, _>(e) && final(store)@ == old(store)@,
                None => {
                    let d = filed_dispute(
                        old(store)@,
                        now,
                        passenger,
                        airline,
                        refund_request_id,
                        amount,
                        passenger_stake,
                    );
                    &&& r == Ok::<u64, DisputeError>(d.dispute_id)
                    &&& final(store)@ == (DisputeLedger {
                        disputes: old(store)@.disputes.push(d),
                        ..old(store)@
                    }).with_stake(d.dispute_id, passenger, passenger_stake)
                },
            },
    {
        let config = match store.get_config() {
            None => return Err(DisputeError::NotInitialized),
            Some(c) => c,
        };
        let min_stake = match basis_points(amount, config.min_stake_percentage) {
            None => return Err(DisputeError::MathOverflow),
            Some(m) => m,
        };
        if passenger_stake < min_stake {
            return Err(DisputeError::InsufficientStake);
        }
        let count = store.get_dispute_count();
        if count == u64::MAX || now as u128 + config.evidence_period as u128
            + config.voting_period as u128 + config.reveal_period as u128
            + config.appeal_period as u128 > u64::MAX as u128 {
            return Err(DisputeError::MathOverflow);
        }
        let dispute_id = count + 1;
        let mut dispute = Dispute {
            dispute_id,
            refund_request_id,
            passenger,
            airline,
            amount,
            passenger_stake,
            airline_stake: 0,
            responded: false,
            phase: DisputePhase::Evidence,
            evidence_deadline: 0,
            voting_deadline: 0,
            reveal_deadline: 0,
            appeal_deadline: 0,
            passenger_evidence_count: 0,
            airline_evidence_count: 0,
            jury_size: config.jury_size,
            votes_for_passenger: 0,
            votes_for_airline: 0,
            verdict: None,
            appealed: false,
            created_at: now,
            finalized_at: None,
        };
        schedule(&mut dispute, now, config);
        let ghost s0 = store@;
        store.push_dispute(dispute);
        store.set_stake(dispute_id, passenger, passenger_stake);
        proof {
            let s1 = store@;
            lemma_filter_none(s1.jurors, of_panel(dispute_id, 0));
            lemma_filter_none(s1.jurors, of_panel(dispute_id, 1));
            lemma_filter_none(s1.reveals, of_vote(dispute_id, 0, true));
            lemma_filter_none(s1.reveals, of_vote(dispute_id, 0, false));
            lemma_filter_none(s1.evidence, of_evidence(dispute_id, passenger));
            lemma_filter_none(s1.evidence, of_evidence(dispute_id, airline));
            assert forall|i: int| 0 <= i < s1.reveals.len() implies s1.in_past_round(
                #[trigger] s1.reveals[i],
            ) by {
                assert(s0.in_past_round(s0.reveals[i]));
            }
            assert forall|k: int| 0 <= k < s1.disputes.len() implies s1.dispute_ok(
                #[trigger] s1.disputes[k],
            ) by {
                if k < s0.disputes.len() {
                    assert(s0.dispute_ok(s0.disputes[k]));
                }
            }
            assert forall|i: int| 0 <= i < s1.jurors.len() implies s1.not_party(
                #[trigger] s1.jurors[i],
            ) by {
                assert(s0.not_party(s0.jurors[i]));
            }
        }
        Ok(dispute_id)
    }

    /// The airline answers the dispute with a stake of its own, once.
    pub fn airline_respond(
        store: &mut DisputeStorageKey,
        airline: Address,
        dispute_id: u64,
        airline_stake: i128,
    ) -> (r: Result<(), DisputeError>)
        requires
            old(store)@.wf(),
        ensures
            final(store)@.wf(),
            appeals_kept(old(store)@, final(store)@),
            match respond_error(old(store)@, airline, dispute_id, airline_stake) {
                Some(e) => r == Err::<(), _>(e) && final(store)@ == old(store)@,
                None => r is Ok && final(store)@ == old(store)@.with_dispute(
                    Dispute {
                        airline_stake,
                        responded: true,
                        ..old(store)@.dispute(dispute_id).unwrap()
                    },
                ).with_stake(dispute_id, airline, airline_stake),
            },
    {
        let mut dispute = match store.get_dispute(dispute_id) {
            None => return Err(DisputeError::DisputeNotFound),
            Some(d) => d,
        };
        if dispute.airline != airline {
            return Err(DisputeError::Unauthorized);
        }
        if dispute.phase != DisputePhase::Evidence {
            return Err(DisputeError::WrongPhase);
        }
        if dispute.responded {
            return Err(DisputeError::AlreadyResponded);
        }
        let config = match store.get_config() {
            None => return Err(DisputeError::NotInitialized),
            Some(c) => c,
        };
        let min_stake = match basis_points(dispute.amount, config.min_stake_percentage) {
            None => return Err(DisputeError::MathOverflow),
            Some(m) => m,
        };
        if airline_stake < min_stake {
            return Err(DisputeError::InsufficientStake);
        }
        dispute.airline_stake = airline_stake;
        dispute.responded = true;
        proof {
            assert(store@.dispute_ok(store@.disputes[dispute_id - 1]));
            lemma_with_dispute_wf(store@, dispute);
        }
        store.set_dispute(dispute);
        store.set_stake(dispute_id, airline, airline_stake);
        Ok(())
    }

    /// A party adds a piece of evidence, under the next index of its own.
    pub fn submit_evidence(
        store: &mut DisputeStorageKey,
        now: u64,
        submitter: Address,
        dispute_id: u64,
        evidence_hash: [u8; 32],
        description: String,
    ) -> (r: Result<(), DisputeError>)
        requires
            old(store)@.wf(),
        ensures
            final(store)@.wf(),
            appeals_kept(old(store)@, final(store)@),
            match evidence_error(old(store)@, now, submitter, dispute_id) {
                Some(e) => r == Err::<(), _>(e) && final(store)@ == old(store)@,
                None => {
                    let s2 = old(store)@.with_dispute(
                        counted_evidence(old(store)@.dispute(dispute_id).unwrap(), submitter),
                    );
                    &&& r is Ok
                    &&& final(store)@.disputes == s2.disputes
                    &&& final(store)@.evidence.len() == old(store)@.evidence.len() + 1
                    &&& final(store)@.evidence.drop_last() == old(store)@.evidence
                    &&& final(store)@.evidence.last().dispute_id == dispute_id
                    &&& final(store)@.evidence.last().submitter == submitter
                    &&& final(store)@.evidence.last().evidence_hash == evidence_hash
                    &&& final(store)@.evidence.last().description == description
                    &&& final(store)@.evidence.last().submitted_at == now
                    &&& final(store)@ == (DisputeLedger {
                        evidence: final(store)@.evidence,
                        ..s2
                    })
                    &&& final(store)@.evidence_of(dispute_id, submitter) == old(
                        store)@.evidence_of(dispute_id, submitter).push(
                        final(store)@.evidence.last(),
                    )
                    &&& old(store)@.evidence_of(dispute_id, submitter).len() == if submitter
                        == old(store)@.dispute(dispute_id).unwrap().passenger {
                        old(store)@.dispute(dispute_id).unwrap().passenger_evidence_count
                    } else {
                        old(store)@.dispute(dispute_id).unwrap().airline_evidence_count
                    }
                },
            },
    {
        let mut dispute = match store.get_dispute(dispute_id) {
            None => return Err(DisputeError::DisputeNotFound),
            Some(d) => d,
        };
        if now > dispute.evidence_deadline {
            return Err(DisputeError::PeriodEnded);
        }
        if dispute.phase != DisputePhase::Evidence {
            return Err(DisputeError::WrongPhase);
        }
        let is_passenger = submitter == dispute.passenger;
        if !is_passenger && submitter != dispute.airline {
            return Err(DisputeError::NotAParty);
        }
        if is_passenger {
            if dispute.passenger_evidence_count == u32::MAX {
                return Err(DisputeError::MathOverflow);
            }
            dispute.passenger_evidence_count = dispute.passenger_evidence_count + 1;
        } else {
            if dispute.airline_evidence_count == u32::MAX {
                return Err(DisputeError::MathOverflow);
            }
            dispute.airline_evidence_count = dispute.airline_evidence_count + 1;
        }
        let ghost s0 = store@;
        proof {
            assert(s0.dispute_ok(s0.disputes[dispute_id - 1]));
        }
        store.set_dispute(dispute);
        let evidence = Evidence {
            dispute_id,
            submitter,
            evidence_hash,
            description,
            submitted_at: now,
        };
        store.push_evidence(evidence);
        proof {
            let s1 = store@;
            let e = s1.evidence.last();
            assert(s1.evidence == s0.evidence.push(e));
            lemma_filter_push(s0.evidence, e, of_evidence(dispute_id, submitter));
            assert forall|k: int| 0 <= k < s1.disputes.len() implies s1.dispute_ok(
                #[trigger] s1.disputes[k],
            ) by {
                let dk = s1.disputes[k];
                lemma_filter_push(s0.evidence, e, of_evidence(dk.dispute_id, dk.passenger));
                lemma_filter_push(s0.evidence, e, of_evidence(dk.dispute_id, dk.airline));
                assert(s0.dispute_ok(s0.disputes[k]));
            }
            assert forall|i: int| 0 <= i < s1.jurors.len() implies s1.not_party(
                #[trigger] s1.jurors[i],
            ) by {
                assert(s0.not_party(s0.jurors[i]));
            }
            assert forall|i: int| 0 <= i < s1.reveals.len() implies s1.in_past_round(
                #[trigger] s1.reveals[i],
            ) by {
                assert(s0.in_past_round(s0.reveals[i]));
            }
        }
        Ok(())
    }

    /// The phase step that the end of the evidence period brings; jury
    /// selection takes it before it looks at the phase.
    pub fn maybe_advance_phase(dispute: Dispute, now: u64) -> (r: Dispute)
        ensures
            r == advanced(dispute, now),
    {
        let mut d = dispute;
        if now > d.evidence_deadline && d.phase == DisputePhase::Evidence {
            d.phase = DisputePhase::JurySelection;
        }
        d
    }

    /// Seats `juror` on the current panel of the dispute.
    pub fn select_as_juror(
        store: &mut DisputeStorageKey,
        now: u64,
        juror: Address,
        dispute_id: u64,
        token_balance: i128,
    ) -> (r: Result<(), DisputeError>)
        requires
            old(store)@.wf(),
        ensures
            final(store)@.wf(),
            appeals_kept(old(store)@, final(store)@),
            match select_error(old(store)@, now, juror, dispute_id, token_balance) {
                Some(e) => r == Err::<(), _>(e) && final(store)@ == old(store)@,
                None => r is Ok && final(store)@ == seated(
                    old(store)@,
                    now,
                    juror,
                    dispute_id,
                    token_balance,
                ),
            },
    {
        let d0 = match store.get_dispute(dispute_id) {
            None => return Err(DisputeError::DisputeNotFound),
            Some(d) => d,
        };
        let mut dispute = Self::maybe_advance_phase(d0, now);
        if dispute.phase != DisputePhase::JurySelection && dispute.phase
            != DisputePhase::CommitVote {
            return Err(DisputeError::WrongPhase);
        }
        if token_balance <= 0 {
            return Err(DisputeError::NotEligible);
        }
        if store.is_juror(dispute_id, juror) {
            return Err(DisputeError::AlreadySelected);
        }
        if juror == dispute.passenger || juror == dispute.airline {
            return Err(DisputeError::PartyCannotJuror);
        }
        let round: u32 = if dispute.appealed {
            1
        } else {
            0
        };
        let count = store.panel_size(dispute_id, round);
        if count >= dispute.jury_size as usize {
            return Err(DisputeError::JuryFull);
        }
        if count + 1 >= dispute.jury_size as usize {
            dispute.phase = DisputePhase::CommitVote;
        }
        let selection = JurorSelection {
            dispute_id,
            round,
            juror,
            token_balance,
            selected_at: now,
        };
        let ghost s0 = store@;
        proof {
            assert(s0.dispute_ok(s0.disputes[dispute_id - 1]));
        }
        store.set_dispute(dispute);
        store.push_juror(selection);
        proof {
            let s1 = store@;
            assert forall|k: int| 0 <= k < s1.disputes.len() implies s1.dispute_ok(
                #[trigger] s1.disputes[k],
            ) by {
                let id = s1.disputes[k].dispute_id;
                lemma_filter_push(s0.jurors, selection, of_panel(id, 0));
                lemma_filter_push(s0.jurors, selection, of_panel(id, 1));
                assert(s0.dispute_ok(s0.disputes[k]));
            }
            assert forall|i: int| 0 <= i < s1.jurors.len() implies s1.not_party(
                #[trigger] s1.jurors[i],
            ) by {
                if i < s0.jurors.len() {
                    assert(s0.not_party(s0.jurors[i]));
                }
            }
            assert forall|i: int| 0 <= i < s1.reveals.len() implies s1.in_past_round(
                #[trigger] s1.reveals[i],
            ) by {
                assert(s0.in_past_round(s0.reveals[i]));
            }
            assert forall|i: int, k: int|
                0 <= i < k < s1.jurors.len() && (#[trigger] s1.jurors[i]).dispute_id == (
                #[trigger] s1.jurors[k]).dispute_id implies s1.jurors[i].juror
                != s1.jurors[k].juror by {
                if k == s0.jurors.len() {
                    assert(s1.jurors[i] == s0.jurors[i]);
                } else {
                    assert(s1.jurors[i] == s0.jurors[i] && s1.jurors[k] == s0.jurors[k]);
                }
            }
        }
        Ok(())
    }

    /// A juror seated on the current round's panel commits to a hidden vote,
    /// once per round.
    pub fn commit_vote(
        store: &mut DisputeStorageKey,
        now: u64,
        juror: Address,
        dispute_id: u64,
        commit_hash: [u8; 32],
    ) -> (r: Result<(), DisputeError>)
        requires
            old(store)@.wf(),
        ensures
            final(store)@.wf(),
            appeals_kept(old(store)@, final(store)@),
            match commit_error(old(store)@, now, juror, dispute_id) {
                Some(e) => r == Err::<(), _>(e) && final(store)@ == old(store)@,
                None => r is Ok && final(store)@ == (DisputeLedger {
                    commits: old(store)@.commits.push(
                        VoteCommit {
                            dispute_id,
                            round: round_of(old(store)@.dispute(dispute_id).unwrap()),
                            juror,
                            commit_hash,
                            committed_at: now,
                        },
                    ),
                    ..old(store)@
                }),
            },
    {
        let dispute = match store.get_dispute(dispute_id) {
            None => return Err(DisputeError::DisputeNotFound),
            Some(d) => d,
        };
        if now > dispute.voting_deadline {
            return Err(DisputeError::PeriodEnded);
        }
        if dispute.phase != DisputePhase::CommitVote {
            return Err(DisputeError::WrongPhase);
        }
        let round: u32 = if dispute.appealed {
            1
        } else {
            0
        };
        if !store.is_seated(dispute_id, round, juror) {
            return Err(DisputeError::NotAJuror);
        }
        if store.get_vote_commit(dispute_id, round, juror).is_some() {
            return Err(DisputeError::AlreadyCommitted);
        }
        store.push_commit(VoteCommit { dispute_id, round, juror, commit_hash, committed_at: now });
        Ok(())
    }

    /// Anyone may open the reveal phase once the voting period is over.
    pub fn advance_to_reveal(store: &mut DisputeStorageKey, now: u64, dispute_id: u64) -> (r:
        Result<(), DisputeError>)
        requires
            old(store)@.wf(),
        ensures
            final(store)@.wf(),
            appeals_kept(old(store)@, final(store)@),
            match to_reveal_error(old(store)@, now, dispute_id) {
                Some(e) => r == Err::<(), _>(e) && final(store)@ == old(store)@,
                None => r is Ok && final(store)@ == old(store)@.with_dispute(
                    Dispute {
                        phase: DisputePhase::RevealVote,
                        ..old(store)@.dispute(dispute_id).unwrap()
                    },
                ),
            },
    {
        let mut dispute = match store.get_dispute(dispute_id) {
            None => return Err(DisputeError::DisputeNotFound),
            Some(d) => d,
        };
        if now <= dispute.voting_deadline {
            return Err(DisputeError::PeriodNotEnded);
        }
        if dispute.phase != DisputePhase::CommitVote {
            return Err(DisputeError::WrongPhase);
        }
        dispute.phase = DisputePhase::RevealVote;
        proof {
            assert(store@.dispute_ok(store@.disputes[dispute_id - 1]));
            lemma_with_dispute_wf(store@, dispute);
        }
        store.set_dispute(dispute);
        Ok(())
    }

    /// The bytes that a juror's commitment covers.
    pub fn commitment_message(vote_for_passenger: bool, salt: &[u8; 32]) -> (r: Vec<u8>)
        ensures
            r@ == commitment_message(vote_for_passenger, salt@),
    {
        let mut message: Vec<u8> = Vec::new();
        message.push(if vote_for_passenger { 1u8 } else { 0u8 });
        let mut i: usize = 0;
        while i < 32
            invariant
                i <= 32,
                salt@.len() == 32,
                message@ == seq![if vote_for_passenger { 1u8 } else { 0u8 }] + salt@.subrange(
                    0,
                    i as int,
                ),
            decreases 32 - i,
        {
            message.push(salt[i]);
            proof {
                assert(salt@.subrange(0, i + 1) =~= salt@.subrange(0, i as int).push(salt@[i as int]));
                assert(message@ =~= seq![if vote_for_passenger { 1u8 } else { 0u8 }]
                    + salt@.subrange(0, i + 1));
            }
            i = i + 1;
        }
        proof {
            assert(salt@.subrange(0, 32) =~= salt@);
        }
        message
    }

    /// The digest that a juror commits to for a vote and a salt.
    pub fn commitment_hash(env: &soroban_sdk::Env, vote_for_passenger: bool, salt: &[u8; 32]) -> (r:
        [u8; 32])
        ensures
            r@ == keccak_of(commitment_message(vote_for_passenger, salt@)),
    {
        let message = Self::commitment_message(vote_for_passenger, salt);
        keccak256(env, message.as_slice())
    }

    /// Opens a juror's committed vote, given the digest of the vote byte and
    /// the salt, and counts it.
    pub fn reveal_vote_with_digest(
        store: &mut DisputeStorageKey,
        now: u64,
        juror: Address,
        dispute_id: u64,
        vote_for_passenger: bool,
        salt: [u8; 32],
        digest: [u8; 32],
    ) -> (r: Result<(), DisputeError>)
        requires
            old(store)@.wf(),
        ensures
            final(store)@.wf(),
            appeals_kept(old(store)@, final(store)@),
            match reveal_error(old(store)@, now, juror, dispute_id, vote_for_passenger, digest@) {
                Some(e) => r == Err::<(), _>(e) && final(store)@ == old(store)@,
                None => r is Ok && final(store)@ == revealed(
                    old(store)@,
                    now,
                    juror,
                    dispute_id,
                    vote_for_passenger,
                    salt,
                ),
            },
    {
        let mut dispute = match store.get_dispute(dispute_id) {
            None => return Err(DisputeError::DisputeNotFound),
            Some(d) => d,
        };
        if now > dispute.reveal_deadline {
            return Err(DisputeError::PeriodEnded);
        }
        if dispute.phase != DisputePhase::RevealVote {
            return Err(DisputeError::WrongPhase);
        }
        let round: u32 = if dispute.appealed {
            1
        } else {
            0
        };
        let commit = match store.get_vote_commit(dispute_id, round, juror) {
            None => return Err(DisputeError::NoCommitFound),
            Some(c) => c,
        };
        if store.get_vote_reveal(dispute_id, round, juror).is_some() {
            return Err(DisputeError::AlreadyRevealed);
        }
        if !bytes32_eq(&digest, &commit.commit_hash) {
            return Err(DisputeError::InvalidReveal);
        }
        if vote_for_passenger {
            if dispute.votes_for_passenger == u32::MAX {
                return Err(DisputeError::MathOverflow);
            }
            dispute.votes_for_passenger = dispute.votes_for_passenger + 1;
        } else {
            if dispute.votes_for_airline == u32::MAX {
                return Err(DisputeError::MathOverflow);
            }
            dispute.votes_for_airline = dispute.votes_for_airline + 1;
        }
        let reveal = VoteReveal {
            dispute_id,
            round,
            juror,
            vote_for_passenger,
            salt,
            revealed_at: now,
        };
        let ghost s0 = store@;
        proof {
            assert(s0.dispute_ok(s0.disputes[dispute_id - 1]));
            lemma_last_of_none(s0.reveals, of_reveal(dispute_id, round, juror));
        }
        store.set_dispute(dispute);
        store.push_reveal(reveal);
        proof {
            let s1 = store@;
            assert forall|k: int| 0 <= k < s1.disputes.len() implies s1.dispute_ok(
                #[trigger] s1.disputes[k],
            ) by {
                let id = s1.disputes[k].dispute_id;
                let r = round_of(s1.disputes[k]);
                lemma_filter_push(s0.reveals, reveal, of_vote(id, r, true));
                lemma_filter_push(s0.reveals, reveal, of_vote(id, r, false));
                assert(s0.dispute_ok(s0.disputes[k]));
            }
            assert forall|i: int| 0 <= i < s1.jurors.len() implies s1.not_party(
                #[trigger] s1.jurors[i],
            ) by {
                assert(s0.not_party(s0.jurors[i]));
            }
            assert forall|i: int| 0 <= i < s1.reveals.len() implies s1.in_past_round(
                #[trigger] s1.reveals[i],
            ) by {
                if i < s0.reveals.len() {
                    assert(s0.in_past_round(s0.reveals[i]));
                }
            }
            assert forall|i: int, k: int|
                0 <= i < k < s1.reveals.len() && (#[trigger] s1.reveals[i]).dispute_id == (
                #[trigger] s1.reveals[k]).dispute_id && s1.reveals[i].round == s1.reveals[k].round
                implies s1.reveals[i].juror != s1.reveals[k].juror by {
                if k == s0.reveals.len() {
                    assert(s1.reveals[i] == s0.reveals[i]);
                } else {
                    assert(s1.reveals[i] == s0.reveals[i] && s1.reveals[k] == s0.reveals[k]);
                }
            }
        }
        Ok(())
    }

    /// Opens a juror's committed vote: the Keccak-256 digest of the vote byte
    /// and the salt must equal the commitment.
    pub fn reveal_vote(
        env: &soroban_sdk::Env,
        store: &mut DisputeStorageKey,
        now: u64,
        juror: Address,
        dispute_id: u64,
        vote_for_passenger: bool,
        salt: [u8; 32],
    ) -> (r: Result<(), DisputeError>)
        requires
            old(store)@.wf(),
        ensures
            final(store)@.wf(),
            appeals_kept(old(store)@, final(store)@),
            match reveal_error(
                old(store)@,
                now,
                juror,
                dispute_id,
                vote_for_passenger,
                keccak_of(commitment_message(vote_for_passenger, salt@)),
            ) {
                Some(e) => r == Err::<(), _>(e) && final(store)@ == old(store)@,
                None => r is Ok && final(store)@ == revealed(
                    old(store)@,
                    now,
                    juror,
                    dispute_id,
                    vote_for_passenger,
                    salt,
                ),
            },
    {
        let digest = Self::commitment_hash(env, vote_for_passenger, &salt);
        Self::reveal_vote_with_digest(store, now, juror, dispute_id, vote_for_passenger, salt, digest)
    }

    /// Counts the revealed votes once the reveal period is over and records
    /// the verdict; the appeal window opens.
    pub fn finalize_dispute(store: &mut DisputeStorageKey, now: u64, dispute_id: u64) -> (r: Result<
        (),
        DisputeError,
    >)
        requires
            old(store)@.wf(),
        ensures
            final(store)@.wf(),
            appeals_kept(old(store)@, final(store)@),
            match finalize_error(old(store)@, now, dispute_id) {
                Some(e) => r == Err::<(), _>(e) && final(store)@ == old(store)@,
                None => r is Ok && final(store)@ == old(store)@.with_dispute(
                    finalized(old(store)@.dispute(dispute_id).unwrap(), now),
                ),
            },
    {
        let mut dispute = match store.get_dispute(dispute_id) {
            None => return Err(DisputeError::DisputeNotFound),
            Some(d) => d,
        };
        if now <= dispute.reveal_deadline {
            return Err(DisputeError::PeriodNotEnded);
        }
        if dispute.phase != DisputePhase::RevealVote {
            return Err(DisputeError::WrongPhase);
        }
        if dispute.votes_for_passenger == 0 && dispute.votes_for_airline == 0 {
            return Err(DisputeError::NoVotesRevealed);
        }
        let verdict = if dispute.votes_for_passenger > dispute.votes_for_airline {
            Verdict::Passenger
        } else if dispute.votes_for_airline > dispute.votes_for_passenger {
            Verdict::Airline
        } else {
            Verdict::Tie
        };
        dispute.verdict = Some(verdict);
        dispute.phase = DisputePhase::Appeal;
        dispute.finalized_at = Some(now);
        proof {
            assert(store@.dispute_ok(store@.disputes[dispute_id - 1]));
            lemma_with_dispute_wf(store@, dispute);
        }
        store.set_dispute(dispute);
        Ok(())
    }

    /// The losing side appeals once: the dispute goes back to a fresh
    /// evidence round with new deadlines, its tallies and verdict cleared,
    /// and the appeal stake is added to the appellant's stake.
    pub fn file_appeal(
        store: &mut DisputeStorageKey,
        now: u64,
        appellant: Address,
        dispute_id: u64,
        appeal_stake: i128,
    ) -> (r: Result<(), DisputeError>)
        requires
            old(store)@.wf(),
        ensures
            final(store)@.wf(),
            appeals_kept(old(store)@, final(store)@),
            match appeal_error(old(store)@, now, appellant, dispute_id, appeal_stake) {
                Some(e) => r == Err::<(), _>(e) && final(store)@ == old(store)@,
                None => r is Ok && final(store)@ == old(store)@.with_dispute(
                    reopened(
                        old(store)@.dispute(dispute_id).unwrap(),
                        now,
                        old(store)@.config.unwrap(),
                    ),
                ).with_stake(
                    dispute_id,
                    appellant,
                    (old(store)@.stake(dispute_id, appellant) + appeal_stake) as i128,
                ),
            },
    {
        let mut dispute = match store.get_dispute(dispute_id) {
            None => return Err(DisputeError::DisputeNotFound),
            Some(d) => d,
        };
        if now > dispute.appeal_deadline {
            return Err(DisputeError::PeriodEnded);
        }
        if dispute.phase != DisputePhase::Appeal {
            return Err(DisputeError::WrongPhase);
        }
        if dispute.appealed {
            return Err(DisputeError::AlreadyAppealed);
        }
        let is_losing_party = match dispute.verdict {
            Some(Verdict::Airline) => appellant == dispute.passenger,
            Some(Verdict::Passenger) => appellant == dispute.airline,
            _ => false,
        };
        if !is_losing_party {
            return Err(DisputeError::OnlyLoserAppeals);
        }
        let config = match store.get_config() {
            None => return Err(DisputeError::NotInitialized),
            Some(c) => c,
        };
        let required = match basis_points(dispute.amount, config.appeal_stake_multiplier) {
            None => return Err(DisputeError::MathOverflow),
            Some(m) => m,
        };
        if appeal_stake < required {
            return Err(DisputeError::InsufficientStake);
        }
        if now as u128 + config.evidence_period as u128 + config.voting_period as u128
            + config.reveal_period as u128 + config.appeal_period as u128 > u64::MAX as u128 {
            return Err(DisputeError::MathOverflow);
        }
        let current_stake = store.get_stake(dispute_id, appellant);
        let total_stake = match current_stake.checked_add(appeal_stake) {
            None => return Err(DisputeError::MathOverflow),
            Some(t) => t,
        };
        dispute.appealed = true;
        dispute.phase = DisputePhase::Evidence;
        dispute.votes_for_passenger = 0;
        dispute.votes_for_airline = 0;
        dispute.verdict = None;
        schedule(&mut dispute, now, config);
        proof {
            let s = store@;
            assert(s.dispute_ok(s.disputes[dispute_id - 1]));
            assert forall|i: int| 0 <= i < s.reveals.len() implies !((#[trigger] s.reveals[i]).dispute_id
                == dispute_id && s.reveals[i].round == 1) by {
                assert(s.in_past_round(s.reveals[i]));
            }
            lemma_filter_none(s.reveals, of_vote(dispute_id, 1, true));
            lemma_filter_none(s.reveals, of_vote(dispute_id, 1, false));
            lemma_with_dispute_wf(s, dispute);
        }
        store.set_dispute(dispute);
        store.set_stake(dispute_id, appellant, total_stake);
        Ok(())
    }

    /// Closes the dispute once the appeal window is over, and returns what
    /// the escrow module needs to settle it. A tie cannot be executed.
    pub fn execute_verdict(store: &mut DisputeStorageKey, now: u64, dispute_id: u64) -> (r: Result<
        VerdictExecution,
        DisputeError,
    >)
        requires
            old(store)@.wf(),
        ensures
            final(store)@.wf(),
            appeals_kept(old(store)@, final(store)@),
            match execute_error(old(store)@, now, dispute_id) {
                Some(e) => r == Err::<VerdictExecution, _>(e) && final(store)@ == old(store)@,
                None => {
                    let d = old(store)@.dispute(dispute_id).unwrap();
                    &&& r == Ok::<_, DisputeError>(execution_of(d, old(store)@.config.unwrap()))
                    &&& final(store)@ == old(store)@.with_dispute(
                        Dispute { phase: DisputePhase::Finalized, ..d },
                    )
                },
            },
    {
        let mut dispute = match store.get_dispute(dispute_id) {
            None => return Err(DisputeError::DisputeNotFound),
            Some(d) => d,
        };
        if dispute.phase == DisputePhase::Appeal && now <= dispute.appeal_deadline {
            return Err(DisputeError::PeriodNotEnded);
        }
        let verdict = match dispute.verdict {
            None => return Err(DisputeError::WrongPhase),
            Some(v) => v,
        };
        if verdict == Verdict::Tie {
            return Err(DisputeError::TieVerdict);
        }
        let config = match store.get_config() {
            None => return Err(DisputeError::NotInitialized),
            Some(c) => c,
        };
        let jury_reward_pool = match Self::jury_reward_pool(&dispute, &config) {
            None => return Err(DisputeError::MathOverflow),
            Some(p) => p,
        };
        dispute.phase = DisputePhase::Finalized;
        proof {
            assert(store@.dispute_ok(store@.disputes[dispute_id - 1]));
            lemma_with_dispute_wf(store@, dispute);
        }
        store.set_dispute(dispute);
        let passenger_won = verdict == Verdict::Passenger;
        Ok(
            VerdictExecution {
                dispute_id,
                winner: if passenger_won {
                    dispute.passenger
                } else {
                    dispute.airline
                },
                loser: if passenger_won {
                    dispute.airline
                } else {
                    dispute.passenger
                },
                amount: dispute.amount,
                jury_reward_pool,
            },
        )
    }

    /// The jurors' share of the combined stake, or `None` where it does not
    /// fit in an `i128`.
    pub fn jury_reward_pool(dispute: &Dispute, config: &DisputeConfig) -> (r: Option<i128>)
        ensures
            r is Some <==> jury_pool_fits(*dispute, *config),
            r is Some ==> r.unwrap() == jury_pool(*dispute, *config),
    {
        match dispute.passenger_stake.checked_add(dispute.airline_stake) {
            None => None,
            Some(total) => basis_points(total, config.jury_reward_pool_percentage),
        }
    }

    /// A juror who voted with the verdict of a closed dispute learns their
    /// share of the jury pool. Nothing records a claim.
    pub fn claim_juror_reward(store: &DisputeStorageKey, juror: Address, dispute_id: u64) -> (r:
        Result<i128, DisputeError>)
        requires
            store@.wf(),
        ensures
            match claim_error(store@, juror, dispute_id) {
                Some(e) => r == Err::<i128, _>(e),
                None => r == Ok::<i128, DisputeError>(
                    reward_of(store@.dispute(dispute_id).unwrap(), store@.config.unwrap()) as i128,
                ),
            },
    {
        let dispute = match store.get_dispute(dispute_id) {
            None => return Err(DisputeError::DisputeNotFound),
            Some(d) => d,
        };
        if dispute.phase != DisputePhase::Finalized {
            return Err(DisputeError::WrongPhase);
        }
        let verdict = match dispute.verdict {
            None => return Err(DisputeError::WrongPhase),
            Some(v) => v,
        };
        let round: u32 = if dispute.appealed {
            1
        } else {
            0
        };
        let reveal = match store.get_vote_reveal(dispute_id, round, juror) {
            None => return Err(DisputeError::NoRevealFound),
            Some(v) => v,
        };
        let voted_correctly = (verdict == Verdict::Passenger && reveal.vote_for_passenger) || (
        verdict == Verdict::Airline && !reveal.vote_for_passenger);
        if !voted_correctly {
            return Err(DisputeError::DidNotVoteMajority);
        }
        let config = match store.get_config() {
            None => return Err(DisputeError::NotInitialized),
            Some(c) => c,
        };
        let pool = match Self::jury_reward_pool(&dispute, &config) {
            None => return Err(DisputeError::MathOverflow),
            Some(p) => p,
        };
        let winning: u32 = if verdict == Verdict::Passenger {
            dispute.votes_for_passenger
        } else {
            dispute.votes_for_airline
        };
        proof {
            assert(store@.dispute_ok(store@.disputes[dispute_id - 1]));
        }
        match pool.checked_div(winning as i128) {
            Some(reward) => Ok(reward),
            None => Err(DisputeError::MathOverflow),
        }
    }

    pub fn get_dispute(store: &DisputeStorageKey, dispute_id: u64) -> (r: Option<Dispute>)
        ensures
            r == store@.dispute(dispute_id),
    {
        store.get_dispute(dispute_id)
    }

    /// The `index`-th piece of evidence that `submitter` gave on the dispute.
    pub fn get_evidence(store: &DisputeStorageKey, dispute_id: u64, submitter: Address, index: u32) -> (r:
        Option<&Evidence>)
        ensures
            r is Some <==> index < store@.evidence_of(dispute_id, submitter).len(),
            r is Some ==> *r.unwrap() == store@.evidence_of(dispute_id, submitter)[index as int],
    {
        store.get_evidence(dispute_id, submitter, index)
    }

    /// The `index`-th juror of the panel that the dispute's current round selects.
    pub fn get_juror(store: &DisputeStorageKey, dispute_id: u64, index: u32) -> (r: Option<
        JurorSelection,
    >)
        ensures
            store@.dispute(dispute_id) is None ==> r is None,
            store@.dispute(dispute_id) is Some ==> {
                let panel = store@.current_panel(dispute_id);
                &&& r is Some <==> index < panel.len()
                &&& r is Some ==> r.unwrap() == panel[index as int]
            },
    {
        match store.get_dispute(dispute_id) {
            None => None,
            Some(d) => store.get_juror(dispute_id, if d.appealed { 1 } else { 0 }, index),
        }
    }

    /// How many jurors the current round's panel holds.
    pub fn get_juror_count(store: &DisputeStorageKey, dispute_id: u64) -> (r: Result<u32, DisputeError>)
        requires
            store@.wf(),
        ensures
            store@.dispute(dispute_id) is None ==> r == Err::<u32, _>(DisputeError::DisputeNotFound),
            store@.dispute(dispute_id) is Some ==> r == Ok::<u32, DisputeError>(
                store@.current_panel(dispute_id).len() as u32,
            ),
    {
        match store.get_dispute(dispute_id) {
            None => Err(DisputeError::DisputeNotFound),
            Some(d) => {
                proof {
                    assert(store@.dispute_ok(store@.disputes[dispute_id - 1]));
                }
                let n = store.panel_size(dispute_id, if d.appealed { 1 } else { 0 });
                Ok(n as u32)
            },
        }
    }

    pub fn is_juror(store: &DisputeStorageKey, dispute_id: u64, address: Address) -> (r: bool)
        ensures
            r == store@.is_juror(dispute_id, address),
    {
        store.is_juror(dispute_id, address)
    }

    /// A juror's commitment in the dispute's current round.
    pub fn get_vote_commit(store: &DisputeStorageKey, dispute_id: u64, juror: Address) -> (r: Option<
        VoteCommit,
    >)
        ensures
            r == match store@.dispute(dispute_id) {
                Some(d) => store@.commit_record(dispute_id, round_of(d), juror),
                None => None,
            },
    {
        match store.get_dispute(dispute_id) {
            None => None,
            Some(d) => store.get_vote_commit(dispute_id, if d.appealed { 1 } else { 0 }, juror),
        }
    }

    /// A juror's revealed vote in the dispute's current round.
    pub fn get_vote_reveal(store: &DisputeStorageKey, dispute_id: u64, juror: Address) -> (r: Option<
        VoteReveal,
    >)
        ensures
            r == match store@.dispute(dispute_id) {
                Some(d) => store@.reveal_record(dispute_id, round_of(d), juror),
                None => None,
            },
    {
        match store.get_dispute(dispute_id) {
            None => None,
            Some(d) => store.get_vote_reveal(dispute_id, if d.appealed { 1 } else { 0 }, juror),
        }
    }

    pub fn get_dispute_count(store: &DisputeStorageKey) -> (r: u64)
        ensures
            r == store@.disputes.len(),
    {
        store.get_dispute_count()
    }

    pub fn get_config(store: &DisputeStorageKey) -> (r: Option<DisputeConfig>)
        ensures
            r == store@.config,
    {
        store.get_config()
    }
}

/// The revealed votes of a dispute, whichever side they favour.
pub open spec fn of_dispute_reveal(dispute_id: u64) -> spec_fn(VoteReveal) -> bool {
    |r: VoteReveal| r.dispute_id == dispute_id
}

proof fn lemma_votes_split(rs: Seq<VoteReveal>, dispute_id: u64, round: u32)
    ensures
        rs.filter(of_vote(dispute_id, round, true)).len() + rs.filter(
            of_vote(dispute_id, round, false),
        ).len() == rs.filter(of_round_reveal(dispute_id, round)).len(),
    decreases rs.len(),
{
    reveal(Seq::filter);
    if rs.len() > 0 {
        lemma_votes_split(rs.drop_last(), dispute_id, round);
    }
}

proof fn lemma_first_round_is_all(rs: Seq<VoteReveal>, dispute_id: u64)
    requires
        forall|i: int|
            0 <= i < rs.len() && (#[trigger] rs[i]).dispute_id == dispute_id ==> rs[i].round == 0,
    ensures
        rs.filter(of_round_reveal(dispute_id, 0)).len() == rs.filter(
            of_dispute_reveal(dispute_id),
        ).len(),
    decreases rs.len(),
{
    reveal(Seq::filter);
    if rs.len() > 0 {
        let rest = rs.drop_last();
        assert forall|i: int|
            0 <= i < rest.len() && (#[trigger] rest[i]).dispute_id == dispute_id implies rest[i].round
            == 0 by {
            assert(rest[i] == rs[i]);
        }
        lemma_first_round_is_all(rest, dispute_id);
    }
}

/// Filing succeeds exactly when the passenger's stake reaches the floor of
/// `amount * min_stake_percentage / 10000`, wherever the arithmetic fits.
pub proof fn lemma_file_dispute_stake_floor(
    s: DisputeLedger,
    now: u64,
    amount: i128,
    passenger_stake: i128,
)
    requires
        s.config is Some,
        bps_fits(amount as int, s.config.unwrap().min_stake_percentage as int),
        s.disputes.len() < u64::MAX,
        schedule_fits(now, s.config.unwrap()),
    ensures
        file_error(s, now, amount, passenger_stake) is Some <==> passenger_stake < bps_of(
            amount as int,
            s.config.unwrap().min_stake_percentage as int,
        ),
        file_error(s, now, amount, passenger_stake) is Some ==> file_error(
            s,
            now,
            amount,
            passenger_stake,
        ) == Some(DisputeError::InsufficientStake),
{
}

/// Once every other condition of a reveal holds, it succeeds exactly when the
/// digest of the opened vote equals the commitment of the current round; any
/// other vote and salt fail with `InvalidReveal`.
pub proof fn lemma_reveal_binding(
    s: DisputeLedger,
    now: u64,
    juror: Address,
    dispute_id: u64,
    vote_for_passenger: bool,
    digest: Seq<u8>,
)
    requires
        s.dispute(dispute_id) is Some,
        now <= s.dispute(dispute_id).unwrap().reveal_deadline,
        s.dispute(dispute_id).unwrap().phase == DisputePhase::RevealVote,
        s.commit_record(dispute_id, round_of(s.dispute(dispute_id).unwrap()), juror) is Some,
        s.reveal_record(dispute_id, round_of(s.dispute(dispute_id).unwrap()), juror) is None,
        s.dispute(dispute_id).unwrap().votes_for_passenger < u32::MAX,
        s.dispute(dispute_id).unwrap().votes_for_airline < u32::MAX,
    ensures
        ({
            let c = s.commit_record(dispute_id, round_of(s.dispute(dispute_id).unwrap()), juror);
            &&& reveal_error(s, now, juror, dispute_id, vote_for_passenger, digest) is None
                <==> digest == c.unwrap().commit_hash@
            &&& digest != c.unwrap().commit_hash@ ==> reveal_error(
                s,
                now,
                juror,
                dispute_id,
                vote_for_passenger,
                digest,
            ) == Some(DisputeError::InvalidReveal)
        }),
{
}

/// Neither party of a dispute can be seated on its jury.
pub proof fn lemma_party_cannot_be_juror(
    s: DisputeLedger,
    now: u64,
    juror: Address,
    dispute_id: u64,
    token_balance: i128,
)
    requires
        s.dispute(dispute_id) is Some,
        juror == s.dispute(dispute_id).unwrap().passenger || juror == s.dispute(
            dispute_id,
        ).unwrap().airline,
    ensures
        select_error(s, now, juror, dispute_id, token_balance) is Some,
{
}

/// No juror seat of any round is ever held by one of the two parties of its
/// dispute.
pub proof fn lemma_parties_never_seated(s: DisputeLedger, i: int)
    requires
        s.wf(),
        0 <= i < s.jurors.len(),
    ensures
        s.jurors[i].juror != s.dispute(s.jurors[i].dispute_id).unwrap().passenger,
        s.jurors[i].juror != s.dispute(s.jurors[i].dispute_id).unwrap().airline,
{
    assert(s.not_party(s.jurors[i]));
}

/// Two seats on the jury of one dispute, in any rounds, are held by two
/// different jurors, and each of its panels holds at most its jury size.
pub proof fn lemma_jurors_distinct(s: DisputeLedger, i: int, k: int)
    requires
        s.wf(),
        0 <= i < s.jurors.len(),
        0 <= k < s.jurors.len(),
        i != k,
        s.jurors[i].dispute_id == s.jurors[k].dispute_id,
    ensures
        s.jurors[i].juror != s.jurors[k].juror,
        s.panel(s.jurors[i].dispute_id, 0).len() <= s.dispute(
            s.jurors[i].dispute_id,
        ).unwrap().jury_size,
        s.panel(s.jurors[i].dispute_id, 1).len() <= s.dispute(
            s.jurors[i].dispute_id,
        ).unwrap().jury_size,
{
    assert(s.dispute_ok(s.disputes[s.jurors[i].dispute_id - 1]));
    if i > k {
        assert(s.jurors[k].juror != s.jurors[i].juror);
    }
}

/// In every state, a dispute's two tallies count the votes revealed in its
/// current round, and add up to the number of those reveal records; before
/// any appeal, that is every reveal record of the dispute.
pub proof fn lemma_tally_counts_reveals(s: DisputeLedger, dispute_id: u64)
    requires
        s.wf(),
        s.dispute(dispute_id) is Some,
    ensures
        ({
            let d = s.dispute(dispute_id).unwrap();
            let r = round_of(d);
            &&& d.votes_for_passenger == s.revealed_votes(dispute_id, r, true)
            &&& d.votes_for_airline == s.revealed_votes(dispute_id, r, false)
            &&& d.votes_for_passenger + d.votes_for_airline == s.reveals.filter(
                of_round_reveal(dispute_id, r),
            ).len()
            &&& !d.appealed ==> d.votes_for_passenger + d.votes_for_airline == s.reveals.filter(
                of_dispute_reveal(dispute_id),
            ).len()
        }),
{
    let d = s.disputes[dispute_id - 1];
    assert(s.dispute_ok(d));
    lemma_votes_split(s.reveals, dispute_id, round_of(d));
    if !d.appealed {
        assert forall|i: int|
            0 <= i < s.reveals.len() && (#[trigger] s.reveals[i]).dispute_id == dispute_id implies s.reveals[i].round
            == 0 by {
            assert(s.in_past_round(s.reveals[i]));
        }
        lemma_first_round_is_all(s.reveals, dispute_id);
    }
}

/// Two disputes with the same votes revealed in their current rounds get the
/// same verdict, the majority or a tie on equal counts.
pub proof fn lemma_verdict_determined(
    s1: DisputeLedger,
    id1: u64,
    now1: u64,
    s2: DisputeLedger,
    id2: u64,
    now2: u64,
)
    requires
        s1.wf(),
        s2.wf(),
        s1.dispute(id1) is Some,
        s2.dispute(id2) is Some,
        s1.revealed_votes(id1, round_of(s1.dispute(id1).unwrap()), true) == s2.revealed_votes(
            id2,
            round_of(s2.dispute(id2).unwrap()),
            true,
        ),
        s1.revealed_votes(id1, round_of(s1.dispute(id1).unwrap()), false) == s2.revealed_votes(
            id2,
            round_of(s2.dispute(id2).unwrap()),
            false,
        ),
    ensures
        finalized(s1.dispute(id1).unwrap(), now1).verdict == finalized(
            s2.dispute(id2).unwrap(),
            now2,
        ).verdict,
        finalized(s1.dispute(id1).unwrap(), now1).verdict == Some(
            verdict_of(
                s1.revealed_votes(id1, round_of(s1.dispute(id1).unwrap()), true) as int,
                s1.revealed_votes(id1, round_of(s1.dispute(id1).unwrap()), false) as int,
            ),
        ),
{
    assert(s1.dispute_ok(s1.disputes[id1 - 1]));
    assert(s2.dispute_ok(s2.disputes[id2 - 1]));
}

/// An appeal clears the tallies and the verdict and reopens the evidence
/// phase; the dispute stays appealed, so every later appeal fails.
pub proof fn lemma_appeal_resets_once(
    s: DisputeLedger,
    now: u64,
    appellant: Address,
    dispute_id: u64,
    appeal_stake: i128,
    later: u64,
    second_appellant: Address,
    second_stake: i128,
)
    requires
        s.wf(),
        s.dispute(dispute_id) is Some,
        s.config is Some,
    ensures
        ({
            let d = reopened(s.dispute(dispute_id).unwrap(), now, s.config.unwrap());
            &&& d.votes_for_passenger == 0
            &&& d.votes_for_airline == 0
            &&& d.verdict is None
            &&& d.phase == DisputePhase::Evidence
            &&& d.appealed
        }),
        s.dispute(dispute_id).unwrap().appealed ==> appeal_error(
            s,
            later,
            second_appellant,
            dispute_id,
            second_stake,
        ) is Some,
        appeal_error(s, now, appellant, dispute_id, appeal_stake) is None ==> appeal_error(
            s.with_dispute(reopened(s.dispute(dispute_id).unwrap(), now, s.config.unwrap())),
            later,
            second_appellant,
            dispute_id,
            second_stake,
        ) is Some,
{
    let d2 = reopened(s.dispute(dispute_id).unwrap(), now, s.config.unwrap());
    assert(s.with_dispute(d2).dispute(dispute_id) == Some(d2));
}

/// Every operation keeps appealed disputes appealed, so a run of operations
/// does too: a dispute once appealed is appealed in every later state, and
/// every later appeal of it fails.
pub proof fn lemma_appealed_forever(
    s1: DisputeLedger,
    s2: DisputeLedger,
    s3: DisputeLedger,
    dispute_id: u64,
    now: u64,
    appellant: Address,
    appeal_stake: i128,
)
    requires
        appeals_kept(s1, s2),
        appeals_kept(s2, s3),
        s1.dispute(dispute_id) is Some,
        s1.dispute(dispute_id).unwrap().appealed,
    ensures
        appeals_kept(s1, s3),
        s3.dispute(dispute_id) is Some,
        s3.dispute(dispute_id).unwrap().appealed,
        appeal_error(s3, now, appellant, dispute_id, appeal_stake) is Some,
{
    assert(s1.disputes[dispute_id - 1].appealed);
    assert(s2.disputes[dispute_id - 1].appealed);
}

/// Within one round of a dispute, each juror has at most one revealed vote,
/// so the reveal records that agree with the verdict belong to that many
/// different jurors.
pub proof fn lemma_one_reveal_per_juror(s: DisputeLedger, i: int, k: int)
    requires
        s.wf(),
        0 <= i < s.reveals.len(),
        0 <= k < s.reveals.len(),
        i != k,
        s.reveals[i].dispute_id == s.reveals[k].dispute_id,
        s.reveals[i].round == s.reveals[k].round,
    ensures
        s.reveals[i].juror != s.reveals[k].juror,
{
    if i > k {
        assert(s.reveals[k].juror != s.reveals[i].juror);
    }
}

/// The rewards of the majority's revealed votes in the current round, one
/// claim each, add up to the jury pool less what truncation leaves:
/// `pool - pool % m` for `m` winning votes.
pub proof fn lemma_rewards_sum(s: DisputeLedger, dispute_id: u64)
    requires
        s.wf(),
        s.dispute(dispute_id) is Some,
        s.dispute(dispute_id).unwrap().phase == DisputePhase::Finalized,
        s.dispute(dispute_id).unwrap().verdict != Some(Verdict::Tie),
        s.config is Some,
        jury_pool(s.dispute(dispute_id).unwrap(), s.config.unwrap()) >= 0,
    ensures
        ({
            let d = s.dispute(dispute_id).unwrap();
            let c = s.config.unwrap();
            let m = s.revealed_votes(
                dispute_id,
                round_of(d),
                d.verdict == Some(Verdict::Passenger),
            );
            let pool = jury_pool(d, c);
            &&& m >= 1
            &&& m == winning_votes(d)
            &&& m * reward_of(d, c) == pool - pool % (m as int)
        }),
{
    let d = s.dispute(dispute_id).unwrap();
    let c = s.config.unwrap();
    assert(s.dispute_ok(s.disputes[dispute_id - 1]));
    let m = winning_votes(d);
    let pool = jury_pool(d, c);
    assert(m >= 1);
    assert(m * (pool / m) == pool - pool % m) by (nonlinear_arith)
        requires
            m >= 1,
            pool >= 0,
    {
        vstd::arithmetic::div_mod::lemma_fundamental_div_mod(pool, m);
    }
}

/// A commit is on time up to and including the voting deadline; one second
/// later it fails with `PeriodEnded`.
pub proof fn lemma_commit_deadline(s: DisputeLedger, juror: Address, dispute_id: u64)
    requires
        s.dispute(dispute_id) is Some,
        s.dispute(dispute_id).unwrap().phase == DisputePhase::CommitVote,
        s.dispute(dispute_id).unwrap().voting_deadline < u64::MAX,
        s.is_seated(dispute_id, round_of(s.dispute(dispute_id).unwrap()), juror),
        s.commit_record(dispute_id, round_of(s.dispute(dispute_id).unwrap()), juror) is None,
    ensures
        commit_error(s, s.dispute(dispute_id).unwrap().voting_deadline, juror, dispute_id) is None,
        commit_error(
            s,
            (s.dispute(dispute_id).unwrap().voting_deadline + 1) as u64,
            juror,
            dispute_id,
        ) == Some(DisputeError::PeriodEnded),
{
}

} // verus!
