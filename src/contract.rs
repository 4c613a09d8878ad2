use vstd::prelude::*;

use crate::error::ContractError;
use crate::types::{
    agreed_count, opt_view, required_for, Agreement, AgreementView, ConsensusRule,
    ConsensusTransaction, TransactionStatus, TransactionView, Transfer,
};
use crate::utils::{
    can_submit_agreement, check_record, contains_party, find_vote, has_consensus, is_expired,
    lemma_agreements_push, lemma_vote_in_none,
};

verus! {

/// Mathematical model of the escrow engine: its admin and its records, the record
/// with id `k` standing at index `k - 1`.
pub struct ContractView {
    pub admin: Option<Seq<char>>,
    pub transactions: Seq<TransactionView>,
}

pub open spec fn records_view(s: Seq<ConsensusTransaction>) -> Seq<TransactionView> {
    s.map_values(|t: ConsensusTransaction| t@)
}

/// The record that `create_transaction` stores.
pub open spec fn new_record(
    transaction_id: u64,
    buyer: Seq<char>,
    seller: Seq<char>,
    arbitrator: Option<Seq<char>>,
    token: Seq<char>,
    amount: i128,
    description: Seq<char>,
    consensus_rule: ConsensusRule,
    deadline: u64,
    now: u64,
) -> TransactionView {
    TransactionView {
        transaction_id,
        buyer,
        seller,
        arbitrator,
        token,
        amount,
        description,
        status: TransactionStatus::Created,
        consensus_rule,
        deadline,
        created_at: now,
        agreements: Seq::empty(),
        required_parties: required_for(buyer, seller, arbitrator, consensus_rule),
        deposited: 0,
        paid_out: 0,
    }
}

/// Why the creation inputs are refused, checked in this order; `None` if they are valid.
pub open spec fn create_error(
    buyer: Seq<char>,
    seller: Seq<char>,
    arbitrator: Option<Seq<char>>,
    amount: i128,
    consensus_rule: ConsensusRule,
    deadline_duration: u64,
    now: u64,
) -> Option<ContractError> {
    if amount <= 0 {
        Some(ContractError::InvalidAmount)
    } else if deadline_duration == 0 {
        Some(ContractError::InvalidDeadline)
    } else if buyer == seller {
        Some(ContractError::DuplicateParties)
    } else if arbitrator matches Some(a) && (a == buyer || a == seller) {
        Some(ContractError::DuplicateParties)
    } else if consensus_rule == ConsensusRule::WithArbitrator && arbitrator is None {
        Some(ContractError::ArbitratorRequired)
    } else if now + deadline_duration > u64::MAX {
        Some(ContractError::InvalidDeadline)
    } else {
        None
    }
}

impl ContractView {
    /// Every record is well formed and carries the id of its place.
    pub open spec fn wf(self) -> bool {
        forall|i: int|
            0 <= i < self.transactions.len() ==> (#[trigger] self.transactions[i]).wf()
                && self.transactions[i].transaction_id == i + 1
    }

    /// The number of ids issued so far.
    pub open spec fn counter(self) -> nat {
        self.transactions.len()
    }

    pub open spec fn has_id(self, id: u64) -> bool {
        1 <= id <= self.transactions.len()
    }

    pub open spec fn lookup(self, id: u64) -> Option<TransactionView> {
        if self.has_id(id) {
            Some(self.transactions[id - 1])
        } else {
            None
        }
    }

    pub open spec fn with_record(self, id: u64, t: TransactionView) -> ContractView {
        ContractView { transactions: self.transactions.update(id - 1, t), ..self }
    }

    pub open spec fn initialize_step(self, admin: Seq<char>) -> (ContractView, Result<
        (),
        ContractError,
    >) {
        if self.admin is Some {
            (self, Err(ContractError::AlreadyInitialized))
        } else {
            (ContractView { admin: Some(admin), ..self }, Ok(()))
        }
    }

    pub open spec fn set_admin_step(self, current: Seq<char>, new_admin: Seq<char>) -> (
        ContractView,
        Result<(), ContractError>,
    ) {
        match self.admin {
            None => (self, Err(ContractError::AdminNotSet)),
            Some(a) => if a != current {
                (self, Err(ContractError::NotAuthorized))
            } else {
                (ContractView { admin: Some(new_admin), ..self }, Ok(()))
            },
        }
    }

    pub open spec fn create_step(
        self,
        buyer: Seq<char>,
        seller: Seq<char>,
        arbitrator: Option<Seq<char>>,
        token: Seq<char>,
        amount: i128,
        description: Seq<char>,
        consensus_rule: ConsensusRule,
        deadline_duration: u64,
        now: u64,
    ) -> (ContractView, Result<u64, ContractError>) {
        match create_error(
            buyer,
            seller,
            arbitrator,
            amount,
            consensus_rule,
            deadline_duration,
            now,
        ) {
            Some(e) => (self, Err(e)),
            None => {
                let id = (self.transactions.len() + 1) as u64;
                let t = new_record(
                    id,
                    buyer,
                    seller,
                    arbitrator,
                    token,
                    amount,
                    description,
                    consensus_rule,
                    (now + deadline_duration) as u64,
                    now,
                );
                (ContractView { transactions: self.transactions.push(t), ..self }, Ok(id))
            },
        }
    }

    pub open spec fn fund_step(self, buyer: Seq<char>, id: u64, now: u64) -> (
        ContractView,
        Result<Transfer, ContractError>,
    ) {
        match self.lookup(id) {
            None => (self, Err(ContractError::TransactionNotFound)),
            Some(t) => if buyer != t.buyer {
                (self, Err(ContractError::NotAuthorized))
            } else if t.status != TransactionStatus::Created {
                (self, Err(ContractError::TransactionAlreadyFunded))
            } else if t.is_expired(now) {
                (self, Err(ContractError::TransactionExpired))
            } else {
                (
                    self.with_record(
                        id,
                        TransactionView {
                            status: TransactionStatus::Funded,
                            deposited: t.amount,
                            ..t
                        },
                    ),
                    Ok(Transfer::Deposit),
                )
            },
        }
    }

    pub open spec fn agree_step(
        self,
        party: Seq<char>,
        id: u64,
        agreed: bool,
        reason: Option<Seq<char>>,
        now: u64,
    ) -> (ContractView, Result<Option<Transfer>, ContractError>) {
        match self.lookup(id) {
            None => (self, Err(ContractError::TransactionNotFound)),
            Some(t) => if t.is_expired(now) {
                (self, Err(ContractError::TransactionExpired))
            } else if !t.can_vote(party) {
                (self, Err(ContractError::NotAuthorizedParty))
            } else if t.vote_of(party) is Some {
                (self, Err(ContractError::AgreementAlreadySubmitted))
            } else {
                let voted = TransactionView {
                    agreements: t.agreements.push(
                        AgreementView { party, agreed, timestamp: now, reason },
                    ),
                    ..t
                };
                if !agreed {
                    (
                        self.with_record(
                            id,
                            TransactionView {
                                status: TransactionStatus::Refunded,
                                paid_out: t.amount,
                                ..voted
                            },
                        ),
                        Ok(Some(Transfer::RefundToBuyer)),
                    )
                } else if voted.consensus() {
                    (
                        self.with_record(
                            id,
                            TransactionView { status: TransactionStatus::ConsensusReached, ..voted },
                        ),
                        Ok(None),
                    )
                } else {
                    (self.with_record(id, voted), Ok(None))
                }
            },
        }
    }

    pub open spec fn release_step(self, caller: Seq<char>, id: u64, now: u64) -> (
        ContractView,
        Result<Transfer, ContractError>,
    ) {
        match self.lookup(id) {
            None => (self, Err(ContractError::TransactionNotFound)),
            Some(t) => if t.is_expired(now) {
                (self, Err(ContractError::TransactionExpired))
            } else if !t.is_required(caller) {
                (self, Err(ContractError::NotAuthorized))
            } else if t.status != TransactionStatus::ConsensusReached || !t.consensus() {
                (self, Err(ContractError::ConsensusNotReached))
            } else {
                (
                    self.with_record(
                        id,
                        TransactionView {
                            status: TransactionStatus::Released,
                            paid_out: t.amount,
                            ..t
                        },
                    ),
                    Ok(Transfer::ReleaseToSeller),
                )
            },
        }
    }

    pub open spec fn expire_step(self, id: u64, now: u64) -> (
        ContractView,
        Result<Option<Transfer>, ContractError>,
    ) {
        match self.lookup(id) {
            None => (self, Err(ContractError::TransactionNotFound)),
            Some(t) => if !t.is_expired(now) {
                (self, Err(ContractError::InvalidTimestamp))
            } else if t.status.is_final() {
                (self, Err(ContractError::InvalidTransactionStatus))
            } else if t.status == TransactionStatus::Funded || t.status
                == TransactionStatus::ConsensusReached {
                (
                    self.with_record(
                        id,
                        TransactionView {
                            status: TransactionStatus::Refunded,
                            paid_out: t.amount,
                            ..t
                        },
                    ),
                    Ok(Some(Transfer::RefundToBuyer)),
                )
            } else {
                (
                    self.with_record(id, TransactionView { status: TransactionStatus::Expired, ..t }),
                    Ok(None),
                )
            },
        }
    }

    /// Ids of the records in which `user` is a required party, in order of creation.
    pub open spec fn user_transactions(self, user: Seq<char>) -> Seq<u64> {
        ids_involving(self.transactions, user)
    }
}

pub open spec fn ids_involving(ts: Seq<TransactionView>, user: Seq<char>) -> Seq<u64>
    decreases ts.len(),
{
    if ts.len() == 0 {
        Seq::empty()
    } else if ts.last().is_required(user) {
        ids_involving(ts.drop_last(), user).push(ts.last().transaction_id)
    } else {
        ids_involving(ts.drop_last(), user)
    }
}

proof fn lemma_no_agreed_votes(ps: Seq<Seq<char>>, a: Seq<AgreementView>)
    requires
        a.len() == 0,
    ensures
        agreed_count(ps, a) == 0,
    decreases ps.len(),
{
    if ps.len() > 0 {
        lemma_no_agreed_votes(ps.drop_last(), a);
    }
}

/// Before any vote no rule has its quorum.
pub proof fn lemma_no_votes_no_consensus(t: TransactionView)
    requires
        t.agreements.len() == 0,
        t.required_parties == required_for(t.buyer, t.seller, t.arbitrator, t.consensus_rule),
    ensures
        !t.consensus(),
{
    lemma_no_agreed_votes(t.required_parties, t.agreements);
    if t.consensus_rule == ConsensusRule::Unanimous {
        assert(!t.has_agreed(t.required_parties[0]));
    }
}

/// The quorum depends on the parties, the rule and the votes alone.
pub proof fn lemma_consensus_same_votes(t1: TransactionView, t2: TransactionView)
    requires
        t1.buyer == t2.buyer,
        t1.seller == t2.seller,
        t1.arbitrator == t2.arbitrator,
        t1.consensus_rule == t2.consensus_rule,
        t1.required_parties == t2.required_parties,
        t1.agreements == t2.agreements,
    ensures
        t1.consensus() == t2.consensus(),
{
    if t1.consensus_rule == ConsensusRule::Unanimous {
        if t1.consensus() {
            assert forall|i: int| 0 <= i < t2.required_parties.len() implies #[trigger] t2.has_agreed(
                t2.required_parties[i],
            ) by {
                assert(t1.has_agreed(t1.required_parties[i]));
            }
        }
        if t2.consensus() {
            assert forall|i: int| 0 <= i < t1.required_parties.len() implies #[trigger] t1.has_agreed(
                t1.required_parties[i],
            ) by {
                assert(t2.has_agreed(t2.required_parties[i]));
            }
        }
    }
}

proof fn lemma_with_record_wf(v: ContractView, id: u64, t: TransactionView)
    requires
        v.wf(),
        v.has_id(id),
        t.wf(),
        t.transaction_id == id,
    ensures
        v.with_record(id, t).wf(),
        v.with_record(id, t).transactions.len() == v.transactions.len(),
{
    let w = v.with_record(id, t);
    assert forall|i: int| 0 <= i < w.transactions.len() implies (#[trigger] w.transactions[i]).wf()
        && w.transactions[i].transaction_id == i + 1 by {
        if i != id - 1 {
            assert(w.transactions[i] == v.transactions[i]);
        }
    }
}

/// Creating a record keeps the engine well formed.
pub proof fn lemma_create_wf(
    v: ContractView,
    buyer: Seq<char>,
    seller: Seq<char>,
    arbitrator: Option<Seq<char>>,
    token: Seq<char>,
    amount: i128,
    description: Seq<char>,
    consensus_rule: ConsensusRule,
    deadline_duration: u64,
    now: u64,
)
    requires
        v.wf(),
        v.counter() < u64::MAX,
    ensures
        v.create_step(
            buyer,
            seller,
            arbitrator,
            token,
            amount,
            description,
            consensus_rule,
            deadline_duration,
            now,
        ).0.wf(),
{
    let w = v.create_step(
        buyer,
        seller,
        arbitrator,
        token,
        amount,
        description,
        consensus_rule,
        deadline_duration,
        now,
    ).0;
    if create_error(buyer, seller, arbitrator, amount, consensus_rule, deadline_duration, now)
        is None {
        let n = v.transactions.len() as int;
        assert forall|i: int| 0 <= i < w.transactions.len() implies (#[trigger] w.transactions[i]).wf()
            && w.transactions[i].transaction_id == i + 1 by {
            if i < n {
                assert(w.transactions[i] == v.transactions[i]);
            }
        }
    }
}

/// Funding keeps the engine well formed.
pub proof fn lemma_fund_wf(v: ContractView, buyer: Seq<char>, id: u64, now: u64)
    requires
        v.wf(),
    ensures
        v.fund_step(buyer, id, now).0.wf(),
{
    if let Some(t) = v.lookup(id) {
        assert(t.wf() && t.transaction_id == id);
        if buyer == t.buyer && t.status == TransactionStatus::Created && !t.is_expired(now) {
            let u = TransactionView { status: TransactionStatus::Funded, deposited: t.amount, ..t };
            lemma_no_votes_no_consensus(u);
            lemma_with_record_wf(v, id, u);
        }
    }
}

/// Voting keeps the engine well formed.
pub proof fn lemma_agree_wf(
    v: ContractView,
    party: Seq<char>,
    id: u64,
    agreed: bool,
    reason: Option<Seq<char>>,
    now: u64,
)
    requires
        v.wf(),
    ensures
        v.agree_step(party, id, agreed, reason, now).0.wf(),
{
    if let Some(t) = v.lookup(id) {
        assert(t.wf() && t.transaction_id == id);
        if !t.is_expired(now) && t.can_vote(party) && t.vote_of(party) is None {
            let a = AgreementView { party, agreed, timestamp: now, reason };
            let voted = TransactionView { agreements: t.agreements.push(a), ..t };
            lemma_vote_in_none(t.agreements, party);
            let ag = voted.agreements;
            assert forall|i: int| 0 <= i < ag.len() implies voted.is_required((#[trigger] ag[i]).party) by {
                if i < t.agreements.len() {
                    assert(ag[i] == t.agreements[i]);
                }
            }
            assert forall|i: int, j: int| 0 <= i < j < ag.len() implies (#[trigger] ag[i]).party
                != (#[trigger] ag[j]).party by {
                assert(ag[i] == t.agreements[i]);
                if j < t.agreements.len() {
                    assert(ag[j] == t.agreements[j]);
                }
            }
            if !agreed {
                let u = TransactionView {
                    status: TransactionStatus::Refunded,
                    paid_out: t.amount,
                    ..voted
                };
                lemma_with_record_wf(v, id, u);
            } else {
                assert(!voted.has_rejection()) by {
                    if voted.has_rejection() {
                        let i = choose|i: int| 0 <= i < ag.len() && !(#[trigger] ag[i]).agreed;
                        if i < t.agreements.len() {
                            assert(ag[i] == t.agreements[i]);
                        }
                    }
                }
                if voted.consensus() {
                    let u = TransactionView { status: TransactionStatus::ConsensusReached, ..voted };
                    lemma_consensus_same_votes(u, voted);
                    assert(u.has_rejection() == voted.has_rejection());
                    lemma_with_record_wf(v, id, u);
                } else {
                    lemma_with_record_wf(v, id, voted);
                }
            }
        }
    }
}

/// Releasing keeps the engine well formed.
pub proof fn lemma_release_wf(v: ContractView, caller: Seq<char>, id: u64, now: u64)
    requires
        v.wf(),
    ensures
        v.release_step(caller, id, now).0.wf(),
{
    if let Some(t) = v.lookup(id) {
        assert(t.wf() && t.transaction_id == id);
        if !t.is_expired(now) && t.is_required(caller) && t.status
            == TransactionStatus::ConsensusReached && t.consensus() {
            let u = TransactionView { status: TransactionStatus::Released, paid_out: t.amount, ..t };
            lemma_with_record_wf(v, id, u);
        }
    }
}

/// Expiry keeps the engine well formed.
pub proof fn lemma_expire_wf(v: ContractView, id: u64, now: u64)
    requires
        v.wf(),
    ensures
        v.expire_step(id, now).0.wf(),
{
    if let Some(t) = v.lookup(id) {
        assert(t.wf() && t.transaction_id == id);
        if t.is_expired(now) && !t.status.is_final() {
            if t.status == TransactionStatus::Funded || t.status
                == TransactionStatus::ConsensusReached {
                let u = TransactionView {
                    status: TransactionStatus::Refunded,
                    paid_out: t.amount,
                    ..t
                };
                lemma_with_record_wf(v, id, u);
            } else {
                let u = TransactionView { status: TransactionStatus::Expired, ..t };
                lemma_with_record_wf(v, id, u);
            }
        }
    }
}

/// The escrow engine: it keeps the records and decides every state change. The
/// caller authenticates identities, supplies the clock, performs the returned
/// [`Transfer`] and discards the whole call if that transfer fails.
///
/// A call that fails changes nothing. In particular funding, voting or releasing
/// past a record's deadline fails with `TransactionExpired` and leaves the record as
/// it was; `handle_expiration` is the call that settles it.
pub struct ConsensusReleaseContract {
    admin: Option<String>,
    transactions: Vec<ConsensusTransaction>,
}

impl View for ConsensusReleaseContract {
    type V = ContractView;

    closed spec fn view(&self) -> ContractView {
        ContractView { admin: opt_view(self.admin), transactions: records_view(self.transactions@) }
    }
}

proof fn lemma_records_update(s: Seq<ConsensusTransaction>, i: int, x: ConsensusTransaction)
    requires
        0 <= i < s.len(),
    ensures
        records_view(s.update(i, x)) == records_view(s).update(i, x@),
{
    assert(records_view(s.update(i, x)) =~= records_view(s).update(i, x@));
}

proof fn lemma_records_push(s: Seq<ConsensusTransaction>, x: ConsensusTransaction)
    ensures
        records_view(s.push(x)) == records_view(s).push(x@),
{
    assert(records_view(s.push(x)) =~= records_view(s).push(x@));
}

impl ConsensusReleaseContract {
    /// An engine with no admin and no records.
    pub fn new() -> (r: Self)
        ensures
            r@.admin is None,
            r@.transactions.len() == 0,
            r@.wf(),
    {
        let r = ConsensusReleaseContract { admin: None, transactions: Vec::new() };
        assert(r@.transactions =~= Seq::<TransactionView>::empty());
        r
    }

    /// Sets the admin; fails with `AlreadyInitialized` once one is set.
    pub fn initialize(&mut self, admin: String) -> (r: Result<(), ContractError>)
        ensures
            (final(self)@, r) == old(self)@.initialize_step(admin@),
    {
        if self.admin.is_some() {
            return Err(ContractError::AlreadyInitialized);
        }
        self.admin = Some(admin);
        Ok(())
    }

    /// The admin, or `AdminNotSet`.
    pub fn get_admin(&self) -> (r: Result<String, ContractError>)
        ensures
            match self@.admin {
                Some(a) => r is Ok && r->Ok_0@ == a,
                None => r == Err::<String, ContractError>(ContractError::AdminNotSet),
            },
    {
        match &self.admin {
            Some(a) => Ok(a.clone()),
            None => Err(ContractError::AdminNotSet),
        }
    }

    /// Hands the admin role from `current_admin` to `new_admin`.
    pub fn set_admin(&mut self, current_admin: &String, new_admin: String) -> (r: Result<
        (),
        ContractError,
    >)
        ensures
            (final(self)@, r) == old(self)@.set_admin_step(current_admin@, new_admin@),
    {
        match &self.admin {
            None => Err(ContractError::AdminNotSet),
            Some(a) => {
                if *a != *current_admin {
                    Err(ContractError::NotAuthorized)
                } else {
                    self.admin = Some(new_admin);
                    Ok(())
                }
            },
        }
    }

    /// Rebuilds an engine from stored state. Fails with `StorageError` unless every
    /// record satisfies its invariant and carries the id of its place.
    pub fn restore(admin: Option<String>, transactions: Vec<ConsensusTransaction>) -> (r: Result<
        Self,
        ContractError,
    >)
        ensures
            ({
                let v = ContractView {
                    admin: opt_view(admin),
                    transactions: records_view(transactions@),
                };
                match r {
                    Ok(c) => c@ == v && v.wf(),
                    Err(e) => e == ContractError::StorageError && !v.wf(),
                }
            }),
    {
        let ghost ts = records_view(transactions@);
        let mut i: usize = 0;
        while i < transactions.len()
            invariant
                ts == records_view(transactions@),
                i <= transactions.len(),
                forall|k: int|
                    0 <= k < i ==> (#[trigger] ts[k]).wf() && ts[k].transaction_id == k + 1,
            decreases transactions.len() - i,
        {
            let t = &transactions[i];
            if !check_record(t) || t.transaction_id != i as u64 + 1 {
                assert(!(ts[i as int].wf() && ts[i as int].transaction_id == i + 1));
                return Err(ContractError::StorageError);
            }
            i = i + 1;
        }
        Ok(ConsensusReleaseContract { admin, transactions })
    }

    /// The admin and the records, oldest first, for storing.
    pub fn into_parts(self) -> (r: (Option<String>, Vec<ConsensusTransaction>))
        ensures
            opt_view(r.0) == self@.admin,
            records_view(r.1@) == self@.transactions,
    {
        (self.admin, self.transactions)
    }

    /// The number of records created so far, which is also the latest id.
    pub fn get_transaction_counter(&self) -> (r: u64)
        ensures
            r == self@.counter(),
    {
        self.transactions.len() as u64
    }

    fn index_of(&self, transaction_id: u64) -> (r: Result<usize, ContractError>)
        ensures
            match r {
                Ok(i) => self@.has_id(transaction_id) && i == transaction_id - 1,
                Err(e) => !self@.has_id(transaction_id) && e == ContractError::TransactionNotFound,
            },
    {
        if transaction_id == 0 || transaction_id > self.transactions.len() as u64 {
            Err(ContractError::TransactionNotFound)
        } else {
            Ok((transaction_id - 1) as usize)
        }
    }

    /// The record with this id, or `TransactionNotFound`.
    pub fn get_transaction(&self, transaction_id: u64) -> (r: Result<
        &ConsensusTransaction,
        ContractError,
    >)
        ensures
            match r {
                Ok(t) => self@.lookup(transaction_id) == Some(t@),
                Err(e) => self@.lookup(transaction_id) is None && e
                    == ContractError::TransactionNotFound,
            },
    {
        match self.index_of(transaction_id) {
            Ok(i) => Ok(&self.transactions[i]),
            Err(e) => Err(e),
        }
    }

    /// Ids of the records in which `user` is a required party, oldest first.
    pub fn get_user_transactions(&self, user: &String) -> (r: Vec<u64>)
        ensures
            r@ == self@.user_transactions(user@),
    {
        let ghost ts = self@.transactions;
        let mut ids: Vec<u64> = Vec::new();
        let mut i: usize = 0;
        assert(ts.subrange(0, 0) =~= Seq::<TransactionView>::empty());
        while i < self.transactions.len()
            invariant
                ts == self@.transactions,
                ts == records_view(self.transactions@),
                i <= self.transactions.len(),
                ids@ == ids_involving(ts.subrange(0, i as int), user@),
            decreases self.transactions.len() - i,
        {
            assert(ts.subrange(0, i + 1).drop_last() =~= ts.subrange(0, i as int));
            let t = &self.transactions[i];
            if contains_party(&t.required_parties, user) {
                ids.push(t.transaction_id);
            }
            i = i + 1;
        }
        assert(ts.subrange(0, i as int) =~= ts);
        ids
    }

    /// Opens a record in status `Created` and returns its id, one above every id
    /// issued before. `now` is the ledger time; the deadline is `now + deadline_duration`.
    pub fn create_transaction(
        &mut self,
        buyer: String,
        seller: String,
        arbitrator: Option<String>,
        token: String,
        amount: i128,
        description: String,
        consensus_rule: ConsensusRule,
        deadline_duration: u64,
        now: u64,
    ) -> (r: Result<u64, ContractError>)
        requires
            old(self)@.wf(),
            old(self)@.counter() < u64::MAX,
        ensures
            final(self)@.wf(),
            (final(self)@, r) == old(self)@.create_step(
                buyer@,
                seller@,
                opt_view(arbitrator),
                token@,
                amount,
                description@,
                consensus_rule,
                deadline_duration,
                now,
            ),
    {
        proof {
            lemma_create_wf(
                self@,
                buyer@,
                seller@,
                opt_view(arbitrator),
                token@,
                amount,
                description@,
                consensus_rule,
                deadline_duration,
                now,
            );
        }
        if amount <= 0 {
            return Err(ContractError::InvalidAmount);
        }
        if deadline_duration == 0 {
            return Err(ContractError::InvalidDeadline);
        }
        if buyer == seller {
            return Err(ContractError::DuplicateParties);
        }
        if let Some(a) = &arbitrator {
            if *a == buyer || *a == seller {
                return Err(ContractError::DuplicateParties);
            }
        }
        if consensus_rule == ConsensusRule::WithArbitrator && arbitrator.is_none() {
            return Err(ContractError::ArbitratorRequired);
        }
        let deadline = match now.checked_add(deadline_duration) {
            Some(d) => d,
            None => {
                return Err(ContractError::InvalidDeadline);
            },
        };
        let transaction_id = self.transactions.len() as u64 + 1;
        let mut required_parties: Vec<String> = Vec::new();
        required_parties.push(buyer.clone());
        required_parties.push(seller.clone());
        if let Some(a) = &arbitrator {
            if consensus_rule == ConsensusRule::WithArbitrator || consensus_rule
                == ConsensusRule::Unanimous {
                required_parties.push(a.clone());
            }
        }
        let transaction = ConsensusTransaction {
            transaction_id,
            buyer,
            seller,
            arbitrator,
            token,
            amount,
            description,
            status: TransactionStatus::Created,
            consensus_rule,
            deadline,
            created_at: now,
            agreements: Vec::new(),
            required_parties,
            deposited: 0,
            paid_out: 0,
        };
        proof {
            let t = transaction@;
            assert(t.agreements =~= Seq::<AgreementView>::empty());
            assert(t.required_parties =~= required_for(
                t.buyer,
                t.seller,
                t.arbitrator,
                consensus_rule,
            ));
            lemma_records_push(self.transactions@, transaction);
        }
        self.transactions.push(transaction);
        Ok(transaction_id)
    }

    /// The buyer moves the amount into custody: `Created` becomes `Funded`.
    pub fn fund_transaction(&mut self, buyer: &String, transaction_id: u64, now: u64) -> (r:
        Result<Transfer, ContractError>)
        requires
            old(self)@.wf(),
        ensures
            final(self)@.wf(),
            (final(self)@, r) == old(self)@.fund_step(buyer@, transaction_id, now),
    {
        proof {
            lemma_fund_wf(self@, buyer@, transaction_id, now);
        }
        let i = match self.index_of(transaction_id) {
            Ok(i) => i,
            Err(e) => {
                return Err(e);
            },
        };
        let t = &self.transactions[i];
        if *buyer != t.buyer {
            return Err(ContractError::NotAuthorized);
        }
        if t.status != TransactionStatus::Created {
            return Err(ContractError::TransactionAlreadyFunded);
        }
        if is_expired(t, now) {
            return Err(ContractError::TransactionExpired);
        }
        let ghost old_records = self.transactions@;
        let t = &mut self.transactions[i];
        t.status = TransactionStatus::Funded;
        t.deposited = t.amount;
        proof {
            lemma_records_update(old_records, i as int, self.transactions@[i as int]);
        }
        Ok(Transfer::Deposit)
    }

    /// A required party of a funded record votes. A vote against refunds the buyer at
    /// once; a vote for it moves the record to `ConsensusReached` when the quorum is met.
    pub fn submit_agreement(
        &mut self,
        party: &String,
        transaction_id: u64,
        agreed: bool,
        reason: Option<String>,
        now: u64,
    ) -> (r: Result<Option<Transfer>, ContractError>)
        requires
            old(self)@.wf(),
        ensures
            final(self)@.wf(),
            (final(self)@, r) == old(self)@.agree_step(
                party@,
                transaction_id,
                agreed,
                opt_view(reason),
                now,
            ),
    {
        proof {
            lemma_agree_wf(self@, party@, transaction_id, agreed, opt_view(reason), now);
        }
        let i = match self.index_of(transaction_id) {
            Ok(i) => i,
            Err(e) => {
                return Err(e);
            },
        };
        let t = &self.transactions[i];
        if is_expired(t, now) {
            return Err(ContractError::TransactionExpired);
        }
        if !can_submit_agreement(t, party) {
            return Err(ContractError::NotAuthorizedParty);
        }
        if find_vote(&t.agreements, party).is_some() {
            return Err(ContractError::AgreementAlreadySubmitted);
        }
        let ghost old_records = self.transactions@;
        let ghost old_agreements = self.transactions@[i as int].agreements@;
        let agreement = Agreement { party: party.clone(), agreed, timestamp: now, reason };
        proof {
            lemma_agreements_push(old_agreements, agreement);
        }
        let t = &mut self.transactions[i];
        t.agreements.push(agreement);
        let transfer = if !agreed {
            t.status = TransactionStatus::Refunded;
            t.paid_out = t.amount;
            Some(Transfer::RefundToBuyer)
        } else {
            if has_consensus(t) {
                t.status = TransactionStatus::ConsensusReached;
            }
            None
        };
        proof {
            lemma_records_update(old_records, i as int, self.transactions@[i as int]);
        }
        Ok(transfer)
    }

    /// Pays the seller once the quorum is met; any required party may call it.
    pub fn release_funds(&mut self, caller: &String, transaction_id: u64, now: u64) -> (r: Result<
        Transfer,
        ContractError,
    >)
        requires
            old(self)@.wf(),
        ensures
            final(self)@.wf(),
            (final(self)@, r) == old(self)@.release_step(caller@, transaction_id, now),
    {
        proof {
            lemma_release_wf(self@, caller@, transaction_id, now);
        }
        let i = match self.index_of(transaction_id) {
            Ok(i) => i,
            Err(e) => {
                return Err(e);
            },
        };
        let t = &self.transactions[i];
        if is_expired(t, now) {
            return Err(ContractError::TransactionExpired);
        }
        if !contains_party(&t.required_parties, caller) {
            return Err(ContractError::NotAuthorized);
        }
        if t.status != TransactionStatus::ConsensusReached {
            return Err(ContractError::ConsensusNotReached);
        }
        if !has_consensus(t) {
            return Err(ContractError::ConsensusNotReached);
        }
        let ghost old_records = self.transactions@;
        let t = &mut self.transactions[i];
        t.status = TransactionStatus::Released;
        t.paid_out = t.amount;
        proof {
            lemma_records_update(old_records, i as int, self.transactions@[i as int]);
        }
        Ok(Transfer::ReleaseToSeller)
    }

    /// Settles a record whose deadline has passed; anyone may call it. Funds in
    /// custody go back to the buyer (`Refunded`); an unfunded record becomes `Expired`.
    pub fn handle_expiration(&mut self, transaction_id: u64, now: u64) -> (r: Result<
        Option<Transfer>,
        ContractError,
    >)
        requires
            old(self)@.wf(),
        ensures
            final(self)@.wf(),
            (final(self)@, r) == old(self)@.expire_step(transaction_id, now),
    {
        proof {
            lemma_expire_wf(self@, transaction_id, now);
        }
        let i = match self.index_of(transaction_id) {
            Ok(i) => i,
            Err(e) => {
                return Err(e);
            },
        };
        let t = &self.transactions[i];
        if !is_expired(t, now) {
            return Err(ContractError::InvalidTimestamp);
        }
        if t.status == TransactionStatus::Released || t.status == TransactionStatus::Refunded
            || t.status == TransactionStatus::Expired {
            return Err(ContractError::InvalidTransactionStatus);
        }
        let ghost old_records = self.transactions@;
        let t = &mut self.transactions[i];
        let transfer = if t.status == TransactionStatus::Funded || t.status
            == TransactionStatus::ConsensusReached {
            t.status = TransactionStatus::Refunded;
            t.paid_out = t.amount;
            Some(Transfer::RefundToBuyer)
        } else {
            t.status = TransactionStatus::Expired;
            None
        };
        proof {
            lemma_records_update(old_records, i as int, self.transactions@[i as int]);
        }
        Ok(transfer)
    }
}

} // verus!
