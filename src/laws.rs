use vstd::prelude::*;

use crate::contract::{
    create_error, lemma_agree_wf, lemma_create_wf, lemma_expire_wf,
    lemma_fund_wf, lemma_release_wf, ContractView,
};
use crate::error::ContractError;
use crate::types::{vote_in, AgreementView, ConsensusRule, TransactionStatus, TransactionView, Transfer};

verus! {

/// Any one call on the engine, with the arguments it receives.
pub enum Call {
    Initialize { admin: Seq<char> },
    SetAdmin { current: Seq<char>, new_admin: Seq<char> },
    Create {
        buyer: Seq<char>,
        seller: Seq<char>,
        arbitrator: Option<Seq<char>>,
        token: Seq<char>,
        amount: i128,
        description: Seq<char>,
        consensus_rule: ConsensusRule,
        deadline_duration: u64,
        now: u64,
    },
    Fund { buyer: Seq<char>, id: u64, now: u64 },
    Agree { party: Seq<char>, id: u64, agreed: bool, reason: Option<Seq<char>>, now: u64 },
    Release { caller: Seq<char>, id: u64, now: u64 },
    Expire { id: u64, now: u64 },
}

/// The engine after `c`.
pub open spec fn apply(v: ContractView, c: Call) -> ContractView {
    match c {
        Call::Initialize { admin } => v.initialize_step(admin).0,
        Call::SetAdmin { current, new_admin } => v.set_admin_step(current, new_admin).0,
        Call::Create {
            buyer,
            seller,
            arbitrator,
            token,
            amount,
            description,
            consensus_rule,
            deadline_duration,
            now,
        } => v.create_step(
            buyer,
            seller,
            arbitrator,
            token,
            amount,
            description,
            consensus_rule,
            deadline_duration,
            now,
        ).0,
        Call::Fund { buyer, id, now } => v.fund_step(buyer, id, now).0,
        Call::Agree { party, id, agreed, reason, now } => v.agree_step(
            party,
            id,
            agreed,
            reason,
            now,
        ).0,
        Call::Release { caller, id, now } => v.release_step(caller, id, now).0,
        Call::Expire { id, now } => v.expire_step(id, now).0,
    }
}

/// The engine after the calls `cs`, first to last.
pub open spec fn apply_all(v: ContractView, cs: Seq<Call>) -> ContractView
    decreases cs.len(),
{
    if cs.len() == 0 {
        v
    } else {
        apply(apply_all(v, cs.drop_last()), cs.last())
    }
}

/// Every call keeps the engine well formed, adds at most one record and leaves the
/// fixed terms of each existing record (parties, token, amount, rule, deadline) as they were.
pub proof fn lemma_call_keeps_terms(v: ContractView, c: Call)
    requires
        v.wf(),
        v.counter() < u64::MAX,
    ensures
        apply(v, c).wf(),
        v.counter() <= apply(v, c).counter() <= v.counter() + 1,
        forall|i: int|
            0 <= i < v.transactions.len() ==> same_terms(
                #[trigger] apply(v, c).transactions[i],
                v.transactions[i],
            ),
{
    match c {
        Call::Initialize { admin } => {},
        Call::SetAdmin { current, new_admin } => {},
        Call::Create {
            buyer,
            seller,
            arbitrator,
            token,
            amount,
            description,
            consensus_rule,
            deadline_duration,
            now,
        } => {
            lemma_create_wf(
                v,
                buyer,
                seller,
                arbitrator,
                token,
                amount,
                description,
                consensus_rule,
                deadline_duration,
                now,
            );
            let w = apply(v, c);
            assert forall|i: int| 0 <= i < v.transactions.len() implies same_terms(
                #[trigger] w.transactions[i],
                v.transactions[i],
            ) by {
                if create_error(
                    buyer,
                    seller,
                    arbitrator,
                    amount,
                    consensus_rule,
                    deadline_duration,
                    now,
                ) is None {
                    assert(w.transactions[i] == v.transactions[i]);
                }
            }
        },
        Call::Fund { buyer, id, now } => {
            lemma_fund_wf(v, buyer, id, now);
        },
        Call::Agree { party, id, agreed, reason, now } => {
            lemma_agree_wf(v, party, id, agreed, reason, now);
        },
        Call::Release { caller, id, now } => {
            lemma_release_wf(v, caller, id, now);
        },
        Call::Expire { id, now } => {
            lemma_expire_wf(v, id, now);
        },
    }
}

/// The terms fixed when a record is created.
pub open spec fn same_terms(a: TransactionView, b: TransactionView) -> bool {
    &&& a.transaction_id == b.transaction_id
    &&& a.buyer == b.buyer
    &&& a.seller == b.seller
    &&& a.arbitrator == b.arbitrator
    &&& a.token == b.token
    &&& a.amount == b.amount
    &&& a.consensus_rule == b.consensus_rule
    &&& a.required_parties == b.required_parties
    &&& a.deadline == b.deadline
    &&& a.created_at == b.created_at
}

/// After any sequence of calls the engine is well formed, and every record that
/// existed before still has the terms it was created with.
pub proof fn lemma_calls_keep_terms(v: ContractView, cs: Seq<Call>)
    requires
        v.wf(),
        v.counter() + cs.len() < u64::MAX,
    ensures
        apply_all(v, cs).wf(),
        v.counter() <= apply_all(v, cs).counter() <= v.counter() + cs.len(),
        forall|i: int|
            0 <= i < v.transactions.len() ==> same_terms(
                #[trigger] apply_all(v, cs).transactions[i],
                v.transactions[i],
            ),
    decreases cs.len(),
{
    if cs.len() > 0 {
        let prefix = cs.drop_last();
        lemma_calls_keep_terms(v, prefix);
        let u = apply_all(v, prefix);
        lemma_call_keeps_terms(u, cs.last());
        assert forall|i: int| 0 <= i < v.transactions.len() implies same_terms(
            #[trigger] apply_all(v, cs).transactions[i],
            v.transactions[i],
        ) by {
            assert(same_terms(u.transactions[i], v.transactions[i]));
            assert(same_terms(apply(u, cs.last()).transactions[i], u.transactions[i]));
        }
    }
}

/// A record's amount never changes, and what left custody for it is either nothing
/// or exactly its amount, never part of it.
pub proof fn lemma_amount_fixed_and_paid_in_full(v: ContractView, cs: Seq<Call>, id: u64)
    requires
        v.wf(),
        v.counter() + cs.len() < u64::MAX,
        v.has_id(id),
    ensures
        apply_all(v, cs).lookup(id) is Some,
        apply_all(v, cs).lookup(id).unwrap().amount == v.lookup(id).unwrap().amount,
        apply_all(v, cs).lookup(id).unwrap().paid_out == 0 || apply_all(v, cs).lookup(
            id,
        ).unwrap().paid_out == v.lookup(id).unwrap().amount,
{
    lemma_calls_keep_terms(v, cs);
    let w = apply_all(v, cs);
    assert(same_terms(w.transactions[id - 1], v.transactions[id - 1]));
    assert(w.transactions[id - 1].wf());
}

/// The transfer that call `c` asks for, if it succeeds and asks for one.
pub open spec fn transfer_of(v: ContractView, c: Call) -> Option<Transfer> {
    match c {
        Call::Fund { buyer, id, now } => match v.fund_step(buyer, id, now).1 {
            Ok(t) => Some(t),
            Err(_) => None,
        },
        Call::Agree { party, id, agreed, reason, now } => match v.agree_step(
            party,
            id,
            agreed,
            reason,
            now,
        ).1 {
            Ok(t) => t,
            Err(_) => None,
        },
        Call::Release { caller, id, now } => match v.release_step(caller, id, now).1 {
            Ok(t) => Some(t),
            Err(_) => None,
        },
        Call::Expire { id, now } => match v.expire_step(id, now).1 {
            Ok(t) => t,
            Err(_) => None,
        },
        _ => None,
    }
}

/// The record that call `c` names, if any.
pub open spec fn target_of(c: Call) -> Option<u64> {
    match c {
        Call::Fund { id, .. } => Some(id),
        Call::Agree { id, .. } => Some(id),
        Call::Release { id, .. } => Some(id),
        Call::Expire { id, .. } => Some(id),
        _ => None,
    }
}

/// Value leaves custody only through a refund or a release, and always the record's
/// whole amount at once: such a transfer takes the record's `paid_out` from zero to
/// its amount, and no other call changes `paid_out`.
pub proof fn lemma_payout_is_whole(v: ContractView, c: Call, id: u64)
    requires
        v.wf(),
        v.counter() < u64::MAX,
        v.has_id(id),
    ensures
        ({
            let before = v.lookup(id).unwrap();
            let after = apply(v, c).lookup(id).unwrap();
            let outbound = transfer_of(v, c) == Some(Transfer::RefundToBuyer) || transfer_of(v, c)
                == Some(Transfer::ReleaseToSeller);
            &&& outbound && target_of(c) == Some(id) ==> before.paid_out == 0 && after.paid_out
                == before.amount
            &&& !(outbound && target_of(c) == Some(id)) ==> after.paid_out == before.paid_out
        }),
{
    lemma_call_keeps_terms(v, c);
    let w = apply(v, c);
    assert(v.transactions[id - 1].wf());
    match c {
        Call::Create {
            buyer,
            seller,
            arbitrator,
            token,
            amount,
            description,
            consensus_rule,
            deadline_duration,
            now,
        } => {
            if create_error(
                buyer,
                seller,
                arbitrator,
                amount,
                consensus_rule,
                deadline_duration,
                now,
            ) is None {
                assert(w.transactions[id - 1] == v.transactions[id - 1]);
            }
        },
        Call::Fund { buyer, id: j, now } => {
            if j != id && v.fund_step(buyer, j, now).1 is Ok {
                assert(w.transactions[id - 1] == v.transactions[id - 1]);
            }
        },
        Call::Agree { party, id: j, agreed, reason, now } => {
            if j != id && v.agree_step(party, j, agreed, reason, now).1 is Ok {
                assert(w.transactions[id - 1] == v.transactions[id - 1]);
            }
        },
        Call::Release { caller, id: j, now } => {
            if j != id && v.release_step(caller, j, now).1 is Ok {
                assert(w.transactions[id - 1] == v.transactions[id - 1]);
            }
        },
        Call::Expire { id: j, now } => {
            if j != id && v.expire_step(j, now).1 is Ok {
                assert(w.transactions[id - 1] == v.transactions[id - 1]);
            }
        },
        _ => {},
    }
}

/// A call never changes a released, refunded or expired record.
pub proof fn lemma_final_record_unchanged(v: ContractView, c: Call, id: u64)
    requires
        v.wf(),
        v.counter() < u64::MAX,
        v.lookup(id) matches Some(t) && t.status.is_final(),
    ensures
        apply(v, c).lookup(id) == v.lookup(id),
{
    let w = apply(v, c);
    lemma_call_keeps_terms(v, c);
    match c {
        Call::Create {
            buyer,
            seller,
            arbitrator,
            token,
            amount,
            description,
            consensus_rule,
            deadline_duration,
            now,
        } => {
            if create_error(
                buyer,
                seller,
                arbitrator,
                amount,
                consensus_rule,
                deadline_duration,
                now,
            ) is None {
                assert(w.transactions[id - 1] == v.transactions[id - 1]);
            }
        },
        Call::Fund { buyer, id: j, now } => {
            if j != id && v.fund_step(buyer, j, now).1 is Ok {
                assert(w.transactions[id - 1] == v.transactions[id - 1]);
            }
        },
        Call::Agree { party, id: j, agreed, reason, now } => {
            if j != id && v.agree_step(party, j, agreed, reason, now).1 is Ok {
                assert(w.transactions[id - 1] == v.transactions[id - 1]);
            }
        },
        Call::Release { caller, id: j, now } => {
            if j != id && v.release_step(caller, j, now).1 is Ok {
                assert(w.transactions[id - 1] == v.transactions[id - 1]);
            }
        },
        Call::Expire { id: j, now } => {
            if j != id && v.expire_step(j, now).1 is Ok {
                assert(w.transactions[id - 1] == v.transactions[id - 1]);
            }
        },
        _ => {},
    }
}

/// Once a required party has voted against the release the record is `Refunded`,
/// and no sequence of later calls changes it.
pub proof fn lemma_rejection_is_final(v: ContractView, cs: Seq<Call>, id: u64)
    requires
        v.wf(),
        v.counter() + cs.len() < u64::MAX,
        v.lookup(id) matches Some(t) && t.has_rejection(),
    ensures
        v.lookup(id).unwrap().status == TransactionStatus::Refunded,
        apply_all(v, cs).lookup(id) == v.lookup(id),
    decreases cs.len(),
{
    assert(v.transactions[id - 1].wf());
    if cs.len() > 0 {
        let prefix = cs.drop_last();
        lemma_rejection_is_final(v, prefix, id);
        lemma_calls_keep_terms(v, prefix);
        lemma_final_record_unchanged(apply_all(v, prefix), cs.last(), id);
    }
}

/// Under `Unanimous` the quorum is met exactly when every required party voted for
/// the release.
pub proof fn lemma_unanimous_needs_every_vote(t: TransactionView)
    requires
        t.consensus_rule == ConsensusRule::Unanimous,
    ensures
        t.consensus() <==> forall|i: int|
            0 <= i < t.required_parties.len() ==> #[trigger] vote_in(
                t.agreements,
                t.required_parties[i],
            ) == Some(true),
{
    if t.consensus() {
        assert forall|i: int| 0 <= i < t.required_parties.len() implies #[trigger] vote_in(
            t.agreements,
            t.required_parties[i],
        ) == Some(true) by {
            assert(t.has_agreed(t.required_parties[i]));
        }
    }
    if forall|i: int|
        0 <= i < t.required_parties.len() ==> #[trigger] vote_in(
            t.agreements,
            t.required_parties[i],
        ) == Some(true) {
        assert forall|i: int| 0 <= i < t.required_parties.len() implies #[trigger] t.has_agreed(
            t.required_parties[i],
        ) by {
            assert(vote_in(t.agreements, t.required_parties[i]) == Some(true));
        }
    }
}

/// Under `Unanimous`, a required party whose vote is against the release or missing
/// keeps the quorum from being met, whatever the other votes are.
pub proof fn lemma_unanimous_one_missing_vote(t: TransactionView, k: int)
    requires
        t.consensus_rule == ConsensusRule::Unanimous,
        0 <= k < t.required_parties.len(),
        vote_in(t.agreements, t.required_parties[k]) != Some(true),
    ensures
        !t.consensus(),
{
    assert(!t.has_agreed(t.required_parties[k]));
}

/// Each new id is larger than every id issued before it.
pub proof fn lemma_new_id_is_largest(
    v: ContractView,
    buyer: Seq<char>,
    seller: Seq<char>,
    arbitrator: Option<Seq<char>>,
    token: Seq<char>,
    amount: i128,
    description: Seq<char>,
    consensus_rule: ConsensusRule,
    deadline_duration: u64,
    now: u64,
)
    requires
        v.wf(),
        v.counter() < u64::MAX,
    ensures
        v.create_step(
            buyer,
            seller,
            arbitrator,
            token,
            amount,
            description,
            consensus_rule,
            deadline_duration,
            now,
        ).1 matches Ok(id) ==> forall|i: int|
            0 <= i < v.transactions.len() ==> (#[trigger] v.transactions[i]).transaction_id < id,
{
}

/// Funding a record just created, before its deadline, succeeds; the record then
/// reads `Funded` with its full amount in custody.
pub proof fn lemma_create_then_fund(
    v: ContractView,
    buyer: Seq<char>,
    seller: Seq<char>,
    arbitrator: Option<Seq<char>>,
    token: Seq<char>,
    amount: i128,
    description: Seq<char>,
    consensus_rule: ConsensusRule,
    deadline_duration: u64,
    now: u64,
    fund_time: u64,
)
    requires
        v.wf(),
        v.counter() < u64::MAX,
        create_error(buyer, seller, arbitrator, amount, consensus_rule, deadline_duration, now)
            is None,
        fund_time <= now + deadline_duration,
    ensures
        ({
            let (w, r) = v.create_step(
                buyer,
                seller,
                arbitrator,
                token,
                amount,
                description,
                consensus_rule,
                deadline_duration,
                now,
            );
            let id = r->Ok_0;
            let (x, f) = w.fund_step(buyer, id, fund_time);
            &&& r is Ok
            &&& f == Ok::<Transfer, ContractError>(Transfer::Deposit)
            &&& x.lookup(id) matches Some(t) && t.status == TransactionStatus::Funded
                && t.deposited == amount && t.amount == amount
        }),
{
}

/// Releasing before the quorum is met fails with `ConsensusNotReached` and changes nothing.
pub proof fn lemma_release_needs_consensus(v: ContractView, caller: Seq<char>, id: u64, now: u64)
    requires
        v.wf(),
        v.lookup(id) matches Some(t) && !t.consensus() && !t.is_expired(now) && t.is_required(
            caller,
        ),
    ensures
        v.release_step(caller, id, now) == (v, Err::<Transfer, ContractError>(
            ContractError::ConsensusNotReached,
        )),
{
}

/// A party that voted on a record cannot vote on it again: while the record is still
/// open for votes and before its deadline, the second vote fails with
/// `AgreementAlreadySubmitted` and changes nothing.
pub proof fn lemma_second_vote_fails(
    v: ContractView,
    party: Seq<char>,
    id: u64,
    agreed: bool,
    reason: Option<Seq<char>>,
    now: u64,
    agreed2: bool,
    reason2: Option<Seq<char>>,
    now2: u64,
)
    requires
        v.wf(),
        v.agree_step(party, id, agreed, reason, now).1 is Ok,
        v.agree_step(party, id, agreed, reason, now).0.lookup(id) matches Some(t) && t.status
            == TransactionStatus::Funded && !t.is_expired(now2),
    ensures
        ({
            let w = v.agree_step(party, id, agreed, reason, now).0;
            w.agree_step(party, id, agreed2, reason2, now2) == (w, Err::<
                Option<Transfer>,
                ContractError,
            >(ContractError::AgreementAlreadySubmitted))
        }),
{
    let t = v.lookup(id).unwrap();
    let a = AgreementView { party, agreed, timestamp: now, reason };
    assert(t.agreements.push(a).drop_last() =~= t.agreements);
}

/// Past the deadline, funding, voting and releasing fail with `TransactionExpired`
/// and change nothing; only `handle_expiration` settles the record. Before the
/// deadline `handle_expiration` fails with `InvalidTimestamp`.
pub proof fn lemma_deadline_guards(
    v: ContractView,
    id: u64,
    now: u64,
    party: Seq<char>,
    agreed: bool,
    reason: Option<Seq<char>>,
)
    requires
        v.wf(),
        v.lookup(id) is Some,
    ensures
        ({
            let t = v.lookup(id).unwrap();
            &&& t.is_expired(now) ==> {
                &&& (t.status == TransactionStatus::Created ==> v.fund_step(t.buyer, id, now) == (
                v,
                Err::<Transfer, ContractError>(ContractError::TransactionExpired),
            ))
                &&& v.agree_step(party, id, agreed, reason, now) == (v, Err::<
                    Option<Transfer>,
                    ContractError,
                >(ContractError::TransactionExpired))
                &&& v.release_step(party, id, now) == (v, Err::<Transfer, ContractError>(
                    ContractError::TransactionExpired,
                ))
            }
            &&& !t.is_expired(now) ==> v.expire_step(id, now) == (v, Err::<
                Option<Transfer>,
                ContractError,
            >(ContractError::InvalidTimestamp))
        }),
{
}

} // verus!
