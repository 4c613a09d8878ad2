use vstd::prelude::*;

use crate::types::{
    agreed_count, agreements_view, parties_view, required_for, vote_in, Agreement, AgreementView, ConsensusRule,
    ConsensusTransaction, TransactionStatus,
};

verus! {

proof fn lemma_vote_in_prefix(a: Seq<AgreementView>, i: int, p: Seq<char>)
    requires
        0 < i <= a.len(),
    ensures
        vote_in(a.subrange(0, i), p) == if a[i - 1].party == p {
            Some(a[i - 1].agreed)
        } else {
            vote_in(a.subrange(0, i - 1), p)
        },
{
    assert(a.subrange(0, i).drop_last() =~= a.subrange(0, i - 1));
}

/// No vote by `p` among `a` exactly when no agreement names `p`.
pub proof fn lemma_vote_in_none(a: Seq<AgreementView>, p: Seq<char>)
    ensures
        vote_in(a, p) is None <==> forall|i: int| 0 <= i < a.len() ==> (#[trigger] a[i]).party != p,
    decreases a.len(),
{
    if a.len() > 0 {
        lemma_vote_in_none(a.drop_last(), p);
        if vote_in(a, p) is None {
            assert forall|i: int| 0 <= i < a.len() implies (#[trigger] a[i]).party != p by {
                if i < a.len() - 1 {
                    assert(a[i] == a.drop_last()[i]);
                }
            }
        } else {
            if a.last().party != p {
                let j = choose|j: int| 0 <= j < a.drop_last().len() && a.drop_last()[j].party == p;
                assert(a[j] == a.drop_last()[j]);
            }
        }
    }
}

pub proof fn lemma_agreements_push(v: Seq<Agreement>, x: Agreement)
    ensures
        agreements_view(v.push(x)) == agreements_view(v).push(x@),
{
    assert(agreements_view(v.push(x)) =~= agreements_view(v).push(x@));
}

/// The vote that `party` cast among `agreements`, if any.
pub fn find_vote(agreements: &Vec<Agreement>, party: &String) -> (r: Option<bool>)
    ensures
        r == vote_in(agreements_view(agreements@), party@),
{
    let ghost a = agreements_view(agreements@);
    let mut i: usize = agreements.len();
    assert(a.subrange(0, i as int) =~= a);
    while i > 0
        invariant
            i <= agreements.len(),
            a == agreements_view(agreements@),
            vote_in(a, party@) == vote_in(a.subrange(0, i as int), party@),
        decreases i,
    {
        proof {
            lemma_vote_in_prefix(a, i as int, party@);
        }
        let agreement = &agreements[i - 1];
        if agreement.party == *party {
            return Some(agreement.agreed);
        }
        i = i - 1;
    }
    None
}

/// Whether `p` is among `parties`.
pub fn contains_party(parties: &Vec<String>, p: &String) -> (r: bool)
    ensures
        r == parties_view(parties@).contains(p@),
{
    let ghost ps = parties_view(parties@);
    let mut i: usize = 0;
    while i < parties.len()
        invariant
            i <= parties.len(),
            ps == parties_view(parties@),
            forall|j: int| 0 <= j < i ==> ps[j] != p@,
        decreases parties.len() - i,
    {
        if parties[i] == *p {
            assert(ps[i as int] == p@);
            return true;
        }
        i = i + 1;
    }
    false
}

/// Whether the quorum of the record's rule is met.
pub fn has_consensus(transaction: &ConsensusTransaction) -> (r: bool)
    ensures
        r == transaction@.consensus(),
{
    let ghost t = transaction@;
    match transaction.consensus_rule {
        ConsensusRule::Unanimous => {
            let mut i: usize = 0;
            while i < transaction.required_parties.len()
                invariant
                    t == transaction@,
                    t.consensus_rule == ConsensusRule::Unanimous,
                    i <= transaction.required_parties.len(),
                    forall|j: int| 0 <= j < i ==> #[trigger] t.has_agreed(t.required_parties[j]),
                decreases transaction.required_parties.len() - i,
            {
                let v = find_vote(&transaction.agreements, &transaction.required_parties[i]);
                if v != Some(true) {
                    assert(!t.has_agreed(t.required_parties[i as int]));
                    return false;
                }
                i = i + 1;
            }
            true
        },
        ConsensusRule::Majority => {
            let n = transaction.required_parties.len();
            let mut count: usize = 0;
            let mut i: usize = 0;
            while i < n
                invariant
                    t == transaction@,
                    n == transaction.required_parties.len(),
                    i <= n,
                    count <= i,
                    count == agreed_count(t.required_parties.subrange(0, i as int), t.agreements),
                decreases n - i,
            {
                let v = find_vote(&transaction.agreements, &transaction.required_parties[i]);
                assert(t.required_parties.subrange(0, i + 1).drop_last() =~= t.required_parties.subrange(0, i as int));
                if v == Some(true) {
                    count = count + 1;
                }
                i = i + 1;
            }
            assert(t.required_parties.subrange(0, n as int) =~= t.required_parties);
            count > n / 2
        },
        ConsensusRule::BuyerSellerOnly => {
            find_vote(&transaction.agreements, &transaction.buyer) == Some(true)
                && find_vote(&transaction.agreements, &transaction.seller) == Some(true)
        },
        ConsensusRule::WithArbitrator => {
            match &transaction.arbitrator {
                Some(arbitrator) => {
                    find_vote(&transaction.agreements, &transaction.buyer) == Some(true)
                        && find_vote(&transaction.agreements, &transaction.seller) == Some(true)
                        && find_vote(&transaction.agreements, arbitrator) == Some(true)
                },
                None => false,
            }
        },
    }
}

/// Whether some party voted against the release.
pub fn has_rejection(transaction: &ConsensusTransaction) -> (r: bool)
    ensures
        r == transaction@.has_rejection(),
{
    let ghost t = transaction@;
    let mut i: usize = 0;
    while i < transaction.agreements.len()
        invariant
            t == transaction@,
            i <= transaction.agreements.len(),
            forall|j: int| 0 <= j < i ==> (#[trigger] t.agreements[j]).agreed,
        decreases transaction.agreements.len() - i,
    {
        if !transaction.agreements[i].agreed {
            assert(!t.agreements[i as int].agreed);
            return true;
        }
        i = i + 1;
    }
    false
}

/// Whether the record's deadline has passed at time `current_timestamp`.
pub fn is_expired(transaction: &ConsensusTransaction, current_timestamp: u64) -> (r: bool)
    ensures
        r == transaction@.is_expired(current_timestamp),
{
    current_timestamp > transaction.deadline
}

/// Whether `party` may vote on the record now.
pub fn can_submit_agreement(transaction: &ConsensusTransaction, party: &String) -> (r: bool)
    ensures
        r == transaction@.can_vote(party@),
{
    contains_party(&transaction.required_parties, party) && transaction.status
        == TransactionStatus::Funded
}

/// Whether `parties` lists exactly the parties that the record's rule requires.
fn check_required_parties(transaction: &ConsensusTransaction) -> (r: bool)
    ensures
        r == (transaction@.required_parties == required_for(
            transaction@.buyer,
            transaction@.seller,
            transaction@.arbitrator,
            transaction@.consensus_rule,
        )),
{
    let t = transaction;
    let ghost expected = required_for(t@.buyer, t@.seller, t@.arbitrator, t@.consensus_rule);
    let ghost ps = t@.required_parties;
    let rule = t.consensus_rule;
    let parties = &t.required_parties;
    assert(ps.len() == parties.len());
    match &t.arbitrator {
        Some(a) => {
            if rule == ConsensusRule::WithArbitrator || rule == ConsensusRule::Unanimous {
                if parties.len() != 3 {
                    assert(ps.len() != expected.len());
                    return false;
                }
                if parties[0] != t.buyer {
                    assert(ps[0] != expected[0]);
                    return false;
                }
                if parties[1] != t.seller {
                    assert(ps[1] != expected[1]);
                    return false;
                }
                if parties[2] != *a {
                    assert(ps[2] != expected[2]);
                    return false;
                }
                assert(ps =~= expected);
                return true;
            }
        },
        None => {},
    }
    if parties.len() != 2 {
        assert(ps.len() != expected.len());
        return false;
    }
    if parties[0] != t.buyer {
        assert(ps[0] != expected[0]);
        return false;
    }
    if parties[1] != t.seller {
        assert(ps[1] != expected[1]);
        return false;
    }
    assert(ps =~= expected);
    true
}

/// Whether every vote is by a required party, one vote per party.
fn check_votes(transaction: &ConsensusTransaction) -> (r: bool)
    ensures
        r == ({
            let t = transaction@;
            &&& forall|i: int|
                0 <= i < t.agreements.len() ==> t.is_required((#[trigger] t.agreements[i]).party)
            &&& forall|i: int, j: int|
                0 <= i < j < t.agreements.len() ==> (#[trigger] t.agreements[i]).party
                    != (#[trigger] t.agreements[j]).party
        }),
{
    let ghost t = transaction@;
    let n = transaction.agreements.len();
    let mut i: usize = 0;
    while i < n
        invariant
            t == transaction@,
            n == transaction.agreements.len(),
            i <= n,
            forall|k: int| 0 <= k < i ==> t.is_required((#[trigger] t.agreements[k]).party),
            forall|k: int, j: int|
                0 <= k < j < n && k < i ==> (#[trigger] t.agreements[k]).party
                    != (#[trigger] t.agreements[j]).party,
        decreases n - i,
    {
        let party = &transaction.agreements[i].party;
        if !contains_party(&transaction.required_parties, party) {
            assert(!t.is_required(t.agreements[i as int].party));
            return false;
        }
        let mut j: usize = i + 1;
        while j < n
            invariant
                t == transaction@,
                n == transaction.agreements.len(),
                i < n,
                i < j <= n,
                party@ == t.agreements[i as int].party,
                forall|m: int| i < m < j ==> t.agreements[i as int].party != (
                #[trigger] t.agreements[m]).party,
            decreases n - j,
        {
            if transaction.agreements[j].party == *party {
                assert(t.agreements[i as int].party == t.agreements[j as int].party);
                return false;
            }
            j = j + 1;
        }
        i = i + 1;
    }
    true
}

/// Whether the record satisfies its invariant.
pub fn check_record(transaction: &ConsensusTransaction) -> (r: bool)
    ensures
        r == transaction@.wf(),
{
    let t = transaction;
    if t.amount <= 0 || t.buyer == t.seller {
        return false;
    }
    if let Some(a) = &t.arbitrator {
        if *a == t.buyer || *a == t.seller {
            return false;
        }
    }
    if t.consensus_rule == ConsensusRule::WithArbitrator && t.arbitrator.is_none() {
        return false;
    }
    if !check_required_parties(t) || !check_votes(t) {
        return false;
    }
    match t.status {
        TransactionStatus::Created | TransactionStatus::Expired => {
            t.deposited == 0 && t.paid_out == 0 && t.agreements.len() == 0
        },
        TransactionStatus::Funded => {
            t.deposited == t.amount && t.paid_out == 0 && !has_rejection(t) && !has_consensus(t)
        },
        TransactionStatus::ConsensusReached => {
            t.deposited == t.amount && t.paid_out == 0 && !has_rejection(t) && has_consensus(t)
        },
        TransactionStatus::Released => {
            t.deposited == t.amount && t.paid_out == t.amount && !has_rejection(t)
        },
        TransactionStatus::Refunded => { t.deposited == t.amount && t.paid_out == t.amount },
    }
}

} // verus!
