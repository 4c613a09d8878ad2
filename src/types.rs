use vstd::prelude::*;

verus! {

/// Lifecycle of an escrow record.
#[derive(Clone, Copy, Debug, PartialEq, Eq, Structural)]
pub enum TransactionStatus {
    Created,
    Funded,
    ConsensusReached,
    Released,
    Refunded,
    Expired,
}

/// Quorum rule that decides when the parties have agreed to a release.
#[derive(Clone, Copy, Debug, PartialEq, Eq, Structural)]
pub enum ConsensusRule {
    /// Every required party agrees.
    Unanimous,
    /// Strictly more than half of the required parties agree.
    Majority,
    /// Buyer and seller agree; an arbitrator is ignored.
    BuyerSellerOnly,
    /// Buyer, seller and arbitrator all agree.
    WithArbitrator,
}

impl TransactionStatus {
    /// Released, refunded and expired records never change again.
    pub open spec fn is_final(self) -> bool {
        self == TransactionStatus::Released || self == TransactionStatus::Refunded
            || self == TransactionStatus::Expired
    }
}

/// A value movement that a successful operation asks the ledger to perform, in the
/// record's token and for the record's full amount.
#[derive(Clone, Copy, Debug, PartialEq, Eq, Structural)]
pub enum Transfer {
    /// From the buyer into the escrow's custody.
    Deposit,
    /// From custody back to the buyer.
    RefundToBuyer,
    /// From custody to the seller.
    ReleaseToSeller,
}

/// A vote of one party on one record.
#[derive(Debug)]
pub struct Agreement {
    pub party: String,
    pub agreed: bool,
    pub timestamp: u64,
    pub reason: Option<String>,
}

/// Mathematical model of an [`Agreement`].
pub struct AgreementView {
    pub party: Seq<char>,
    pub agreed: bool,
    pub timestamp: u64,
    pub reason: Option<Seq<char>>,
}

/// The text of an optional string.
pub open spec fn opt_view(o: Option<String>) -> Option<Seq<char>> {
    match o {
        Some(s) => Some(s@),
        None => None,
    }
}

impl View for Agreement {
    type V = AgreementView;

    open spec fn view(&self) -> AgreementView {
        AgreementView {
            party: self.party@,
            agreed: self.agreed,
            timestamp: self.timestamp,
            reason: opt_view(self.reason),
        }
    }
}

/// One escrow record: value that a buyer locks for a seller, released once the
/// required parties agree under the record's rule.
#[derive(Debug)]
pub struct ConsensusTransaction {
    pub transaction_id: u64,
    pub buyer: String,
    pub seller: String,
    pub arbitrator: Option<String>,
    pub token: String,
    pub amount: i128,
    pub description: String,
    pub status: TransactionStatus,
    pub consensus_rule: ConsensusRule,
    pub deadline: u64,
    pub created_at: u64,
    /// Votes in the order they were cast, at most one per party.
    pub agreements: Vec<Agreement>,
    /// The parties whose votes count under the rule, fixed at creation.
    pub required_parties: Vec<String>,
    /// Value moved into custody for this record.
    pub deposited: i128,
    /// Value moved out of custody for this record.
    pub paid_out: i128,
}

/// Mathematical model of a [`ConsensusTransaction`].
pub struct TransactionView {
    pub transaction_id: u64,
    pub buyer: Seq<char>,
    pub seller: Seq<char>,
    pub arbitrator: Option<Seq<char>>,
    pub token: Seq<char>,
    pub amount: i128,
    pub description: Seq<char>,
    pub status: TransactionStatus,
    pub consensus_rule: ConsensusRule,
    pub deadline: u64,
    pub created_at: u64,
    pub agreements: Seq<AgreementView>,
    pub required_parties: Seq<Seq<char>>,
    pub deposited: i128,
    pub paid_out: i128,
}

pub open spec fn agreements_view(a: Seq<Agreement>) -> Seq<AgreementView> {
    a.map_values(|x: Agreement| x@)
}

pub open spec fn parties_view(p: Seq<String>) -> Seq<Seq<char>> {
    p.map_values(|s: String| s@)
}

impl View for ConsensusTransaction {
    type V = TransactionView;

    open spec fn view(&self) -> TransactionView {
        TransactionView {
            transaction_id: self.transaction_id,
            buyer: self.buyer@,
            seller: self.seller@,
            arbitrator: opt_view(self.arbitrator),
            token: self.token@,
            amount: self.amount,
            description: self.description@,
            status: self.status,
            consensus_rule: self.consensus_rule,
            deadline: self.deadline,
            created_at: self.created_at,
            agreements: agreements_view(self.agreements@),
            required_parties: parties_view(self.required_parties@),
            deposited: self.deposited,
            paid_out: self.paid_out,
        }
    }
}

/// The vote that `p` cast among `a`, if any (the latest one, should there be several).
pub open spec fn vote_in(a: Seq<AgreementView>, p: Seq<char>) -> Option<bool>
    decreases a.len(),
{
    if a.len() == 0 {
        None
    } else if a.last().party == p {
        Some(a.last().agreed)
    } else {
        vote_in(a.drop_last(), p)
    }
}

/// How many of `parties` have a vote with `agreed == true` among `a`.
pub open spec fn agreed_count(parties: Seq<Seq<char>>, a: Seq<AgreementView>) -> nat
    decreases parties.len(),
{
    if parties.len() == 0 {
        0
    } else {
        agreed_count(parties.drop_last(), a) + if vote_in(a, parties.last()) == Some(true) {
            1nat
        } else {
            0nat
        }
    }
}

/// The parties whose votes count: buyer and seller, and the arbitrator when one is
/// given and the rule is `WithArbitrator` or `Unanimous`.
pub open spec fn required_for(
    buyer: Seq<char>,
    seller: Seq<char>,
    arbitrator: Option<Seq<char>>,
    rule: ConsensusRule,
) -> Seq<Seq<char>> {
    match arbitrator {
        Some(a) => if rule == ConsensusRule::WithArbitrator || rule == ConsensusRule::Unanimous {
            seq![buyer, seller, a]
        } else {
            seq![buyer, seller]
        },
        None => seq![buyer, seller],
    }
}

impl TransactionView {
    /// The vote of `p` on this record, if `p` voted.
    pub open spec fn vote_of(self, p: Seq<char>) -> Option<bool> {
        vote_in(self.agreements, p)
    }

    /// `p` voted, and voted to release.
    pub open spec fn has_agreed(self, p: Seq<char>) -> bool {
        self.vote_of(p) == Some(true)
    }

    /// Whether the quorum of the record's rule is met; a missing vote never counts.
    pub open spec fn consensus(self) -> bool {
        match self.consensus_rule {
            ConsensusRule::Unanimous => forall|i: int|
                0 <= i < self.required_parties.len() ==> #[trigger] self.has_agreed(
                    self.required_parties[i],
                ),
            ConsensusRule::Majority => agreed_count(self.required_parties, self.agreements) > (
            self.required_parties.len() / 2),
            ConsensusRule::BuyerSellerOnly => self.has_agreed(self.buyer) && self.has_agreed(
                self.seller,
            ),
            ConsensusRule::WithArbitrator => match self.arbitrator {
                Some(a) => self.has_agreed(self.buyer) && self.has_agreed(self.seller)
                    && self.has_agreed(a),
                None => false,
            },
        }
    }

    /// Some party voted against the release.
    pub open spec fn has_rejection(self) -> bool {
        exists|i: int| 0 <= i < self.agreements.len() && !(#[trigger] self.agreements[i]).agreed
    }

    /// `p` is one of the parties whose votes count.
    pub open spec fn is_required(self, p: Seq<char>) -> bool {
        self.required_parties.contains(p)
    }

    /// `p` may vote now: a required party of a funded record.
    pub open spec fn can_vote(self, p: Seq<char>) -> bool {
        self.is_required(p) && self.status == TransactionStatus::Funded
    }

    pub open spec fn is_expired(self, now: u64) -> bool {
        now > self.deadline
    }

    /// The invariant of a record.
    pub open spec fn wf(self) -> bool {
        &&& self.amount > 0
        &&& self.buyer != self.seller
        &&& (self.arbitrator matches Some(a) ==> a != self.buyer && a != self.seller)
        &&& (self.consensus_rule == ConsensusRule::WithArbitrator ==> self.arbitrator is Some)
        &&& self.required_parties == required_for(
            self.buyer,
            self.seller,
            self.arbitrator,
            self.consensus_rule,
        )
        &&& forall|i: int|
            0 <= i < self.agreements.len() ==> self.is_required(
                (#[trigger] self.agreements[i]).party,
            )
        &&& forall|i: int, j: int|
            0 <= i < j < self.agreements.len() ==> (#[trigger] self.agreements[i]).party
                != (#[trigger] self.agreements[j]).party
        &&& match self.status {
            TransactionStatus::Created | TransactionStatus::Expired => {
                &&& self.deposited == 0
                &&& self.paid_out == 0
                &&& self.agreements.len() == 0
            },
            TransactionStatus::Funded => {
                &&& self.deposited == self.amount
                &&& self.paid_out == 0
                &&& !self.has_rejection()
                &&& !self.consensus()
            },
            TransactionStatus::ConsensusReached => {
                &&& self.deposited == self.amount
                &&& self.paid_out == 0
                &&& !self.has_rejection()
                &&& self.consensus()
            },
            TransactionStatus::Released => {
                &&& self.deposited == self.amount
                &&& self.paid_out == self.amount
                &&& !self.has_rejection()
            },
            TransactionStatus::Refunded => {
                &&& self.deposited == self.amount
                &&& self.paid_out == self.amount
            },
        }
    }
}

} // verus!
