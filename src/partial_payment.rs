use vstd::prelude::*;

verus! {

/// Failures of the partial-payment contract.
#[derive(Clone, Copy, Debug, PartialEq, Eq, Structural)]
pub enum ContractError {
    TransactionNotActive,
    TransactionFullyFunded,
    TransactionNotFundedEnough,
    DeadlineNotPassed,
    DeadlinePassed,
    NotBuyer,
    NotSeller,
    NotParticipant,
    TransactionNotFound,
    InvalidAmount,
    InvalidDeadline,
    InvalidInput,
}

/// Lifecycle of a payment made in parts.
#[derive(Clone, Copy, Debug, PartialEq, Eq, Structural)]
pub enum TransactionStatus {
    /// Deposits can be made.
    Active,
    /// The full amount is in custody, waiting for the seller.
    Funded,
    /// The seller took the deposits.
    Completed,
    /// A participant called it off; the deposits went back to the buyer.
    Cancelled,
    /// The deadline passed unfunded; the deposits went back to the buyer.
    Expired,
}

/// A payment that the buyer makes in deposits before a deadline.
#[derive(Debug)]
pub struct Transaction {
    pub id: u64,
    pub buyer: String,
    pub seller: String,
    pub total_amount: i128,
    pub deposited_amount: i128,
    pub payment_token: String,
    pub deadline: u64,
    pub status: TransactionStatus,
}

/// Mathematical model of a [`Transaction`].
pub struct TransactionView {
    pub id: u64,
    pub buyer: Seq<char>,
    pub seller: Seq<char>,
    pub total_amount: i128,
    pub deposited_amount: i128,
    pub payment_token: Seq<char>,
    pub deadline: u64,
    pub status: TransactionStatus,
}

impl View for Transaction {
    type V = TransactionView;

    open spec fn view(&self) -> TransactionView {
        TransactionView {
            id: self.id,
            buyer: self.buyer@,
            seller: self.seller@,
            total_amount: self.total_amount,
            deposited_amount: self.deposited_amount,
            payment_token: self.payment_token@,
            deadline: self.deadline,
            status: self.status,
        }
    }
}

pub open spec fn deposits_view(s: Seq<Transaction>) -> Seq<TransactionView> {
    s.map_values(|t: Transaction| t@)
}

impl TransactionView {
    /// Deposits never go negative, and the status follows them: short of the total
    /// while active, at least the total once funded.
    pub open spec fn wf(self) -> bool {
        &&& self.total_amount > 0
        &&& self.deposited_amount >= 0
        &&& self.buyer != self.seller
        &&& (self.status == TransactionStatus::Active ==> self.deposited_amount
            < self.total_amount)
        &&& (self.status == TransactionStatus::Funded || self.status
            == TransactionStatus::Completed ==> self.deposited_amount >= self.total_amount)
    }
}

/// Mathematical model of the contract: the payment with id `k` at index `k - 1`.
pub struct PartialPaymentView {
    pub transactions: Seq<TransactionView>,
}

impl PartialPaymentView {
    pub open spec fn wf(self) -> bool {
        forall|i: int|
            0 <= i < self.transactions.len() ==> (#[trigger] self.transactions[i]).wf()
                && self.transactions[i].id == i + 1
    }

    pub open spec fn lookup(self, id: u64) -> Option<TransactionView> {
        if 1 <= id <= self.transactions.len() {
            Some(self.transactions[id - 1])
        } else {
            None
        }
    }

    pub open spec fn with_record(self, id: u64, t: TransactionView) -> PartialPaymentView {
        PartialPaymentView { transactions: self.transactions.update(id - 1, t) }
    }
}

/// Whether a stored payment satisfies its invariant.
pub fn check_deposits(t: &Transaction) -> (r: bool)
    ensures
        r == t@.wf(),
{
    t.total_amount > 0 && t.deposited_amount >= 0 && t.buyer != t.seller && (t.status
        != TransactionStatus::Active || t.deposited_amount < t.total_amount) && (t.status
        != TransactionStatus::Funded && t.status != TransactionStatus::Completed
        || t.deposited_amount >= t.total_amount)
}

/// Payments made in deposits: the seller takes them once they reach the total; before
/// that either side may cancel, and after the deadline the buyer may take them back.
/// The caller authenticates identities, supplies the clock and moves the amounts
/// that each call names.
pub struct PartialPaymentContract {
    transactions: Vec<Transaction>,
}

impl View for PartialPaymentContract {
    type V = PartialPaymentView;

    closed spec fn view(&self) -> PartialPaymentView {
        PartialPaymentView { transactions: deposits_view(self.transactions@) }
    }
}

impl PartialPaymentContract {
    /// A contract with no payments.
    pub fn new() -> (r: Self)
        ensures
            r@.transactions.len() == 0,
            r@.wf(),
    {
        let r = PartialPaymentContract { transactions: Vec::new() };
        assert(r@.transactions =~= Seq::<TransactionView>::empty());
        r
    }

    /// Rebuilds a contract from stored payments. Fails with `InvalidInput` unless every
    /// payment satisfies its invariant and carries the id of its place.
    pub fn restore(transactions: Vec<Transaction>) -> (r: Result<Self, ContractError>)
        ensures
            ({
                let v = PartialPaymentView { transactions: deposits_view(transactions@) };
                match r {
                    Ok(c) => c@ == v && v.wf(),
                    Err(e) => e == ContractError::InvalidInput && !v.wf(),
                }
            }),
    {
        let ghost ts = deposits_view(transactions@);
        let mut i: usize = 0;
        while i < transactions.len()
            invariant
                ts == deposits_view(transactions@),
                i <= transactions.len(),
                forall|k: int| 0 <= k < i ==> (#[trigger] ts[k]).wf() && ts[k].id == k + 1,
            decreases transactions.len() - i,
        {
            let t = &transactions[i];
            if !check_deposits(t) || t.id != i as u64 + 1 {
                let ghost v = PartialPaymentView { transactions: ts };
                assert(v.transactions[i as int] == ts[i as int]);
                assert(!(v.transactions[i as int].wf() && v.transactions[i as int].id == i + 1));
                return Err(ContractError::InvalidInput);
            }
            i = i + 1;
        }
        Ok(PartialPaymentContract { transactions })
    }

    /// The payments, oldest first, for storing.
    pub fn into_parts(self) -> (r: Vec<Transaction>)
        ensures
            deposits_view(r@) == self@.transactions,
    {
        self.transactions
    }

    fn index_of(&self, transaction_id: u64) -> (r: Result<usize, ContractError>)
        ensures
            match r {
                Ok(i) => self@.lookup(transaction_id) is Some && i == transaction_id - 1
                    && i < self.transactions.len(),
                Err(e) => self@.lookup(transaction_id) is None && e
                    == ContractError::TransactionNotFound,
            },
    {
        if transaction_id == 0 || transaction_id > self.transactions.len() as u64 {
            Err(ContractError::TransactionNotFound)
        } else {
            Ok((transaction_id - 1) as usize)
        }
    }

    /// The payment with this id, or `TransactionNotFound`.
    pub fn get_transaction(&self, transaction_id: u64) -> (r: Result<&Transaction, ContractError>)
        ensures
            match r {
                Ok(t) => self@.lookup(transaction_id) == Some(t@),
                Err(e) => self@.lookup(transaction_id) is None && e
                    == ContractError::TransactionNotFound,
            },
    {
        match self.index_of(transaction_id) {
            Ok(i) => Ok(&self.transactions[i]),
            Err(e) => Err(e),
        }
    }

    /// Opens a payment of `total_amount` due by `deadline`, which must lie after `now`.
    pub fn start_transaction(
        &mut self,
        buyer: String,
        seller: String,
        total_amount: i128,
        payment_token: String,
        deadline: u64,
        now: u64,
    ) -> (r: Result<u64, ContractError>)
        requires
            old(self)@.wf(),
            old(self)@.transactions.len() < u64::MAX,
        ensures
            final(self)@.wf(),
            total_amount <= 0 ==> r == Err::<u64, ContractError>(ContractError::InvalidAmount)
                && final(self)@ == old(self)@,
            total_amount > 0 && deadline <= now ==> r == Err::<u64, ContractError>(
                ContractError::InvalidDeadline,
            ) && final(self)@ == old(self)@,
            total_amount > 0 && deadline > now && buyer@ == seller@ ==> r == Err::<
                u64,
                ContractError,
            >(ContractError::InvalidInput) && final(self)@ == old(self)@,
            total_amount > 0 && deadline > now && buyer@ != seller@ ==> {
                let id = (old(self)@.transactions.len() + 1) as u64;
                &&& r == Ok::<u64, ContractError>(id)
                &&& final(self)@.transactions == old(self)@.transactions.push(
                    TransactionView {
                        id,
                        buyer: buyer@,
                        seller: seller@,
                        total_amount,
                        deposited_amount: 0,
                        payment_token: payment_token@,
                        deadline,
                        status: TransactionStatus::Active,
                    },
                )
            },
    {
        if total_amount <= 0 {
            return Err(ContractError::InvalidAmount);
        }
        if deadline <= now {
            return Err(ContractError::InvalidDeadline);
        }
        if buyer == seller {
            return Err(ContractError::InvalidInput);
        }
        let id = self.transactions.len() as u64 + 1;
        let t = Transaction {
            id,
            buyer,
            seller,
            total_amount,
            deposited_amount: 0,
            payment_token,
            deadline,
            status: TransactionStatus::Active,
        };
        let ghost old_v = self@;
        self.transactions.push(t);
        assert(self@.transactions =~= old_v.transactions.push(t@));
        Ok(id)
    }

    fn update(&mut self, i: usize, status: TransactionStatus, deposited_amount: i128)
        requires
            i < old(self).transactions.len(),
        ensures
            final(self)@ == old(self)@.with_record(
                (i + 1) as u64,
                TransactionView { status, deposited_amount, ..old(self)@.transactions[i as int] },
            ),
            final(self).transactions.len() == old(self).transactions.len(),
    {
        let ghost old_v = self@;
        let t = &mut self.transactions[i];
        t.status = status;
        t.deposited_amount = deposited_amount;
        assert(self@.transactions =~= old_v.with_record(
            (i + 1) as u64,
            TransactionView { status, deposited_amount, ..old_v.transactions[i as int] },
        ).transactions);
    }

    /// The buyer deposits `deposit_amount`, which the caller moves into custody; the
    /// payment is `Funded` once the deposits reach the total.
    pub fn make_deposit(
        &mut self,
        buyer: &String,
        transaction_id: u64,
        deposit_amount: i128,
        now: u64,
    ) -> (r: Result<(), ContractError>)
        requires
            old(self)@.wf(),
            old(self)@.lookup(transaction_id) matches Some(t) ==> t.deposited_amount
                + deposit_amount <= i128::MAX,
        ensures
            final(self)@.wf(),
            deposit_amount <= 0 ==> r == Err::<(), ContractError>(ContractError::InvalidAmount)
                && final(self)@ == old(self)@,
            deposit_amount > 0 ==> match old(self)@.lookup(transaction_id) {
                None => r == Err::<(), ContractError>(ContractError::TransactionNotFound)
                    && final(self)@ == old(self)@,
                Some(t) => if t.buyer != buyer@ {
                    r == Err::<(), ContractError>(ContractError::NotBuyer) && final(self)@ == old(self)@
                } else if t.status != TransactionStatus::Active {
                    r == Err::<(), ContractError>(ContractError::TransactionNotActive) && final(self)@
                        == old(self)@
                } else if now > t.deadline {
                    r == Err::<(), ContractError>(ContractError::DeadlinePassed) && final(self)@
                        == old(self)@
                } else {
                    let d = (t.deposited_amount + deposit_amount) as i128;
                    &&& r is Ok
                    &&& final(self)@ == old(self)@.with_record(
                        transaction_id,
                        TransactionView {
                            deposited_amount: d,
                            status: if d >= t.total_amount {
                                TransactionStatus::Funded
                            } else {
                                TransactionStatus::Active
                            },
                            ..t
                        },
                    )
                },
            },
    {
        if deposit_amount <= 0 {
            return Err(ContractError::InvalidAmount);
        }
        let i = self.index_of(transaction_id)?;
        let t = &self.transactions[i];
        if t.buyer != *buyer {
            return Err(ContractError::NotBuyer);
        }
        if t.status != TransactionStatus::Active {
            return Err(ContractError::TransactionNotActive);
        }
        if now > t.deadline {
            return Err(ContractError::DeadlinePassed);
        }
        let deposited = t.deposited_amount + deposit_amount;
        let status = if deposited >= t.total_amount {
            TransactionStatus::Funded
        } else {
            TransactionStatus::Active
        };
        self.update(i, status, deposited);
        Ok(())
    }

    /// The seller takes the deposits of a funded payment; returns the amount that the
    /// caller moves from custody to the seller.
    pub fn claim_payment(&mut self, seller: &String, transaction_id: u64) -> (r: Result<
        i128,
        ContractError,
    >)
        requires
            old(self)@.wf(),
        ensures
            final(self)@.wf(),
            match old(self)@.lookup(transaction_id) {
                None => r == Err::<i128, ContractError>(ContractError::TransactionNotFound)
                    && final(self)@ == old(self)@,
                Some(t) => if t.seller != seller@ {
                    r == Err::<i128, ContractError>(ContractError::NotSeller) && final(self)@ == old(self)@
                } else if t.status != TransactionStatus::Funded {
                    r == Err::<i128, ContractError>(ContractError::TransactionNotFundedEnough)
                        && final(self)@ == old(self)@
                } else {
                    r == Ok::<i128, ContractError>(t.deposited_amount) && final(self)@ == old(self)@.with_record(
                        transaction_id,
                        TransactionView { status: TransactionStatus::Completed, ..t },
                    )
                },
            },
    {
        let i = self.index_of(transaction_id)?;
        let t = &self.transactions[i];
        if t.seller != *seller {
            return Err(ContractError::NotSeller);
        }
        if t.status != TransactionStatus::Funded {
            return Err(ContractError::TransactionNotFundedEnough);
        }
        let amount = t.deposited_amount;
        self.update(i, TransactionStatus::Completed, amount);
        Ok(amount)
    }

    /// After the deadline the buyer takes back the deposits of a payment that never
    /// reached its total; returns the amount that the caller moves from custody to
    /// the buyer.
    pub fn request_refund(&mut self, buyer: &String, transaction_id: u64, now: u64) -> (r: Result<
        i128,
        ContractError,
    >)
        requires
            old(self)@.wf(),
        ensures
            final(self)@.wf(),
            match old(self)@.lookup(transaction_id) {
                None => r == Err::<i128, ContractError>(ContractError::TransactionNotFound)
                    && final(self)@ == old(self)@,
                Some(t) => if t.buyer != buyer@ {
                    r == Err::<i128, ContractError>(ContractError::NotBuyer) && final(self)@ == old(self)@
                } else if now <= t.deadline {
                    r == Err::<i128, ContractError>(ContractError::DeadlineNotPassed) && final(self)@
                        == old(self)@
                } else if t.status == TransactionStatus::Funded || t.status
                    == TransactionStatus::Completed {
                    r == Err::<i128, ContractError>(ContractError::TransactionFullyFunded)
                        && final(self)@ == old(self)@
                } else if t.status != TransactionStatus::Active {
                    r == Err::<i128, ContractError>(ContractError::TransactionNotActive)
                        && final(self)@ == old(self)@
                } else {
                    r == Ok::<i128, ContractError>(t.deposited_amount) && final(self)@ == old(self)@.with_record(
                        transaction_id,
                        TransactionView { status: TransactionStatus::Expired, ..t },
                    )
                },
            },
    {
        let i = self.index_of(transaction_id)?;
        let t = &self.transactions[i];
        if t.buyer != *buyer {
            return Err(ContractError::NotBuyer);
        }
        if now <= t.deadline {
            return Err(ContractError::DeadlineNotPassed);
        }
        if t.status == TransactionStatus::Funded || t.status == TransactionStatus::Completed {
            return Err(ContractError::TransactionFullyFunded);
        }
        if t.status != TransactionStatus::Active {
            return Err(ContractError::TransactionNotActive);
        }
        let amount = t.deposited_amount;
        self.update(i, TransactionStatus::Expired, amount);
        Ok(amount)
    }

    /// Either participant calls off a payment that has not reached its total; returns
    /// the deposits that the caller moves back to the buyer (nothing to move when zero).
    pub fn cancel_transaction(&mut self, canceller: &String, transaction_id: u64) -> (r: Result<
        i128,
        ContractError,
    >)
        requires
            old(self)@.wf(),
        ensures
            final(self)@.wf(),
            match old(self)@.lookup(transaction_id) {
                None => r == Err::<i128, ContractError>(ContractError::TransactionNotFound)
                    && final(self)@ == old(self)@,
                Some(t) => if t.buyer != canceller@ && t.seller != canceller@ {
                    r == Err::<i128, ContractError>(ContractError::NotParticipant) && final(self)@
                        == old(self)@
                } else if t.status == TransactionStatus::Funded || t.status
                    == TransactionStatus::Completed {
                    r == Err::<i128, ContractError>(ContractError::TransactionFullyFunded)
                        && final(self)@ == old(self)@
                } else if t.status != TransactionStatus::Active {
                    r == Err::<i128, ContractError>(ContractError::TransactionNotActive)
                        && final(self)@ == old(self)@
                } else {
                    r == Ok::<i128, ContractError>(t.deposited_amount) && final(self)@ == old(self)@.with_record(
                        transaction_id,
                        TransactionView { status: TransactionStatus::Cancelled, ..t },
                    )
                },
            },
    {
        let i = self.index_of(transaction_id)?;
        let t = &self.transactions[i];
        if t.buyer != *canceller && t.seller != *canceller {
            return Err(ContractError::NotParticipant);
        }
        if t.status == TransactionStatus::Funded || t.status == TransactionStatus::Completed {
            return Err(ContractError::TransactionFullyFunded);
        }
        if t.status != TransactionStatus::Active {
            return Err(ContractError::TransactionNotActive);
        }
        let amount = t.deposited_amount;
        self.update(i, TransactionStatus::Cancelled, amount);
        Ok(amount)
    }
}

} // verus!
