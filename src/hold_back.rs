use vstd::prelude::*;

use crate::types::opt_view;

verus! {

/// Failures of the hold-back payment contract.
#[derive(Clone, Copy, Debug, PartialEq, Eq, Structural)]
pub enum Error {
    NotInitialized,
    InvalidAmount,
    InvalidHoldbackRate,
    InvalidBuyer,
    InvalidSeller,
    TransactionNotFound,
    InvalidStatus,
    Unauthorized,
    AlreadyInitialized,
}

/// Lifecycle of a hold-back payment.
#[derive(Clone, Copy, Debug, PartialEq, Eq, Structural)]
pub enum TransactionStatus {
    /// Paid except the held-back part, which waits for approval or the release time.
    Held,
    /// The buyer approved; the held-back part is due to the seller.
    HoldbackPending,
    /// The held-back part went to the seller.
    Completed,
    /// A dispute returned the held-back part to the buyer.
    Cancelled,
    /// The buyer disputes; the admin decides.
    Disputed,
}

/// Who receives the held-back part of a payment from custody.
#[derive(Clone, Copy, Debug, PartialEq, Eq, Structural)]
pub enum Payout {
    ToSeller,
    ToBuyer,
}

pub const DAY_IN_SECONDS: u64 = 86400;

/// A payment of which a percentage is held back for a while.
#[derive(Debug)]
pub struct Transaction {
    pub buyer: String,
    pub seller: String,
    pub amount: u128,
    pub token: String,
    /// Percentage held back, 1 to 100.
    pub holdback_rate: u32,
    pub holdback_amount: u128,
    /// What the seller receives at once.
    pub final_amount: u128,
    /// From this time on the held-back part may go to the seller.
    pub release_time: u64,
    pub status: TransactionStatus,
}

/// Mathematical model of a [`Transaction`].
pub struct TransactionView {
    pub buyer: Seq<char>,
    pub seller: Seq<char>,
    pub amount: u128,
    pub token: Seq<char>,
    pub holdback_rate: u32,
    pub holdback_amount: u128,
    pub final_amount: u128,
    pub release_time: u64,
    pub status: TransactionStatus,
}

impl View for Transaction {
    type V = TransactionView;

    open spec fn view(&self) -> TransactionView {
        TransactionView {
            buyer: self.buyer@,
            seller: self.seller@,
            amount: self.amount,
            token: self.token@,
            holdback_rate: self.holdback_rate,
            holdback_amount: self.holdback_amount,
            final_amount: self.final_amount,
            release_time: self.release_time,
            status: self.status,
        }
    }
}

pub open spec fn payments_view(s: Seq<Transaction>) -> Seq<TransactionView> {
    s.map_values(|t: Transaction| t@)
}

/// The part of `amount` held back at `rate` percent, rounded down.
pub open spec fn holdback_of(amount: int, rate: int) -> int {
    amount * rate / 100
}

impl TransactionView {
    pub open spec fn wf(self) -> bool {
        &&& 0 < self.holdback_rate <= 100
        &&& self.amount * self.holdback_rate <= u128::MAX
        &&& self.holdback_amount == holdback_of(self.amount as int, self.holdback_rate as int)
        &&& self.final_amount + self.holdback_amount == self.amount
    }

    /// The held-back part is due to the seller at time `now`.
    pub open spec fn release_due(self, now: u64) -> bool {
        self.status == TransactionStatus::HoldbackPending || (self.status
            == TransactionStatus::Held && now >= self.release_time)
    }
}

/// Mathematical model of the contract: its admin and its payments, the payment with
/// id `k` at index `k - 1`.
pub struct HoldBackView {
    pub admin: Option<Seq<char>>,
    pub transactions: Seq<TransactionView>,
}

impl HoldBackView {
    pub open spec fn wf(self) -> bool {
        forall|i: int| 0 <= i < self.transactions.len() ==> (#[trigger] self.transactions[i]).wf()
    }

    pub open spec fn lookup(self, id: u128) -> Option<TransactionView> {
        if 1 <= id <= self.transactions.len() {
            Some(self.transactions[id - 1])
        } else {
            None
        }
    }

    /// The same contract with payment `id` in status `s`.
    pub open spec fn with_status(self, id: u128, s: TransactionStatus) -> HoldBackView {
        HoldBackView {
            transactions: self.transactions.update(
                id - 1,
                TransactionView { status: s, ..self.transactions[id - 1] },
            ),
            ..self
        }
    }
}

/// Why a new payment is refused, checked in this order; `None` if it is valid.
pub open spec fn create_error(
    admin: Option<Seq<char>>,
    buyer: Seq<char>,
    seller: Seq<char>,
    amount: u128,
    token: Seq<char>,
    holdback_rate: u32,
) -> Option<Error> {
    match admin {
        None => Some(Error::NotInitialized),
        Some(a) => if amount == 0 {
            Some(Error::InvalidAmount)
        } else if holdback_rate == 0 || holdback_rate > 100 {
            Some(Error::InvalidHoldbackRate)
        } else if buyer == seller || buyer == a || seller == a {
            Some(Error::InvalidBuyer)
        } else if buyer == token || seller == token {
            Some(Error::InvalidSeller)
        } else {
            None
        },
    }
}

/// Whether a payment's amounts agree with its rate.
pub fn check_payment(t: &Transaction) -> (r: bool)
    ensures
        r == t@.wf(),
{
    if t.holdback_rate == 0 || t.holdback_rate > 100 {
        return false;
    }
    match t.amount.checked_mul(t.holdback_rate as u128) {
        None => false,
        Some(product) => {
            let holdback = product / 100;
            t.holdback_amount == holdback && t.final_amount <= t.amount && t.amount
                - t.final_amount == t.holdback_amount
        },
    }
}

/// Payments of which part is held back until the buyer approves, the release time
/// passes, or the admin settles a dispute. The caller authenticates identities,
/// supplies the clock and moves the amounts that each call names.
pub struct HoldBackContract {
    admin: Option<String>,
    transactions: Vec<Transaction>,
}

impl View for HoldBackContract {
    type V = HoldBackView;

    closed spec fn view(&self) -> HoldBackView {
        HoldBackView { admin: opt_view(self.admin), transactions: payments_view(self.transactions@) }
    }
}

impl HoldBackContract {
    /// A contract with no admin and no payments.
    pub fn new() -> (r: Self)
        ensures
            r@.admin is None,
            r@.transactions.len() == 0,
    {
        let r = HoldBackContract { admin: None, transactions: Vec::new() };
        assert(r@.transactions =~= Seq::<TransactionView>::empty());
        r
    }

    /// Sets the admin, once.
    pub fn initialize(&mut self, admin: String) -> (r: Result<bool, Error>)
        ensures
            old(self)@.admin is Some ==> r == Err::<bool, Error>(Error::AlreadyInitialized)
                && final(self)@ == old(self)@,
            old(self)@.admin is None ==> r == Ok::<bool, Error>(true) && final(self)@ == (
            HoldBackView { admin: Some(admin@), ..old(self)@ }),
    {
        if self.admin.is_some() {
            return Err(Error::AlreadyInitialized);
        }
        self.admin = Some(admin);
        Ok(true)
    }

    /// The admin, or `NotInitialized`.
    pub fn get_admin(&self) -> (r: Result<String, Error>)
        ensures
            match self@.admin {
                Some(a) => r matches Ok(s) && s@ == a,
                None => r matches Err(e) && e == Error::NotInitialized,
            },
    {
        match &self.admin {
            Some(a) => Ok(a.clone()),
            None => Err(Error::NotInitialized),
        }
    }

    /// Rebuilds a contract from stored state. Fails with `InvalidAmount` unless every
    /// payment's amounts agree with its rate.
    pub fn restore(admin: Option<String>, transactions: Vec<Transaction>) -> (r: Result<Self, Error>)
        ensures
            ({
                let v = HoldBackView {
                    admin: opt_view(admin),
                    transactions: payments_view(transactions@),
                };
                match r {
                    Ok(c) => c@ == v && v.wf(),
                    Err(e) => e == Error::InvalidAmount && !v.wf(),
                }
            }),
    {
        let ghost ts = payments_view(transactions@);
        let mut i: usize = 0;
        while i < transactions.len()
            invariant
                ts == payments_view(transactions@),
                i <= transactions.len(),
                forall|k: int| 0 <= k < i ==> (#[trigger] ts[k]).wf(),
            decreases transactions.len() - i,
        {
            if !check_payment(&transactions[i]) {
                let ghost v = HoldBackView { admin: opt_view(admin), transactions: ts };
                assert(v.transactions[i as int] == ts[i as int]);
                assert(!v.transactions[i as int].wf());
                return Err(Error::InvalidAmount);
            }
            i = i + 1;
        }
        let r = HoldBackContract { admin, transactions };
        assert(r@.transactions =~= ts);
        Ok(r)
    }

    /// The admin and the payments, oldest first, for storing.
    pub fn into_parts(self) -> (r: (Option<String>, Vec<Transaction>))
        ensures
            payments_view(r.1@) == self@.transactions,
            opt_view(r.0) == self@.admin,
    {
        let ghost v = self@;
        let (admin, transactions) = (self.admin, self.transactions);
        assert(payments_view(transactions@) =~= v.transactions);
        (admin, transactions)
    }

    fn index_of(&self, transaction_id: u128) -> (r: Result<usize, Error>)
        ensures
            match r {
                Ok(i) => self@.lookup(transaction_id) is Some && i == transaction_id - 1
                    && i < self.transactions.len(),
                Err(e) => self@.lookup(transaction_id) is None && e == Error::TransactionNotFound,
            },
    {
        if transaction_id == 0 || transaction_id > self.transactions.len() as u128 {
            Err(Error::TransactionNotFound)
        } else {
            Ok((transaction_id - 1) as usize)
        }
    }

    /// The payment with this id, or `TransactionNotFound`.
    pub fn get_transaction(&self, transaction_id: u128) -> (r: Result<&Transaction, Error>)
        ensures
            match r {
                Ok(t) => self@.lookup(transaction_id) == Some(t@),
                Err(e) => self@.lookup(transaction_id) is None && e == Error::TransactionNotFound,
            },
    {
        match self.index_of(transaction_id) {
            Ok(i) => Ok(&self.transactions[i]),
            Err(e) => Err(e),
        }
    }

    /// Records a payment of `amount` of which `holdback_rate` percent is held back for
    /// `holdback_days` days. On success the caller moves `amount` from the buyer into
    /// custody and `final_amount` from custody to the seller.
    pub fn create_payment(
        &mut self,
        buyer: String,
        seller: String,
        amount: u128,
        token: String,
        holdback_rate: u32,
        holdback_days: u32,
        now: u64,
    ) -> (r: Result<u128, Error>)
        requires
            old(self)@.wf(),
            0 < holdback_rate <= 100 ==> amount * holdback_rate <= u128::MAX,
            now + holdback_days * DAY_IN_SECONDS <= u64::MAX,
        ensures
            final(self)@.wf(),
            match create_error(old(self)@.admin, buyer@, seller@, amount, token@, holdback_rate) {
                Some(e) => r == Err::<u128, Error>(e) && final(self)@ == old(self)@,
                None => {
                    &&& r == Ok::<u128, Error>((old(self)@.transactions.len() + 1) as u128)
                    &&& final(self)@ == HoldBackView {
                        transactions: old(self)@.transactions.push(
                            TransactionView {
                                buyer: buyer@,
                                seller: seller@,
                                amount,
                                token: token@,
                                holdback_rate,
                                holdback_amount: holdback_of(amount as int, holdback_rate as int) as u128,
                                final_amount: (amount - holdback_of(
                                    amount as int,
                                    holdback_rate as int,
                                )) as u128,
                                release_time: (now + holdback_days * DAY_IN_SECONDS) as u64,
                                status: TransactionStatus::Held,
                            },
                        ),
                        ..old(self)@
                    }
                },
            },
    {
        let admin = match &self.admin {
            Some(a) => a,
            None => {
                return Err(Error::NotInitialized);
            },
        };
        if amount == 0 {
            return Err(Error::InvalidAmount);
        }
        if holdback_rate == 0 || holdback_rate > 100 {
            return Err(Error::InvalidHoldbackRate);
        }
        if buyer == seller || buyer == *admin || seller == *admin {
            return Err(Error::InvalidBuyer);
        }
        if buyer == token || seller == token {
            return Err(Error::InvalidSeller);
        }
        let product = amount * (holdback_rate as u128);
        let holdback_amount = product / 100;
        assert(holdback_amount <= amount) by (nonlinear_arith)
            requires
                holdback_amount == product / 100,
                product == amount * holdback_rate,
                holdback_rate <= 100,
        ;
        let final_amount = amount - holdback_amount;
        let release_time = now + (holdback_days as u64) * DAY_IN_SECONDS;
        let transaction_id = self.transactions.len() as u128 + 1;
        let t = Transaction {
            buyer,
            seller,
            amount,
            token,
            holdback_rate,
            holdback_amount,
            final_amount,
            release_time,
            status: TransactionStatus::Held,
        };
        let ghost old_v = self@;
        self.transactions.push(t);
        assert(self@.transactions =~= old_v.transactions.push(t@));
        Ok(transaction_id)
    }

    fn set_status(&mut self, i: usize, status: TransactionStatus)
        requires
            i < old(self).transactions.len(),
        ensures
            final(self)@ == old(self)@.with_status((i + 1) as u128, status),
            final(self).transactions.len() == old(self).transactions.len(),
    {
        let ghost old_v = self@;
        let t = &mut self.transactions[i];
        t.status = status;
        assert(self@.transactions =~= old_v.with_status((i + 1) as u128, status).transactions);
    }

    /// The buyer approves: the held-back part goes to the seller at once.
    pub fn approve_release(&mut self, transaction_id: u128, buyer: &String) -> (r: Result<
        Payout,
        Error,
    >)
        requires
            old(self)@.wf(),
        ensures
            final(self)@.wf(),
            match old(self)@.lookup(transaction_id) {
                None => r == Err::<Payout, Error>(Error::TransactionNotFound) && final(self)@ == old(self)@,
                Some(t) => if t.buyer != buyer@ {
                    r == Err::<Payout, Error>(Error::Unauthorized) && final(self)@ == old(self)@
                } else if t.status != TransactionStatus::Held {
                    r == Err::<Payout, Error>(Error::InvalidStatus) && final(self)@ == old(self)@
                } else {
                    r == Ok::<Payout, Error>(Payout::ToSeller) && final(self)@ == old(self)@.with_status(
                        transaction_id,
                        TransactionStatus::Completed,
                    )
                },
            },
    {
        let i = self.index_of(transaction_id)?;
        let t = &self.transactions[i];
        if t.buyer != *buyer {
            return Err(Error::Unauthorized);
        }
        if t.status != TransactionStatus::Held {
            return Err(Error::InvalidStatus);
        }
        self.set_status(i, TransactionStatus::Completed);
        Ok(Payout::ToSeller)
    }

    /// The buyer disputes a payment whose held-back part is still in custody.
    pub fn initiate_dispute(&mut self, transaction_id: u128, buyer: &String) -> (r: Result<
        (),
        Error,
    >)
        requires
            old(self)@.wf(),
        ensures
            final(self)@.wf(),
            match old(self)@.lookup(transaction_id) {
                None => r == Err::<(), Error>(Error::TransactionNotFound) && final(self)@ == old(self)@,
                Some(t) => if t.buyer != buyer@ {
                    r == Err::<(), Error>(Error::Unauthorized) && final(self)@ == old(self)@
                } else if t.status != TransactionStatus::Held && t.status
                    != TransactionStatus::HoldbackPending {
                    r == Err::<(), Error>(Error::InvalidStatus) && final(self)@ == old(self)@
                } else {
                    r is Ok && final(self)@ == old(self)@.with_status(
                        transaction_id,
                        TransactionStatus::Disputed,
                    )
                },
            },
    {
        let i = self.index_of(transaction_id)?;
        let t = &self.transactions[i];
        if t.buyer != *buyer {
            return Err(Error::Unauthorized);
        }
        if t.status != TransactionStatus::Held && t.status != TransactionStatus::HoldbackPending {
            return Err(Error::InvalidStatus);
        }
        self.set_status(i, TransactionStatus::Disputed);
        Ok(())
    }

    /// The admin settles a dispute: the held-back part goes back to the buyer when
    /// `refund` holds (`Cancelled`), else to the seller (`Completed`).
    pub fn resolve_dispute(&mut self, transaction_id: u128, refund: bool, admin: &String) -> (r:
        Result<Payout, Error>)
        requires
            old(self)@.wf(),
        ensures
            final(self)@.wf(),
            match old(self)@.admin {
                None => r == Err::<Payout, Error>(Error::NotInitialized) && final(self)@ == old(self)@,
                Some(a) => if a != admin@ {
                    r == Err::<Payout, Error>(Error::Unauthorized) && final(self)@ == old(self)@
                } else {
                    match old(self)@.lookup(transaction_id) {
                        None => r == Err::<Payout, Error>(Error::TransactionNotFound) && final(self)@
                            == old(self)@,
                        Some(t) => if t.status != TransactionStatus::Disputed {
                            r == Err::<Payout, Error>(Error::InvalidStatus) && final(self)@ == old(self)@
                        } else if refund {
                            r == Ok::<Payout, Error>(Payout::ToBuyer) && final(self)@ == old(self)@.with_status(transaction_id, TransactionStatus::Cancelled)
                        } else {
                            r == Ok::<Payout, Error>(Payout::ToSeller) && final(self)@ == old(self)@.with_status(transaction_id, TransactionStatus::Completed)
                        },
                    }
                },
            },
    {
        match &self.admin {
            None => {
                return Err(Error::NotInitialized);
            },
            Some(a) => {
                if *a != *admin {
                    return Err(Error::Unauthorized);
                }
            },
        }
        let i = self.index_of(transaction_id)?;
        if self.transactions[i].status != TransactionStatus::Disputed {
            return Err(Error::InvalidStatus);
        }
        if refund {
            self.set_status(i, TransactionStatus::Cancelled);
            Ok(Payout::ToBuyer)
        } else {
            self.set_status(i, TransactionStatus::Completed);
            Ok(Payout::ToSeller)
        }
    }

    /// Releases the held-back part to the seller if it is due at time `now`; anyone
    /// may call it. `None` when the payment is still waiting.
    pub fn check_and_release(&mut self, transaction_id: u128, now: u64) -> (r: Result<
        Option<Payout>,
        Error,
    >)
        requires
            old(self)@.wf(),
        ensures
            final(self)@.wf(),
            match old(self)@.lookup(transaction_id) {
                None => r == Err::<Option<Payout>, Error>(Error::TransactionNotFound) && final(self)@ == old(self)@,
                Some(t) => if t.status != TransactionStatus::Held && t.status
                    != TransactionStatus::HoldbackPending {
                    r == Err::<Option<Payout>, Error>(Error::InvalidStatus) && final(self)@ == old(self)@
                } else if t.release_due(now) {
                    r == Ok::<Option<Payout>, Error>(Some(Payout::ToSeller)) && final(self)@ == old(self)@.with_status(transaction_id, TransactionStatus::Completed)
                } else {
                    r == Ok::<Option<Payout>, Error>(None) && final(self)@ == old(self)@
                },
            },
    {
        let i = self.index_of(transaction_id)?;
        let t = &self.transactions[i];
        if t.status != TransactionStatus::Held && t.status != TransactionStatus::HoldbackPending {
            return Err(Error::InvalidStatus);
        }
        self.release_holdback_if_due(i, now)
    }

    fn release_holdback_if_due(&mut self, i: usize, now: u64) -> (r: Result<Option<Payout>, Error>)
        requires
            i < old(self).transactions.len(),
        ensures
            old(self)@.transactions[i as int].release_due(now) ==> r == Ok::<Option<Payout>, Error>(
                Some(Payout::ToSeller),
            ) && final(self)@ == old(self)@.with_status((i + 1) as u128, TransactionStatus::Completed),
            !old(self)@.transactions[i as int].release_due(now) ==> r == Ok::<Option<Payout>, Error>(
                None,
            ) && final(self)@ == old(self)@,
    {
        let t = &self.transactions[i];
        if t.status == TransactionStatus::HoldbackPending || (t.status == TransactionStatus::Held
            && now >= t.release_time) {
            self.set_status(i, TransactionStatus::Completed);
            Ok(Some(Payout::ToSeller))
        } else {
            Ok(None)
        }
    }
}

} // verus!
