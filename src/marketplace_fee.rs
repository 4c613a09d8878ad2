use vstd::prelude::*;

verus! {

/// Failures of the fee-deduction marketplace.
#[derive(Clone, Copy, Debug, PartialEq, Eq, Structural)]
pub enum Error {
    NotInitialized,
    AlreadyInitialized,
    UnauthorizedAccess,
    InsufficientFunds,
    InvalidFeePercentage,
    TransferFailed,
    InvalidAmount,
}

/// The largest fee, in basis points (10%).
pub const MAX_FEE_PERCENTAGE: u32 = 1000;

/// Basis points in a whole.
pub const BASIS_POINTS: i128 = 10000;

/// Fee settings of the marketplace.
#[derive(Debug)]
pub struct MarketplaceConfig {
    /// Fee in basis points (250 is 2.5%).
    pub fee_percentage: u32,
    /// Identity that receives the fees.
    pub fee_recipient: String,
    pub is_initialized: bool,
}

/// How one sale is split between the marketplace and the seller.
#[derive(Debug)]
pub struct TransactionDetails {
    pub total_amount: i128,
    pub fee_amount: i128,
    pub seller_amount: i128,
    pub buyer: String,
    pub seller: String,
    pub token: String,
}

/// Mathematical model of the settings.
pub struct FeeConfigView {
    pub fee_percentage: u32,
    pub fee_recipient: Seq<char>,
}

/// The fee on `amount` at `fee_percentage` basis points, rounded down.
pub open spec fn fee_of(amount: int, fee_percentage: int) -> int {
    amount * fee_percentage / 10000
}

/// A marketplace that deducts a percentage fee from each sale. The caller
/// authenticates identities and moves the two shares that a sale returns.
pub struct MarketplaceFeeContract {
    config: Option<MarketplaceConfig>,
}

impl View for MarketplaceFeeContract {
    type V = Option<FeeConfigView>;

    closed spec fn view(&self) -> Option<FeeConfigView> {
        match &self.config {
            Some(c) => Some(FeeConfigView { fee_percentage: c.fee_percentage, fee_recipient: c.fee_recipient@ }),
            None => None,
        }
    }
}

impl MarketplaceFeeContract {
    /// The settings are valid: the fee is at most `MAX_FEE_PERCENTAGE`.
    pub closed spec fn wf(&self) -> bool {
        match &self.config {
            Some(c) => c.fee_percentage <= MAX_FEE_PERCENTAGE && c.is_initialized,
            None => true,
        }
    }

    /// A marketplace with no settings yet.
    pub fn new() -> (r: Self)
        ensures
            r.wf(),
            r@ is None,
    {
        MarketplaceFeeContract { config: None }
    }

    /// Rebuilds a marketplace from stored settings, which must be initialized and
    /// carry a fee of at most `MAX_FEE_PERCENTAGE`.
    pub fn from_config(config: MarketplaceConfig) -> (r: Result<Self, Error>)
        ensures
            !config.is_initialized ==> (r matches Err(e) && e == Error::NotInitialized),
            config.is_initialized && config.fee_percentage > MAX_FEE_PERCENTAGE ==> (r matches Err(e)
                && e == Error::InvalidFeePercentage),
            config.is_initialized && config.fee_percentage <= MAX_FEE_PERCENTAGE ==> (r matches Ok(m)
                && m.wf() && m@ == Some(
                FeeConfigView {
                    fee_percentage: config.fee_percentage,
                    fee_recipient: config.fee_recipient@,
                },
            )),
    {
        if !config.is_initialized {
            return Err(Error::NotInitialized);
        }
        if config.fee_percentage > MAX_FEE_PERCENTAGE {
            return Err(Error::InvalidFeePercentage);
        }
        Ok(MarketplaceFeeContract { config: Some(config) })
    }

    /// Sets the fee and its recipient, once.
    pub fn initialize(&mut self, fee_percentage: u32, fee_recipient: String) -> (r: Result<(), Error>)
        requires
            old(self).wf(),
        ensures
            final(self).wf(),
            old(self)@ is Some ==> r == Err::<(), Error>(Error::AlreadyInitialized) && final(self)@ == old(self)@,
            old(self)@ is None && fee_percentage > MAX_FEE_PERCENTAGE ==> r == Err::<(), Error>(
                Error::InvalidFeePercentage,
            ) && final(self)@ == old(self)@,
            old(self)@ is None && fee_percentage <= MAX_FEE_PERCENTAGE ==> r is Ok && final(self)@
                == Some(FeeConfigView { fee_percentage, fee_recipient: fee_recipient@ }),
    {
        if self.config.is_some() {
            return Err(Error::AlreadyInitialized);
        }
        if fee_percentage > MAX_FEE_PERCENTAGE {
            return Err(Error::InvalidFeePercentage);
        }
        self.config = Some(MarketplaceConfig { fee_percentage, fee_recipient, is_initialized: true });
        Ok(())
    }

    /// A copy of the settings, or `NotInitialized`.
    pub fn get_config(&self) -> (r: Result<MarketplaceConfig, Error>)
        ensures
            match self@ {
                Some(c) => r matches Ok(k) && k.fee_percentage == c.fee_percentage
                    && k.fee_recipient@ == c.fee_recipient && k.is_initialized,
                None => r matches Err(e) && e == Error::NotInitialized,
            },
    {
        match &self.config {
            Some(c) => Ok(
                MarketplaceConfig {
                    fee_percentage: c.fee_percentage,
                    fee_recipient: c.fee_recipient.clone(),
                    is_initialized: true,
                },
            ),
            None => Err(Error::NotInitialized),
        }
    }

    /// Changes the fee; the recipient stays.
    pub fn update_fee_percentage(&mut self, new_fee_percentage: u32) -> (r: Result<(), Error>)
        requires
            old(self).wf(),
        ensures
            final(self).wf(),
            match old(self)@ {
                None => r == Err::<(), Error>(Error::NotInitialized) && final(self)@ == old(self)@,
                Some(c) => if new_fee_percentage > MAX_FEE_PERCENTAGE {
                    r == Err::<(), Error>(Error::InvalidFeePercentage) && final(self)@ == old(self)@
                } else {
                    r is Ok && final(self)@ == Some(
                        FeeConfigView { fee_percentage: new_fee_percentage, ..c },
                    )
                },
            },
    {
        match &mut self.config {
            None => Err(Error::NotInitialized),
            Some(c) => {
                if new_fee_percentage > MAX_FEE_PERCENTAGE {
                    return Err(Error::InvalidFeePercentage);
                }
                c.fee_percentage = new_fee_percentage;
                Ok(())
            },
        }
    }

    /// The fee on `amount` and what is left for the seller; they add up to `amount`,
    /// and the fee is at most a tenth of it.
    pub fn calculate_fee(&self, amount: i128) -> (r: Result<(i128, i128), Error>)
        requires
            self.wf(),
            self@ matches Some(c) ==> amount * c.fee_percentage <= i128::MAX,
        ensures
            match self@ {
                None => r == Err::<(i128, i128), Error>(Error::NotInitialized),
                Some(c) => if amount <= 0 {
                    r == Err::<(i128, i128), Error>(Error::InvalidAmount)
                } else {
                    r matches Ok((fee, rest)) && fee == fee_of(amount as int, c.fee_percentage as int)
                        && rest == amount - fee && 0 <= fee <= amount / 10
                },
            },
    {
        match &self.config {
            None => Err(Error::NotInitialized),
            Some(c) => {
                if amount <= 0 {
                    return Err(Error::InvalidAmount);
                }
                let (fee, rest) = split_amount(amount, c.fee_percentage);
                Ok((fee, rest))
            },
        }
    }

    /// Splits a sale of `total_amount` into the marketplace's fee and the seller's
    /// share; the caller then moves the fee (when not zero) to the recipient and the
    /// rest to the seller.
    pub fn process_transaction(
        &self,
        buyer: String,
        seller: String,
        total_amount: i128,
        token: String,
    ) -> (r: Result<TransactionDetails, Error>)
        requires
            self.wf(),
            self@ matches Some(c) ==> total_amount * c.fee_percentage <= i128::MAX,
        ensures
            match self@ {
                None => r matches Err(e) && e == Error::NotInitialized,
                Some(c) => if total_amount <= 0 {
                    r matches Err(e) && e == Error::InvalidAmount
                } else {
                    r matches Ok(d) && d.total_amount == total_amount && d.fee_amount == fee_of(
                        total_amount as int,
                        c.fee_percentage as int,
                    ) && d.seller_amount == total_amount - d.fee_amount && d.seller_amount > 0
                        && d.buyer == buyer && d.seller == seller && d.token == token
                },
            },
    {
        match &self.config {
            None => Err(Error::NotInitialized),
            Some(c) => {
                if total_amount <= 0 {
                    return Err(Error::InvalidAmount);
                }
                let (fee_amount, seller_amount) = split_amount(total_amount, c.fee_percentage);
                if seller_amount <= 0 {
                    return Err(Error::InsufficientFunds);
                }
                Ok(
                    TransactionDetails {
                        total_amount,
                        fee_amount,
                        seller_amount,
                        buyer,
                        seller,
                        token,
                    },
                )
            },
        }
    }
}

/// Fee and remainder of a positive amount.
fn split_amount(amount: i128, fee_percentage: u32) -> (r: (i128, i128))
    requires
        amount > 0,
        fee_percentage <= MAX_FEE_PERCENTAGE,
        amount * fee_percentage <= i128::MAX,
    ensures
        r.0 == fee_of(amount as int, fee_percentage as int),
        r.1 == amount - r.0,
        0 <= r.0 <= amount / 10,
        r.1 > 0,
{
    let product = amount * (fee_percentage as i128);
    let fee = product / BASIS_POINTS;
    assert(0 <= fee <= amount / 10) by (nonlinear_arith)
        requires
            fee == product / 10000,
            product == amount * fee_percentage,
            amount > 0,
            0 <= fee_percentage <= 1000,
    ;
    (fee, amount - fee)
}

} // verus!
