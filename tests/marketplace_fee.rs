use std::collections::HashMap;

use consensus_release::marketplace_fee::{Error, MarketplaceFeeContract, TransactionDetails};

struct TestContext {
    contract: MarketplaceFeeContract,
    balances: HashMap<String, i128>,
    marketplace: String,
    buyer: String,
    seller: String,
    token: String,
}

impl TestContext {
    fn new() -> Self {
        let mut balances = HashMap::new();
        balances.insert("buyer".to_string(), 10_000_000);
        TestContext {
            contract: MarketplaceFeeContract::new(),
            balances,
            marketplace: "marketplace".to_string(),
            buyer: "buyer".to_string(),
            seller: "seller".to_string(),
            token: "token".to_string(),
        }
    }

    fn initialize_contract(&mut self, fee_percentage: u32) {
        self.contract.initialize(fee_percentage, self.marketplace.clone()).unwrap();
    }

    fn balance(&self, who: &str) -> i128 {
        *self.balances.get(who).unwrap_or(&0)
    }

    fn move_value(&mut self, from: &str, to: &str, amount: i128) -> Result<(), Error> {
        if self.balance(from) < amount {
            return Err(Error::InsufficientFunds);
        }
        *self.balances.entry(from.to_string()).or_insert(0) -= amount;
        *self.balances.entry(to.to_string()).or_insert(0) += amount;
        Ok(())
    }

    /// Splits the sale, then moves both shares out of the buyer's balance.
    fn process(&mut self, buyer: &str, amount: i128) -> Result<TransactionDetails, Error> {
        let details = self.contract.process_transaction(
            buyer.to_string(),
            self.seller.clone(),
            amount,
            self.token.clone(),
        )?;
        if self.balance(buyer) < details.total_amount {
            return Err(Error::InsufficientFunds);
        }
        let marketplace = self.marketplace.clone();
        let seller = self.seller.clone();
        if details.fee_amount > 0 {
            self.move_value(buyer, &marketplace, details.fee_amount)?;
        }
        self.move_value(buyer, &seller, details.seller_amount)?;
        Ok(details)
    }
}

#[test]
fn test_test_contract_initialization() {
    let mut ctx = TestContext::new();
    ctx.initialize_contract(250);
    let config = ctx.contract.get_config().unwrap();
    assert_eq!(config.fee_percentage, 250);
    assert_eq!(config.fee_recipient, ctx.marketplace);
    assert!(config.is_initialized);
}

#[test]
fn test_initialization_with_invalid_fee() {
    let mut ctx = TestContext::new();
    let result = ctx.contract.initialize(1001, ctx.marketplace.clone());
    assert_eq!(result, Err(Error::InvalidFeePercentage));
}

#[test]
fn test_double_initialization() {
    let mut ctx = TestContext::new();
    ctx.initialize_contract(250);
    let result = ctx.contract.initialize(300, ctx.marketplace.clone());
    assert_eq!(result, Err(Error::AlreadyInitialized));
}

#[test]
fn test_successful_transaction_processing() {
    let mut ctx = TestContext::new();
    ctx.initialize_contract(250);
    let transaction_amount = 10_000i128;
    let initial_buyer_balance = ctx.balance("buyer");
    let initial_seller_balance = ctx.balance("seller");
    let initial_marketplace_balance = ctx.balance("marketplace");

    let details = ctx.process("buyer", transaction_amount).unwrap();
    assert_eq!(details.total_amount, transaction_amount);
    assert_eq!(details.fee_amount, 250);
    assert_eq!(details.seller_amount, 9_750);
    assert_eq!(details.buyer, ctx.buyer);
    assert_eq!(details.seller, ctx.seller);
    assert_eq!(details.token, ctx.token);

    assert_eq!(ctx.balance("buyer"), initial_buyer_balance - transaction_amount);
    assert_eq!(ctx.balance("seller"), initial_seller_balance + 9_750);
    assert_eq!(ctx.balance("marketplace"), initial_marketplace_balance + 250);
}

#[test]
fn test_transaction_processing_not_initialized() {
    let mut ctx = TestContext::new();
    let result = ctx.process("buyer", 10_000);
    assert!(matches!(result, Err(Error::NotInitialized)));
}

#[test]
fn test_transaction_with_invalid_amount() {
    let mut ctx = TestContext::new();
    ctx.initialize_contract(250);
    assert!(matches!(ctx.process("buyer", 0), Err(Error::InvalidAmount)));
    assert!(matches!(ctx.process("buyer", -100), Err(Error::InvalidAmount)));
}

#[test]
fn test_transaction_with_insufficient_funds() {
    let mut ctx = TestContext::new();
    ctx.initialize_contract(250);
    ctx.balances.insert("poor_buyer".to_string(), 100);
    let result = ctx.process("poor_buyer", 1000);
    assert!(result.is_err());
}

#[test]
fn test_fee_calculation() {
    let mut ctx = TestContext::new();
    ctx.initialize_contract(250);
    assert_eq!(ctx.contract.calculate_fee(10_000), Ok((250, 9_750)));
    assert_eq!(ctx.contract.calculate_fee(1_000_000), Ok((25_000, 975_000)));
}

#[test]
fn test_fee_calculation_not_initialized() {
    let ctx = TestContext::new();
    assert_eq!(ctx.contract.calculate_fee(10_000), Err(Error::NotInitialized));
}

#[test]
fn test_fee_calculation_invalid_amount() {
    let mut ctx = TestContext::new();
    ctx.initialize_contract(250);
    assert_eq!(ctx.contract.calculate_fee(0), Err(Error::InvalidAmount));
    assert_eq!(ctx.contract.calculate_fee(-100), Err(Error::InvalidAmount));
}

#[test]
fn test_update_fee_percentage() {
    let mut ctx = TestContext::new();
    ctx.initialize_contract(250);
    ctx.contract.update_fee_percentage(500).unwrap();
    assert_eq!(ctx.contract.get_config().unwrap().fee_percentage, 500);
    assert_eq!(ctx.contract.calculate_fee(10_000), Ok((500, 9_500)));
}

#[test]
fn test_update_fee_percentage_invalid() {
    let mut ctx = TestContext::new();
    ctx.initialize_contract(250);
    assert_eq!(ctx.contract.update_fee_percentage(1001), Err(Error::InvalidFeePercentage));
}

#[test]
fn test_update_fee_percentage_not_initialized() {
    let mut ctx = TestContext::new();
    assert_eq!(ctx.contract.update_fee_percentage(500), Err(Error::NotInitialized));
}

#[test]
fn test_get_config_not_initialized() {
    let ctx = TestContext::new();
    assert!(matches!(ctx.contract.get_config(), Err(Error::NotInitialized)));
}

#[test]
fn test_edge_case_very_small_amounts() {
    let mut ctx = TestContext::new();
    ctx.initialize_contract(250);
    assert_eq!(ctx.contract.calculate_fee(1), Ok((0, 1)));
    assert_eq!(ctx.contract.calculate_fee(100), Ok((2, 98)));
}

#[test]
fn test_edge_case_maximum_fee_percentage() {
    let mut ctx = TestContext::new();
    ctx.initialize_contract(1000);
    assert_eq!(ctx.contract.calculate_fee(10_000), Ok((1_000, 9_000)));
}

#[test]
fn test_edge_case_zero_fee_percentage() {
    let mut ctx = TestContext::new();
    ctx.initialize_contract(0);
    assert_eq!(ctx.contract.calculate_fee(10_000), Ok((0, 10_000)));
    let details = ctx.process("buyer", 10_000).unwrap();
    assert_eq!(details.fee_amount, 0);
    assert_eq!(details.seller_amount, 10_000);
}

#[test]
fn test_multiple_transactions() {
    let mut ctx = TestContext::new();
    ctx.initialize_contract(250);
    let initial_marketplace_balance = ctx.balance("marketplace");
    for i in 1..=5 {
        let amount = 1_000i128 * i;
        ctx.process("buyer", amount).unwrap();
    }
    let total_fees_collected = ctx.balance("marketplace") - initial_marketplace_balance;
    assert_eq!(total_fees_collected, 375);
}
