use std::collections::HashMap;

use consensus_release::contract::ConsensusReleaseContract;
use consensus_release::error::ContractError;
use consensus_release::events::{consensus_reached_event, expired_event, status_changed_event};
use consensus_release::types::{ConsensusRule, TransactionStatus, Transfer};
use consensus_release::utils::{can_submit_agreement, find_vote, has_consensus, has_rejection, is_expired};

const ESCROW: &str = "escrow";

/// An engine with a small ledger beside it that carries out the transfers it asks for.
struct TestContext {
    contract: ConsensusReleaseContract,
    balances: HashMap<String, i128>,
    now: u64,
    admin: String,
    buyer: String,
    seller: String,
    arbitrator: String,
}

impl TestContext {
    fn new() -> Self {
        let mut contract = ConsensusReleaseContract::new();
        let admin = "admin".to_string();
        contract.initialize(admin.clone()).unwrap();
        let mut balances = HashMap::new();
        balances.insert("buyer".to_string(), 1000);
        TestContext {
            contract,
            balances,
            now: 1000,
            admin,
            buyer: "buyer".to_string(),
            seller: "seller".to_string(),
            arbitrator: "arbitrator".to_string(),
        }
    }

    fn balance(&self, who: &str) -> i128 {
        *self.balances.get(who).unwrap_or(&0)
    }

    fn move_value(&mut self, from: &str, to: &str, amount: i128) {
        assert!(self.balance(from) >= amount, "insufficient balance");
        *self.balances.entry(from.to_string()).or_insert(0) -= amount;
        *self.balances.entry(to.to_string()).or_insert(0) += amount;
    }

    fn perform(&mut self, id: u64, transfer: Transfer) {
        let t = self.contract.get_transaction(id).unwrap();
        let (buyer, seller, amount) = (t.buyer.clone(), t.seller.clone(), t.amount);
        match transfer {
            Transfer::Deposit => self.move_value(&buyer, ESCROW, amount),
            Transfer::RefundToBuyer => self.move_value(ESCROW, &buyer, amount),
            Transfer::ReleaseToSeller => self.move_value(ESCROW, &seller, amount),
        }
    }

    fn advance_time(&mut self, seconds: u64) {
        self.now += seconds;
    }

    fn create(
        &mut self,
        arbitrator: Option<String>,
        amount: i128,
        description: &str,
        rule: ConsensusRule,
        duration: u64,
    ) -> Result<u64, ContractError> {
        let (buyer, seller) = (self.buyer.clone(), self.seller.clone());
        self.create_between(buyer, seller, arbitrator, amount, description, rule, duration)
    }

    fn create_between(
        &mut self,
        buyer: String,
        seller: String,
        arbitrator: Option<String>,
        amount: i128,
        description: &str,
        rule: ConsensusRule,
        duration: u64,
    ) -> Result<u64, ContractError> {
        self.contract.create_transaction(
            buyer,
            seller,
            arbitrator,
            "token".to_string(),
            amount,
            description.to_string(),
            rule,
            duration,
            self.now,
        )
    }

    fn fund(&mut self, who: &str, id: u64) -> Result<(), ContractError> {
        let transfer = self.contract.fund_transaction(&who.to_string(), id, self.now)?;
        self.perform(id, transfer);
        Ok(())
    }

    fn vote(&mut self, who: &str, id: u64, agreed: bool, reason: Option<&str>) -> Result<(), ContractError> {
        let reason = reason.map(|r| r.to_string());
        if let Some(transfer) = self.contract.submit_agreement(&who.to_string(), id, agreed, reason, self.now)? {
            self.perform(id, transfer);
        }
        Ok(())
    }

    fn release(&mut self, who: &str, id: u64) -> Result<(), ContractError> {
        let transfer = self.contract.release_funds(&who.to_string(), id, self.now)?;
        self.perform(id, transfer);
        Ok(())
    }

    fn expire(&mut self, id: u64) -> Result<(), ContractError> {
        if let Some(transfer) = self.contract.handle_expiration(id, self.now)? {
            self.perform(id, transfer);
        }
        Ok(())
    }

    fn status(&self, id: u64) -> TransactionStatus {
        self.contract.get_transaction(id).unwrap().status
    }
}

#[test]
fn test_initialization() {
    let mut ctx = TestContext::new();
    assert_eq!(ctx.contract.get_admin(), Ok(ctx.admin.clone()));
    let result = ctx.contract.initialize(ctx.admin.clone());
    assert_eq!(result, Err(ContractError::AlreadyInitialized));
}

#[test]
fn test_create_transaction_success() {
    let mut ctx = TestContext::new();
    let arbitrator = ctx.arbitrator.clone();
    let id = ctx
        .create(Some(arbitrator.clone()), 100, "Test transaction", ConsensusRule::Unanimous, 3600)
        .unwrap();
    assert_eq!(id, 1);
    let t = ctx.contract.get_transaction(id).unwrap();
    assert_eq!(t.buyer, ctx.buyer);
    assert_eq!(t.seller, ctx.seller);
    assert_eq!(t.arbitrator, Some(arbitrator));
    assert_eq!(t.amount, 100);
    assert_eq!(t.status, TransactionStatus::Created);
}

#[test]
fn test_create_transaction_validation() {
    let mut ctx = TestContext::new();
    let result = ctx.create(None, 0, "Test", ConsensusRule::BuyerSellerOnly, 3600);
    assert_eq!(result, Err(ContractError::InvalidAmount));

    let buyer = ctx.buyer.clone();
    let result = ctx.create_between(buyer.clone(), buyer, None, 100, "Test", ConsensusRule::BuyerSellerOnly, 3600);
    assert_eq!(result, Err(ContractError::DuplicateParties));

    let result = ctx.create(None, 100, "Test", ConsensusRule::WithArbitrator, 3600);
    assert_eq!(result, Err(ContractError::ArbitratorRequired));
}

#[test]
fn test_fund_transaction_success() {
    let mut ctx = TestContext::new();
    let id = ctx.create(None, 100, "Test transaction", ConsensusRule::BuyerSellerOnly, 3600).unwrap();
    ctx.fund("buyer", id).unwrap();
    assert_eq!(ctx.status(id), TransactionStatus::Funded);
    assert_eq!(ctx.balance("buyer"), 900);
    assert_eq!(ctx.balance(ESCROW), 100);
}

#[test]
fn test_fund_transaction_validation() {
    let mut ctx = TestContext::new();
    let id = ctx.create(None, 100, "Test transaction", ConsensusRule::BuyerSellerOnly, 3600).unwrap();
    assert_eq!(ctx.fund("seller", id), Err(ContractError::NotAuthorized));
    ctx.fund("buyer", id).unwrap();
    assert_eq!(ctx.fund("buyer", id), Err(ContractError::TransactionAlreadyFunded));
}

#[test]
fn test_unanimous_consensus_success() {
    let mut ctx = TestContext::new();
    let arbitrator = ctx.arbitrator.clone();
    let id = ctx
        .create(Some(arbitrator), 100, "Test transaction", ConsensusRule::Unanimous, 3600)
        .unwrap();
    ctx.fund("buyer", id).unwrap();
    ctx.vote("buyer", id, true, Some("Buyer agrees")).unwrap();
    ctx.vote("seller", id, true, Some("Seller agrees")).unwrap();
    ctx.vote("arbitrator", id, true, Some("Arbitrator agrees")).unwrap();
    assert_eq!(ctx.status(id), TransactionStatus::ConsensusReached);

    ctx.release("buyer", id).unwrap();
    assert_eq!(ctx.status(id), TransactionStatus::Released);
    assert_eq!(ctx.balance("seller"), 100);
    assert_eq!(ctx.balance(ESCROW), 0);
}

#[test]
fn test_majority_consensus_success() {
    let mut ctx = TestContext::new();
    let arbitrator = ctx.arbitrator.clone();
    let id = ctx
        .create(Some(arbitrator), 100, "Test transaction", ConsensusRule::Majority, 3600)
        .unwrap();
    ctx.fund("buyer", id).unwrap();
    ctx.vote("buyer", id, true, None).unwrap();
    ctx.vote("seller", id, true, None).unwrap();
    assert_eq!(ctx.status(id), TransactionStatus::ConsensusReached);
}

#[test]
fn test_buyer_seller_only_consensus() {
    let mut ctx = TestContext::new();
    let arbitrator = ctx.arbitrator.clone();
    let id = ctx
        .create(Some(arbitrator), 100, "Test transaction", ConsensusRule::BuyerSellerOnly, 3600)
        .unwrap();
    ctx.fund("buyer", id).unwrap();
    ctx.vote("buyer", id, true, None).unwrap();
    ctx.vote("seller", id, true, None).unwrap();
    assert_eq!(ctx.status(id), TransactionStatus::ConsensusReached);
}

#[test]
fn test_consensus_rejection() {
    let mut ctx = TestContext::new();
    let id = ctx.create(None, 100, "Test transaction", ConsensusRule::BuyerSellerOnly, 3600).unwrap();
    ctx.fund("buyer", id).unwrap();
    ctx.vote("seller", id, false, Some("Quality issues")).unwrap();
    assert_eq!(ctx.status(id), TransactionStatus::Refunded);
    assert_eq!(ctx.balance("buyer"), 1000);
    assert_eq!(ctx.balance(ESCROW), 0);
}

#[test]
fn test_agreement_validation() {
    let mut ctx = TestContext::new();
    let id = ctx.create(None, 100, "Test transaction", ConsensusRule::BuyerSellerOnly, 3600).unwrap();
    ctx.fund("buyer", id).unwrap();
    assert_eq!(ctx.vote("stranger", id, true, None), Err(ContractError::NotAuthorizedParty));
    ctx.vote("buyer", id, true, None).unwrap();
    assert_eq!(ctx.vote("buyer", id, true, None), Err(ContractError::AgreementAlreadySubmitted));
}

#[test]
fn test_release_funds_validation() {
    let mut ctx = TestContext::new();
    let id = ctx.create(None, 100, "Test transaction", ConsensusRule::BuyerSellerOnly, 3600).unwrap();
    ctx.fund("buyer", id).unwrap();
    assert_eq!(ctx.release("buyer", id), Err(ContractError::ConsensusNotReached));

    ctx.vote("buyer", id, true, None).unwrap();
    ctx.vote("seller", id, true, None).unwrap();
    assert_eq!(ctx.release("stranger", id), Err(ContractError::NotAuthorized));

    ctx.release("buyer", id).unwrap();
    assert_eq!(ctx.release("buyer", id), Err(ContractError::ConsensusNotReached));
}

#[test]
fn test_transaction_expiration() {
    let mut ctx = TestContext::new();
    let id = ctx.create(None, 100, "Test transaction", ConsensusRule::BuyerSellerOnly, 3600).unwrap();
    ctx.fund("buyer", id).unwrap();
    ctx.advance_time(3601);
    assert_eq!(ctx.vote("buyer", id, true, None), Err(ContractError::TransactionExpired));
    ctx.expire(id).unwrap();
    assert_eq!(ctx.status(id), TransactionStatus::Refunded);
    assert_eq!(ctx.balance("buyer"), 1000);
}

#[test]
fn test_expiration_before_funding() {
    let mut ctx = TestContext::new();
    let id = ctx.create(None, 100, "Test transaction", ConsensusRule::BuyerSellerOnly, 3600).unwrap();
    ctx.advance_time(3601);
    assert_eq!(ctx.fund("buyer", id), Err(ContractError::TransactionExpired));
}

#[test]
fn test_get_user_transactions() {
    let mut ctx = TestContext::new();
    let tx1 = ctx.create(None, 100, "Transaction 1", ConsensusRule::BuyerSellerOnly, 3600).unwrap();
    let tx2 = ctx.create(None, 200, "Transaction 2", ConsensusRule::BuyerSellerOnly, 3600).unwrap();

    let buyer_transactions = ctx.contract.get_user_transactions(&ctx.buyer);
    assert_eq!(buyer_transactions.len(), 2);
    assert!(buyer_transactions.contains(&tx1));
    assert!(buyer_transactions.contains(&tx2));

    let seller_transactions = ctx.contract.get_user_transactions(&ctx.seller);
    assert_eq!(seller_transactions.len(), 2);
    assert!(seller_transactions.contains(&tx1));
    assert!(seller_transactions.contains(&tx2));
}

#[test]
fn test_admin_management() {
    let mut ctx = TestContext::new();
    let new_admin = "new_admin".to_string();
    ctx.contract.set_admin(&ctx.admin, new_admin.clone()).unwrap();
    assert_eq!(ctx.contract.get_admin(), Ok(new_admin));

    let result = ctx.contract.set_admin(&ctx.admin, ctx.buyer.clone());
    assert_eq!(result, Err(ContractError::NotAuthorized));
}

#[test]
fn test_transaction_counter() {
    let mut ctx = TestContext::new();
    assert_eq!(ctx.contract.get_transaction_counter(), 0);
    ctx.create(None, 100, "Test transaction", ConsensusRule::BuyerSellerOnly, 3600).unwrap();
    assert_eq!(ctx.contract.get_transaction_counter(), 1);
}

#[test]
fn test_with_arbitrator_rule() {
    let mut ctx = TestContext::new();
    let arbitrator = ctx.arbitrator.clone();
    let id = ctx
        .create(Some(arbitrator), 100, "Test transaction", ConsensusRule::WithArbitrator, 3600)
        .unwrap();
    ctx.fund("buyer", id).unwrap();
    ctx.vote("buyer", id, true, None).unwrap();
    ctx.vote("seller", id, true, None).unwrap();
    assert_eq!(ctx.status(id), TransactionStatus::Funded);
    ctx.vote("arbitrator", id, true, None).unwrap();
    assert_eq!(ctx.status(id), TransactionStatus::ConsensusReached);
}

#[test]
fn test_invalid_transaction_id() {
    let mut ctx = TestContext::new();
    assert!(matches!(ctx.contract.get_transaction(999), Err(ContractError::TransactionNotFound)));
    assert_eq!(ctx.fund("buyer", 999), Err(ContractError::TransactionNotFound));
}

#[test]
fn test_edge_case_same_timestamp() {
    let mut ctx = TestContext::new();
    let id = ctx.create(None, 100, "Test transaction", ConsensusRule::BuyerSellerOnly, 1).unwrap();
    ctx.fund("buyer", id).unwrap();
    ctx.vote("buyer", id, true, None).unwrap();
    ctx.vote("seller", id, true, None).unwrap();
    assert_eq!(ctx.status(id), TransactionStatus::ConsensusReached);
}

#[test]
fn unanimous_three_parties_release_to_seller() {
    let mut ctx = TestContext::new();
    let arbitrator = ctx.arbitrator.clone();
    let id = ctx.create(Some(arbitrator), 100, "goods", ConsensusRule::Unanimous, 3600).unwrap();
    ctx.fund("buyer", id).unwrap();
    assert_eq!(ctx.balance(ESCROW), 100);
    ctx.vote("buyer", id, true, None).unwrap();
    ctx.vote("seller", id, true, None).unwrap();
    assert_eq!(ctx.status(id), TransactionStatus::Funded);
    ctx.vote("arbitrator", id, true, None).unwrap();
    assert_eq!(ctx.status(id), TransactionStatus::ConsensusReached);
    let seller_before = ctx.balance("seller");
    ctx.release("buyer", id).unwrap();
    assert_eq!(ctx.balance("seller"), seller_before + 100);
    assert_eq!(ctx.balance(ESCROW), 0);
    assert_eq!(ctx.status(id), TransactionStatus::Released);
}

#[test]
fn rejection_refunds_buyer_in_full() {
    let mut ctx = TestContext::new();
    let before = ctx.balance("buyer");
    let id = ctx.create(None, 100, "goods", ConsensusRule::BuyerSellerOnly, 3600).unwrap();
    ctx.fund("buyer", id).unwrap();
    ctx.vote("seller", id, false, Some("defective")).unwrap();
    assert_eq!(ctx.status(id), TransactionStatus::Refunded);
    assert_eq!(ctx.balance("buyer"), before);
    assert_eq!(ctx.balance(ESCROW), 0);
    let t = ctx.contract.get_transaction(id).unwrap();
    assert_eq!(t.agreements.len(), 1);
    assert_eq!(t.agreements[0].reason, Some("defective".to_string()));
}

#[test]
fn expiry_before_funding_moves_nothing() {
    let mut ctx = TestContext::new();
    let id = ctx.create(None, 100, "goods", ConsensusRule::BuyerSellerOnly, 1).unwrap();
    ctx.advance_time(2);
    let transfer = ctx.contract.handle_expiration(id, ctx.now).unwrap();
    assert_eq!(transfer, None);
    assert_eq!(ctx.status(id), TransactionStatus::Expired);
    assert_eq!(ctx.balance(ESCROW), 0);
    assert_eq!(ctx.balance("buyer"), 1000);
}

#[test]
fn expiry_after_funding_refunds_buyer() {
    let mut ctx = TestContext::new();
    let id = ctx.create(None, 100, "goods", ConsensusRule::BuyerSellerOnly, 1).unwrap();
    ctx.fund("buyer", id).unwrap();
    assert_eq!(ctx.balance("buyer"), 900);
    ctx.advance_time(2);
    ctx.expire(id).unwrap();
    assert_eq!(ctx.status(id), TransactionStatus::Refunded);
    assert_eq!(ctx.balance("buyer"), 1000);
    assert_eq!(ctx.balance(ESCROW), 0);
}

#[test]
fn create_then_fund_reads_funded_with_deposit() {
    let mut ctx = TestContext::new();
    let id = ctx.create(None, 250, "goods", ConsensusRule::Majority, 60).unwrap();
    ctx.fund("buyer", id).unwrap();
    let t = ctx.contract.get_transaction(id).unwrap();
    assert_eq!(t.status, TransactionStatus::Funded);
    assert_eq!(t.deposited, 250);
    assert_eq!(t.paid_out, 0);
}

#[test]
fn ids_increase_with_each_record() {
    let mut ctx = TestContext::new();
    let a = ctx.create(None, 1, "a", ConsensusRule::Majority, 60).unwrap();
    let b = ctx.create(None, 2, "b", ConsensusRule::Majority, 60).unwrap();
    let c = ctx.create(None, 3, "c", ConsensusRule::Majority, 60).unwrap();
    assert!(a < b && b < c);
    assert_eq!((a, b, c), (1, 2, 3));
    assert_eq!(ctx.contract.get_transaction_counter(), 3);
}

#[test]
fn rejected_record_stays_refunded() {
    let mut ctx = TestContext::new();
    let arbitrator = ctx.arbitrator.clone();
    let id = ctx.create(Some(arbitrator), 100, "goods", ConsensusRule::Unanimous, 10).unwrap();
    ctx.fund("buyer", id).unwrap();
    ctx.vote("buyer", id, false, None).unwrap();
    assert_eq!(ctx.vote("seller", id, true, None), Err(ContractError::NotAuthorizedParty));
    assert_eq!(ctx.release("seller", id), Err(ContractError::ConsensusNotReached));
    ctx.advance_time(20);
    assert_eq!(ctx.expire(id), Err(ContractError::InvalidTransactionStatus));
    assert_eq!(ctx.status(id), TransactionStatus::Refunded);
    let t = ctx.contract.get_transaction(id).unwrap();
    assert_eq!(t.amount, 100);
    assert_eq!(t.paid_out, 100);
}

#[test]
fn calls_past_deadline_fail_without_effect() {
    let mut ctx = TestContext::new();
    let id = ctx.create(None, 100, "goods", ConsensusRule::BuyerSellerOnly, 5).unwrap();
    assert_eq!(ctx.expire(id), Err(ContractError::InvalidTimestamp));
    ctx.advance_time(6);
    assert_eq!(ctx.fund("buyer", id), Err(ContractError::TransactionExpired));
    assert_eq!(ctx.vote("buyer", id, true, None), Err(ContractError::TransactionExpired));
    assert_eq!(ctx.release("buyer", id), Err(ContractError::TransactionExpired));
    assert_eq!(ctx.status(id), TransactionStatus::Created);
    ctx.expire(id).unwrap();
    assert_eq!(ctx.status(id), TransactionStatus::Expired);
    assert_eq!(ctx.expire(id), Err(ContractError::InvalidTransactionStatus));
}

#[test]
fn deadline_itself_is_not_expired() {
    let mut ctx = TestContext::new();
    let id = ctx.create(None, 100, "goods", ConsensusRule::BuyerSellerOnly, 5).unwrap();
    ctx.advance_time(5);
    ctx.fund("buyer", id).unwrap();
    assert_eq!(ctx.expire(id), Err(ContractError::InvalidTimestamp));
}

#[test]
fn creation_errors() {
    let mut ctx = TestContext::new();
    let arbitrator = ctx.arbitrator.clone();
    let buyer = ctx.buyer.clone();
    assert_eq!(ctx.create(None, -5, "x", ConsensusRule::Majority, 10), Err(ContractError::InvalidAmount));
    assert_eq!(ctx.create(None, 5, "x", ConsensusRule::Majority, 0), Err(ContractError::InvalidDeadline));
    assert_eq!(ctx.create(Some(buyer), 5, "x", ConsensusRule::Majority, 10), Err(ContractError::DuplicateParties));
    ctx.now = u64::MAX - 1;
    assert_eq!(ctx.create(Some(arbitrator), 5, "x", ConsensusRule::Majority, 10), Err(ContractError::InvalidDeadline));
    assert_eq!(ctx.contract.get_transaction_counter(), 0);
}

#[test]
fn majority_of_three_needs_two() {
    let mut ctx = TestContext::new();
    let arbitrator = ctx.arbitrator.clone();
    let id = ctx.create(Some(arbitrator), 100, "goods", ConsensusRule::Unanimous, 60).unwrap();
    ctx.fund("buyer", id).unwrap();
    ctx.vote("seller", id, true, None).unwrap();
    assert_eq!(ctx.status(id), TransactionStatus::Funded);
    let t = ctx.contract.get_transaction(id).unwrap();
    assert_eq!(t.required_parties.len(), 3);
}

#[test]
fn votes_only_while_funded() {
    let mut ctx = TestContext::new();
    let id = ctx.create(None, 100, "goods", ConsensusRule::BuyerSellerOnly, 60).unwrap();
    assert_eq!(ctx.vote("buyer", id, true, None), Err(ContractError::NotAuthorizedParty));
    ctx.fund("buyer", id).unwrap();
    ctx.vote("buyer", id, true, None).unwrap();
    ctx.vote("seller", id, true, None).unwrap();
    assert_eq!(ctx.vote("buyer", id, false, None), Err(ContractError::NotAuthorizedParty));
    assert_eq!(ctx.status(id), TransactionStatus::ConsensusReached);
}

#[test]
fn arbitrator_outside_the_rule_is_not_a_party() {
    let mut ctx = TestContext::new();
    let arbitrator = ctx.arbitrator.clone();
    let id = ctx.create(Some(arbitrator.clone()), 100, "goods", ConsensusRule::BuyerSellerOnly, 60).unwrap();
    ctx.fund("buyer", id).unwrap();
    assert_eq!(ctx.vote("arbitrator", id, true, None), Err(ContractError::NotAuthorizedParty));
    assert_eq!(ctx.contract.get_user_transactions(&arbitrator), Vec::<u64>::new());
    assert_eq!(ctx.contract.get_user_transactions(&ctx.buyer), vec![id]);
}

#[test]
fn admin_errors() {
    let mut contract = ConsensusReleaseContract::new();
    assert_eq!(contract.get_admin(), Err(ContractError::AdminNotSet));
    assert_eq!(contract.set_admin(&"a".to_string(), "b".to_string()), Err(ContractError::AdminNotSet));
}

#[test]
fn error_codes() {
    assert_eq!(ContractError::AlreadyInitialized.as_u32(), 1);
    assert_eq!(ContractError::TransactionNotFound.as_u32(), 10);
    assert_eq!(ContractError::ArbitratorRequired.as_u32(), 15);
    assert_eq!(ContractError::TransactionExpired.as_u32(), 22);
    assert_eq!(ContractError::ConsensusNotReached.as_u32(), 32);
    assert_eq!(ContractError::StorageError.as_u32(), 51);
}

#[test]
fn notices_follow_status_changes() {
    let mut ctx = TestContext::new();
    let id = ctx.create(None, 100, "goods", ConsensusRule::BuyerSellerOnly, 60).unwrap();
    ctx.fund("buyer", id).unwrap();
    ctx.vote("buyer", id, true, None).unwrap();
    ctx.vote("seller", id, true, None).unwrap();
    let t = ctx.contract.get_transaction(id).unwrap();
    let reached = consensus_reached_event(TransactionStatus::Funded, t, 7).unwrap();
    assert_eq!(reached.transaction_id, id);
    assert_eq!(reached.consensus_type, ConsensusRule::BuyerSellerOnly);
    assert_eq!(consensus_reached_event(TransactionStatus::ConsensusReached, t, 7), None);
    let changed = status_changed_event(TransactionStatus::Funded, t, 7).unwrap();
    assert_eq!(changed.old_status, TransactionStatus::Funded);
    assert_eq!(changed.new_status, TransactionStatus::ConsensusReached);
    assert_eq!(status_changed_event(TransactionStatus::ConsensusReached, t, 7), None);
    let expired = expired_event(t, 99);
    assert_eq!((expired.transaction_id, expired.deadline, expired.timestamp), (id, 1060, 99));
}

#[test]
fn consensus_helpers_on_a_record() {
    let mut ctx = TestContext::new();
    let arbitrator = ctx.arbitrator.clone();
    let id = ctx.create(Some(arbitrator), 100, "goods", ConsensusRule::WithArbitrator, 60).unwrap();
    ctx.fund("buyer", id).unwrap();
    ctx.vote("buyer", id, true, None).unwrap();
    ctx.vote("seller", id, true, None).unwrap();
    let t = ctx.contract.get_transaction(id).unwrap();
    assert!(!has_consensus(t));
    assert!(!has_rejection(t));
    assert_eq!(find_vote(&t.agreements, &"seller".to_string()), Some(true));
    assert_eq!(find_vote(&t.agreements, &"arbitrator".to_string()), None);
    assert!(can_submit_agreement(t, &"arbitrator".to_string()));
    assert!(!can_submit_agreement(t, &"buyer2".to_string()));
    assert!(!is_expired(t, 1060));
    assert!(is_expired(t, 1061));
}
