use vstd::prelude::*;

use crate::types::opt_view;

verus! {

/// Failures of the auction contract.
#[derive(Clone, Copy, Debug, PartialEq, Eq, Structural)]
pub enum ContractError {
    AuctionNotActive,
    AuctionHasEnded,
    AuctionNotEnded,
    AuctionHasBids,
    BidTooLow,
    InvalidBidAmount,
    NotAuctionSeller,
    AuctionNotFound,
    InvalidInput,
}

/// Lifecycle of an auction.
#[derive(Clone, Copy, Debug, PartialEq, Eq, Structural)]
pub enum AuctionStatus {
    /// No bid yet; the seller may still cancel.
    Pending,
    /// At least one bid; the highest is in custody.
    Active,
    /// Ended, paid out or cancelled.
    Closed,
}

/// A timed auction whose highest bid is held in custody.
#[derive(Debug)]
pub struct Auction {
    pub auction_id: u64,
    pub seller: String,
    pub item_description: String,
    pub starting_price: i128,
    pub min_bid_increment: i128,
    pub end_timestamp: u64,
    pub payment_token: String,
    pub highest_bidder: Option<String>,
    /// The highest bid, or the starting price before the first bid.
    pub highest_bid: i128,
    pub status: AuctionStatus,
}

/// Mathematical model of an [`Auction`].
pub struct AuctionView {
    pub auction_id: u64,
    pub seller: Seq<char>,
    pub item_description: Seq<char>,
    pub starting_price: i128,
    pub min_bid_increment: i128,
    pub end_timestamp: u64,
    pub payment_token: Seq<char>,
    pub highest_bidder: Option<Seq<char>>,
    pub highest_bid: i128,
    pub status: AuctionStatus,
}

impl View for Auction {
    type V = AuctionView;

    open spec fn view(&self) -> AuctionView {
        AuctionView {
            auction_id: self.auction_id,
            seller: self.seller@,
            item_description: self.item_description@,
            starting_price: self.starting_price,
            min_bid_increment: self.min_bid_increment,
            end_timestamp: self.end_timestamp,
            payment_token: self.payment_token@,
            highest_bidder: opt_view(self.highest_bidder),
            highest_bid: self.highest_bid,
            status: self.status,
        }
    }
}

pub open spec fn auctions_view(s: Seq<Auction>) -> Seq<AuctionView> {
    s.map_values(|a: Auction| a@)
}

impl AuctionView {
    /// Prices are positive, bids never fall below the starting price, and an auction
    /// has a highest bidder exactly when bids were placed.
    pub open spec fn wf(self) -> bool {
        &&& self.starting_price > 0
        &&& self.min_bid_increment > 0
        &&& self.highest_bid >= self.starting_price
        &&& (self.status == AuctionStatus::Pending ==> self.highest_bidder is None)
        &&& (self.status == AuctionStatus::Active ==> self.highest_bidder is Some)
    }
}

/// Mathematical model of the contract: the auction with id `k` at index `k - 1`.
pub struct AuctionsView {
    pub auctions: Seq<AuctionView>,
}

impl AuctionsView {
    pub open spec fn wf(self) -> bool {
        forall|i: int|
            0 <= i < self.auctions.len() ==> (#[trigger] self.auctions[i]).wf()
                && self.auctions[i].auction_id == i + 1
    }

    pub open spec fn lookup(self, id: u64) -> Option<AuctionView> {
        if 1 <= id <= self.auctions.len() {
            Some(self.auctions[id - 1])
        } else {
            None
        }
    }

    pub open spec fn with_auction(self, id: u64, a: AuctionView) -> AuctionsView {
        AuctionsView { auctions: self.auctions.update(id - 1, a) }
    }
}

/// Whether a stored auction satisfies its invariant.
pub fn check_auction(a: &Auction) -> (r: bool)
    ensures
        r == a@.wf(),
{
    a.starting_price > 0 && a.min_bid_increment > 0 && a.highest_bid >= a.starting_price && (
    a.status != AuctionStatus::Pending || a.highest_bidder.is_none()) && (a.status
        != AuctionStatus::Active || a.highest_bidder.is_some())
}

/// Timed auctions: each bid must beat the highest by the increment, the outbid bidder
/// is refunded, and at the end the seller receives the highest bid. The caller
/// authenticates identities, supplies the clock and moves the amounts that each call
/// names.
pub struct AutomatedAuctionContract {
    auctions: Vec<Auction>,
}

impl View for AutomatedAuctionContract {
    type V = AuctionsView;

    closed spec fn view(&self) -> AuctionsView {
        AuctionsView { auctions: auctions_view(self.auctions@) }
    }
}

impl AutomatedAuctionContract {
    /// A contract with no auctions.
    pub fn new() -> (r: Self)
        ensures
            r@.auctions.len() == 0,
            r@.wf(),
    {
        let r = AutomatedAuctionContract { auctions: Vec::new() };
        assert(r@.auctions =~= Seq::<AuctionView>::empty());
        r
    }

    /// Rebuilds a contract from stored auctions. Fails with `InvalidInput` unless every
    /// auction satisfies its invariant and carries the id of its place.
    pub fn restore(auctions: Vec<Auction>) -> (r: Result<Self, ContractError>)
        ensures
            ({
                let v = AuctionsView { auctions: auctions_view(auctions@) };
                match r {
                    Ok(c) => c@ == v && v.wf(),
                    Err(e) => e == ContractError::InvalidInput && !v.wf(),
                }
            }),
    {
        let ghost ts = auctions_view(auctions@);
        let mut i: usize = 0;
        while i < auctions.len()
            invariant
                ts == auctions_view(auctions@),
                i <= auctions.len(),
                forall|k: int| 0 <= k < i ==> (#[trigger] ts[k]).wf() && ts[k].auction_id == k + 1,
            decreases auctions.len() - i,
        {
            let a = &auctions[i];
            if !check_auction(a) || a.auction_id != i as u64 + 1 {
                let ghost v = AuctionsView { auctions: ts };
                assert(v.auctions[i as int] == ts[i as int]);
                assert(!(v.auctions[i as int].wf() && v.auctions[i as int].auction_id == i + 1));
                return Err(ContractError::InvalidInput);
            }
            i = i + 1;
        }
        Ok(AutomatedAuctionContract { auctions })
    }

    /// The auctions, oldest first, for storing.
    pub fn into_parts(self) -> (r: Vec<Auction>)
        ensures
            auctions_view(r@) == self@.auctions,
    {
        self.auctions
    }

    fn index_of(&self, auction_id: u64) -> (r: Result<usize, ContractError>)
        ensures
            match r {
                Ok(i) => self@.lookup(auction_id) is Some && i == auction_id - 1 && i
                    < self.auctions.len(),
                Err(e) => self@.lookup(auction_id) is None && e == ContractError::AuctionNotFound,
            },
    {
        if auction_id == 0 || auction_id > self.auctions.len() as u64 {
            Err(ContractError::AuctionNotFound)
        } else {
            Ok((auction_id - 1) as usize)
        }
    }

    /// The auction with this id, or `AuctionNotFound`.
    pub fn get_auction(&self, auction_id: u64) -> (r: Result<&Auction, ContractError>)
        ensures
            match r {
                Ok(a) => self@.lookup(auction_id) == Some(a@),
                Err(e) => self@.lookup(auction_id) is None && e == ContractError::AuctionNotFound,
            },
    {
        match self.index_of(auction_id) {
            Ok(i) => Ok(&self.auctions[i]),
            Err(e) => Err(e),
        }
    }

    /// Opens an auction that ends `duration_seconds` after `now`.
    pub fn create_auction(
        &mut self,
        seller: String,
        item_description: String,
        starting_price: i128,
        min_bid_increment: i128,
        duration_seconds: u64,
        payment_token: String,
        now: u64,
    ) -> (r: Result<u64, ContractError>)
        requires
            old(self)@.wf(),
            old(self)@.auctions.len() < u64::MAX,
            now + duration_seconds <= u64::MAX,
        ensures
            final(self)@.wf(),
            starting_price <= 0 || min_bid_increment <= 0 ==> r == Err::<u64, ContractError>(
                ContractError::InvalidInput,
            ) && final(self)@ == old(self)@,
            starting_price > 0 && min_bid_increment > 0 ==> {
                let id = (old(self)@.auctions.len() + 1) as u64;
                &&& r == Ok::<u64, ContractError>(id)
                &&& final(self)@.auctions == old(self)@.auctions.push(
                    AuctionView {
                        auction_id: id,
                        seller: seller@,
                        item_description: item_description@,
                        starting_price,
                        min_bid_increment,
                        end_timestamp: (now + duration_seconds) as u64,
                        payment_token: payment_token@,
                        highest_bidder: None,
                        highest_bid: starting_price,
                        status: AuctionStatus::Pending,
                    },
                )
            },
    {
        if starting_price <= 0 || min_bid_increment <= 0 {
            return Err(ContractError::InvalidInput);
        }
        let auction_id = self.auctions.len() as u64 + 1;
        let a = Auction {
            auction_id,
            seller,
            item_description,
            starting_price,
            min_bid_increment,
            end_timestamp: now + duration_seconds,
            payment_token,
            highest_bidder: None,
            highest_bid: starting_price,
            status: AuctionStatus::Pending,
        };
        let ghost old_v = self@;
        self.auctions.push(a);
        assert(self@.auctions =~= old_v.auctions.push(a@));
        Ok(auction_id)
    }

    /// `bidder` bids `bid_amount`, which the caller moves into custody. Returns the
    /// outbid bidder and the amount that the caller hands back to them, if any.
    pub fn place_bid(&mut self, bidder: String, auction_id: u64, bid_amount: i128, now: u64) -> (r:
        Result<Option<(String, i128)>, ContractError>)
        requires
            old(self)@.wf(),
            old(self)@.lookup(auction_id) matches Some(a) ==> a.highest_bid + a.min_bid_increment
                <= i128::MAX,
        ensures
            final(self)@.wf(),
            match old(self)@.lookup(auction_id) {
                None => r matches Err(e) && e == ContractError::AuctionNotFound && final(self)@
                    == old(self)@,
                Some(a) => if now >= a.end_timestamp {
                    r matches Err(e) && e == ContractError::AuctionHasEnded && final(self)@ == old(self)@
                } else if a.status == AuctionStatus::Closed {
                    r matches Err(e) && e == ContractError::AuctionNotActive && final(self)@
                        == old(self)@
                } else if bid_amount <= 0 {
                    r matches Err(e) && e == ContractError::InvalidBidAmount && final(self)@
                        == old(self)@
                } else if bid_amount < a.highest_bid + a.min_bid_increment {
                    r matches Err(e) && e == ContractError::BidTooLow && final(self)@ == old(self)@
                } else {
                    &&& final(self)@ == old(self)@.with_auction(
                        auction_id,
                        AuctionView {
                            highest_bidder: Some(bidder@),
                            highest_bid: bid_amount,
                            status: AuctionStatus::Active,
                            ..a
                        },
                    )
                    &&& match a.highest_bidder {
                        Some(prev) => r matches Ok(Some((p, amount))) && p@ == prev && amount
                            == a.highest_bid,
                        None => r matches Ok(None),
                    }
                },
            },
    {
        let i = self.index_of(auction_id)?;
        let a = &self.auctions[i];
        if now >= a.end_timestamp {
            return Err(ContractError::AuctionHasEnded);
        }
        if a.status == AuctionStatus::Closed {
            return Err(ContractError::AuctionNotActive);
        }
        if bid_amount <= 0 {
            return Err(ContractError::InvalidBidAmount);
        }
        if bid_amount < a.highest_bid + a.min_bid_increment {
            return Err(ContractError::BidTooLow);
        }
        let ghost old_v = self@;
        let a = &mut self.auctions[i];
        let previous_bid = a.highest_bid;
        let previous = a.highest_bidder.take();
        a.highest_bidder = Some(bidder);
        a.highest_bid = bid_amount;
        a.status = AuctionStatus::Active;
        assert(self@.auctions =~= old_v.with_auction(auction_id, self@.auctions[i as int]).auctions);
        match previous {
            Some(p) => Ok(Some((p, previous_bid))),
            None => Ok(None),
        }
    }

    /// Ends an auction after its end time. Returns the highest bid that the caller
    /// moves from custody to the seller, or `None` when there was no bid or the
    /// auction was already closed.
    pub fn close_auction(&mut self, auction_id: u64, now: u64) -> (r: Result<
        Option<i128>,
        ContractError,
    >)
        requires
            old(self)@.wf(),
        ensures
            final(self)@.wf(),
            match old(self)@.lookup(auction_id) {
                None => r == Err::<Option<i128>, ContractError>(ContractError::AuctionNotFound)
                    && final(self)@ == old(self)@,
                Some(a) => if now < a.end_timestamp {
                    r == Err::<Option<i128>, ContractError>(ContractError::AuctionNotEnded) && final(self)@
                        == old(self)@
                } else if a.status == AuctionStatus::Closed {
                    r == Ok::<Option<i128>, ContractError>(None) && final(self)@ == old(self)@
                } else {
                    &&& final(self)@ == old(self)@.with_auction(
                        auction_id,
                        AuctionView { status: AuctionStatus::Closed, ..a },
                    )
                    &&& r == Ok::<Option<i128>, ContractError>(
                        if a.highest_bidder is Some {
                            Some(a.highest_bid)
                        } else {
                            None
                        },
                    )
                },
            },
    {
        let i = self.index_of(auction_id)?;
        let a = &self.auctions[i];
        if now < a.end_timestamp {
            return Err(ContractError::AuctionNotEnded);
        }
        if a.status == AuctionStatus::Closed {
            return Ok(None);
        }
        let payout = if a.highest_bidder.is_some() {
            Some(a.highest_bid)
        } else {
            None
        };
        let ghost old_v = self@;
        let a = &mut self.auctions[i];
        a.status = AuctionStatus::Closed;
        assert(self@.auctions =~= old_v.with_auction(auction_id, self@.auctions[i as int]).auctions);
        Ok(payout)
    }

    /// The seller withdraws an auction that has no bid yet.
    pub fn cancel_auction(&mut self, seller: &String, auction_id: u64) -> (r: Result<
        (),
        ContractError,
    >)
        requires
            old(self)@.wf(),
        ensures
            final(self)@.wf(),
            match old(self)@.lookup(auction_id) {
                None => r == Err::<(), ContractError>(ContractError::AuctionNotFound) && final(self)@
                    == old(self)@,
                Some(a) => if a.seller != seller@ {
                    r == Err::<(), ContractError>(ContractError::NotAuctionSeller) && final(self)@
                        == old(self)@
                } else if a.status == AuctionStatus::Active {
                    r == Err::<(), ContractError>(ContractError::AuctionHasBids) && final(self)@
                        == old(self)@
                } else if a.status == AuctionStatus::Closed {
                    r == Err::<(), ContractError>(ContractError::AuctionHasEnded) && final(self)@
                        == old(self)@
                } else {
                    r is Ok && final(self)@ == old(self)@.with_auction(
                        auction_id,
                        AuctionView { status: AuctionStatus::Closed, ..a },
                    )
                },
            },
    {
        let i = self.index_of(auction_id)?;
        let a = &self.auctions[i];
        if a.seller != *seller {
            return Err(ContractError::NotAuctionSeller);
        }
        if a.status == AuctionStatus::Active {
            return Err(ContractError::AuctionHasBids);
        }
        if a.status == AuctionStatus::Closed {
            return Err(ContractError::AuctionHasEnded);
        }
        let ghost old_v = self@;
        let a = &mut self.auctions[i];
        a.status = AuctionStatus::Closed;
        assert(self@.auctions =~= old_v.with_auction(auction_id, self@.auctions[i as int]).auctions);
        Ok(())
    }
}

} // verus!
