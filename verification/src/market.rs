//! The sealed-bid auction registry: auction records and per-auction bid
//! sequences.
//!
//! Each auction walks a one-way state machine, `Open` to `Closed`, and its
//! bid sequence is append-only with strictly increasing amounts. The registry
//! state is a value of [`AuctionMarket`]; the host keeps it in its durable
//! store and replays every public operation against it. Unlike the consent
//! registry, reads here return an optional result rather than a sentinel
//! record, and no operation authenticates the bidder or seller argument
//! against the invoking principal — only closing checks that the caller
//! matches the stored seller.

use std::collections::HashMap;
use vstd::prelude::*;

use crate::Address;

verus! {

broadcast use vstd::std_specs::hash::group_hash_axioms;

/// A failed precondition of an auction operation. A failure aborts the call;
/// no partial state change is ever observable.
#[derive(Clone, Copy, Debug, PartialEq, Eq, Structural)]
pub enum MarketError {
    /// An auction must ask for a minimum bid above zero.
    InvalidMinBid,
    /// An auction already exists under the chosen id.
    DuplicateId,
    /// No auction exists under the given id.
    NotFound,
    /// The auction no longer accepts bids.
    Closed,
    /// The bid is below the minimum, or does not strictly exceed the current
    /// highest bid.
    BidTooLow,
    /// The caller is not the auction's seller.
    Unauthorized,
    /// The auction was already closed; the transition never reverses.
    AlreadyClosed,
}

/// Lifecycle status of an auction: `Open` to `Closed`, one way.
#[derive(Clone, Copy, Debug, PartialEq, Eq, Structural)]
pub enum AuctionStatus {
    Open,
    Closed,
}

/// One auction record. `highest_bid` is 0 and `highest_bidder` absent until
/// the first bid is accepted.
#[derive(Clone, Copy, Debug, PartialEq, Eq)]
pub struct Auction {
    pub seller: Address,
    pub status: AuctionStatus,
    pub min_bid: u64,
    pub highest_bid: u64,
    pub highest_bidder: Option<Address>,
}

/// One accepted bid.
#[derive(Clone, Copy, Debug, PartialEq, Eq, Structural)]
pub struct Bid {
    pub bidder: Address,
    pub amount: u64,
}

/// Mathematical value of the whole registry: the auction records and, under
/// the same ids, their bid sequences in insertion order.
#[verifier::ext_equal]
pub struct MarketV {
    pub auctions: Map<u64, Auction>,
    pub bids: Map<u64, Seq<Bid>>,
}

/// The empty registry.
pub open spec fn empty_market() -> MarketV {
    MarketV { auctions: Map::empty(), bids: Map::empty() }
}

/// Well-formedness of one auction record against its bid sequence.
pub open spec fn auction_entry_wf(a: Auction, bs: Seq<Bid>) -> bool {
    &&& 1 <= a.min_bid
    &&& forall|i: int, j: int|
        #![trigger bs[i], bs[j]]
        0 <= i < j < bs.len() ==> bs[i].amount < bs[j].amount
    &&& forall|i: int| 0 <= i < bs.len() ==> a.min_bid <= (#[trigger] bs[i]).amount
    &&& if bs.len() == 0 {
        a.highest_bid == 0 && a.highest_bidder is None
    } else {
        a.highest_bid == bs.last().amount && a.highest_bidder == Some(bs.last().bidder)
    }
}

/// Well-formedness of the registry state. Every operation preserves it: both
/// maps share their ids, and each record agrees with its bid sequence.
pub open spec fn market_wf(s: MarketV) -> bool {
    &&& forall|id: u64|
        #![trigger s.auctions.contains_key(id)]
        #![trigger s.bids.contains_key(id)]
        s.auctions.contains_key(id) <==> s.bids.contains_key(id)
    &&& forall|id: u64| #[trigger]
        s.auctions.contains_key(id) ==> auction_entry_wf(s.auctions[id], s.bids[id])
}

/// The transition made by [`AuctionMarket::open_auction`].
///
/// The minimum bid must be above zero (`InvalidMinBid`) and the id free
/// (`DuplicateId` — a real existence check, not a sentinel read). On success
/// a fresh `Open` record with no bids is stored under the caller-supplied id.
pub open spec fn spec_open_auction(
    s: MarketV,
    auction_id: u64,
    seller: Address,
    min_bid: u64,
) -> (MarketV, Result<(), MarketError>) {
    if min_bid == 0 {
        (s, Err(MarketError::InvalidMinBid))
    } else if s.auctions.contains_key(auction_id) {
        (s, Err(MarketError::DuplicateId))
    } else {
        let a = Auction {
            seller,
            status: AuctionStatus::Open,
            min_bid,
            highest_bid: 0,
            highest_bidder: None,
        };
        let s2 = MarketV {
            auctions: s.auctions.insert(auction_id, a),
            bids: s.bids.insert(auction_id, Seq::empty()),
        };
        (s2, Ok(()))
    }
}

/// The transition made by [`AuctionMarket::place_bid`].
///
/// The auction must exist (`NotFound`) and be `Open` (`Closed`), and the
/// amount must reach the minimum bid and strictly exceed the current highest
/// bid (`BidTooLow`): matching the minimum on a fresh auction is accepted,
/// matching the current highest is not. A zero amount is always below the
/// minimum. On success the bid is appended — bids are never removed or
/// reordered — and the record's highest bid and bidder follow it.
pub open spec fn spec_place_bid(s: MarketV, auction_id: u64, bidder: Address, amount: u64) -> (
    MarketV,
    Result<(), MarketError>,
) {
    if !s.auctions.contains_key(auction_id) {
        (s, Err(MarketError::NotFound))
    } else {
        let a = s.auctions[auction_id];
        if a.status != AuctionStatus::Open {
            (s, Err(MarketError::Closed))
        } else if amount < a.min_bid || amount <= a.highest_bid {
            (s, Err(MarketError::BidTooLow))
        } else {
            let a2 = Auction {
                seller: a.seller,
                status: a.status,
                min_bid: a.min_bid,
                highest_bid: amount,
                highest_bidder: Some(bidder),
            };
            let s2 = MarketV {
                auctions: s.auctions.insert(auction_id, a2),
                bids: s.bids.insert(auction_id, s.bids[auction_id].push(Bid { bidder, amount })),
            };
            (s2, Ok(()))
        }
    }
}

/// The transition made by [`AuctionMarket::close_auction`].
///
/// The auction must exist (`NotFound`), the caller must be its seller
/// (`Unauthorized`), and it must still be `Open` (`AlreadyClosed`). On
/// success the status becomes `Closed` — terminal — and the result carries
/// the winning bidder and amount, or `None` if no bid was ever accepted.
pub open spec fn spec_close_auction(s: MarketV, auction_id: u64, caller: Address) -> (
    MarketV,
    Result<Option<(Address, u64)>, MarketError>,
) {
    if !s.auctions.contains_key(auction_id) {
        (s, Err(MarketError::NotFound))
    } else {
        let a = s.auctions[auction_id];
        if caller != a.seller {
            (s, Err(MarketError::Unauthorized))
        } else if a.status != AuctionStatus::Open {
            (s, Err(MarketError::AlreadyClosed))
        } else {
            let a2 = Auction {
                seller: a.seller,
                status: AuctionStatus::Closed,
                min_bid: a.min_bid,
                highest_bid: a.highest_bid,
                highest_bidder: a.highest_bidder,
            };
            let winner = match a.highest_bidder {
                Some(b) => if a.highest_bid > 0 {
                    Some((b, a.highest_bid))
                } else {
                    None
                },
                None => None,
            };
            let s2 = MarketV { auctions: s.auctions.insert(auction_id, a2), bids: s.bids };
            (s2, Ok(winner))
        }
    }
}

/// What an auction lookup returns: the record, or `None` for an id that was
/// never opened.
pub open spec fn spec_get_auction(s: MarketV, auction_id: u64) -> Option<Auction> {
    if s.auctions.contains_key(auction_id) {
        Some(s.auctions[auction_id])
    } else {
        None
    }
}

/// What a bid-list lookup returns: the bids in insertion order, or `None`
/// for an id that was never opened.
pub open spec fn spec_get_bids(s: MarketV, auction_id: u64) -> Option<Seq<Bid>> {
    if s.bids.contains_key(auction_id) {
        Some(s.bids[auction_id])
    } else {
        None
    }
}

/// The auction registry. The host owns one value of this type and applies
/// every public operation to it in series.
pub struct AuctionMarket {
    auctions: HashMap<u64, Auction>,
    bids: HashMap<u64, Vec<Bid>>,
}

impl View for AuctionMarket {
    type V = MarketV;

    closed spec fn view(&self) -> MarketV {
        MarketV {
            auctions: self.auctions@,
            bids: self.bids@.map_values(|v: Vec<Bid>| v@),
        }
    }
}

impl AuctionMarket {
    /// Well-formedness of this registry value; see [`market_wf`].
    pub open spec fn wf(&self) -> bool {
        market_wf(self@)
    }

    /// Creates an empty registry.
    pub fn new() -> (r: Self)
        ensures
            r.wf(),
            r@ == empty_market(),
    {
        let r = AuctionMarket { auctions: HashMap::new(), bids: HashMap::new() };
        proof {
            assert(r@ =~~= empty_market());
        }
        r
    }

    /// Opens a new auction under the caller-supplied id. No authentication
    /// is enforced on the seller address here; only closing checks it.
    pub fn open_auction(&mut self, auction_id: u64, seller: Address, min_bid: u64) -> (r: Result<
        (),
        MarketError,
    >)
        requires
            old(self).wf(),
        ensures
            final(self).wf(),
            (final(self)@, r) == spec_open_auction(old(self)@, auction_id, seller, min_bid),
    {
        if min_bid == 0 {
            return Err(MarketError::InvalidMinBid);
        }
        if self.auctions.contains_key(&auction_id) {
            return Err(MarketError::DuplicateId);
        }
        self.auctions.insert(
            auction_id,
            Auction {
                seller,
                status: AuctionStatus::Open,
                min_bid,
                highest_bid: 0,
                highest_bidder: None,
            },
        );
        self.bids.insert(auction_id, Vec::new());
        proof {
            let (s2, res) = spec_open_auction(old(self)@, auction_id, seller, min_bid);
            assert(self@.bids =~= s2.bids);
            assert(self@ =~~= s2);
        }
        Ok(())
    }

    /// Places a bid. The amount must reach the minimum bid and strictly
    /// exceed the current highest bid. No authentication is enforced on the
    /// bidder address.
    pub fn place_bid(&mut self, auction_id: u64, bidder: Address, amount: u64) -> (r: Result<
        (),
        MarketError,
    >)
        requires
            old(self).wf(),
        ensures
            final(self).wf(),
            (final(self)@, r) == spec_place_bid(old(self)@, auction_id, bidder, amount),
    {
        let a = match self.auctions.get(&auction_id) {
            Some(a) => *a,
            None => {
                return Err(MarketError::NotFound);
            },
        };
        if a.status != AuctionStatus::Open {
            return Err(MarketError::Closed);
        }
        if amount < a.min_bid || amount <= a.highest_bid {
            return Err(MarketError::BidTooLow);
        }
        let mut bs = match self.bids.remove(&auction_id) {
            Some(b) => b,
            None => Vec::new(),
        };
        bs.push(Bid { bidder, amount });
        self.bids.insert(auction_id, bs);
        self.auctions.insert(
            auction_id,
            Auction {
                seller: a.seller,
                status: a.status,
                min_bid: a.min_bid,
                highest_bid: amount,
                highest_bidder: Some(bidder),
            },
        );
        proof {
            let (s2, res) = spec_place_bid(old(self)@, auction_id, bidder, amount);
            assert(self@.bids =~= s2.bids);
            assert(self@ =~~= s2);
            let old_bs = old(self)@.bids[auction_id];
            assert forall|i: int| 0 <= i < old_bs.len() implies old_bs[i].amount < amount by {
                if i < old_bs.len() - 1 {
                    assert(old_bs[i].amount < old_bs[old_bs.len() - 1].amount);
                }
            }
        }
        Ok(())
    }

    /// Closes an auction on behalf of `caller`, which must be its seller.
    /// Returns the winning bidder and amount, or `None` if no bid was ever
    /// accepted. Closing is terminal: the auction never reopens.
    pub fn close_auction(&mut self, auction_id: u64, caller: Address) -> (r: Result<
        Option<(Address, u64)>,
        MarketError,
    >)
        requires
            old(self).wf(),
        ensures
            final(self).wf(),
            (final(self)@, r) == spec_close_auction(old(self)@, auction_id, caller),
    {
        let a = match self.auctions.get(&auction_id) {
            Some(a) => *a,
            None => {
                return Err(MarketError::NotFound);
            },
        };
        if caller != a.seller {
            return Err(MarketError::Unauthorized);
        }
        if a.status != AuctionStatus::Open {
            return Err(MarketError::AlreadyClosed);
        }
        self.auctions.insert(
            auction_id,
            Auction {
                seller: a.seller,
                status: AuctionStatus::Closed,
                min_bid: a.min_bid,
                highest_bid: a.highest_bid,
                highest_bidder: a.highest_bidder,
            },
        );
        proof {
            let (s2, res) = spec_close_auction(old(self)@, auction_id, caller);
            assert(self@.bids =~= s2.bids);
            assert(self@ =~~= s2);
        }
        match a.highest_bidder {
            Some(b) => if a.highest_bid > 0 {
                Ok(Some((b, a.highest_bid)))
            } else {
                Ok(None)
            },
            None => Ok(None),
        }
    }

    /// Looks an auction up by id.
    pub fn get_auction(&self, auction_id: u64) -> (r: Option<Auction>)
        ensures
            r == spec_get_auction(self@, auction_id),
    {
        match self.auctions.get(&auction_id) {
            Some(a) => Some(*a),
            None => None,
        }
    }

    /// Looks an auction's bid list up by id, in insertion order.
    pub fn get_bids(&self, auction_id: u64) -> (r: Option<Vec<Bid>>)
        ensures
            match r {
                Some(v) => spec_get_bids(self@, auction_id) == Some(v@),
                None => spec_get_bids(self@, auction_id) is None,
            },
    {
        match self.bids.get(&auction_id) {
            Some(v) => {
                let mut out: Vec<Bid> = Vec::new();
                let mut i: usize = 0;
                while i < v.len()
                    invariant
                        i <= v@.len(),
                        out@ == v@.subrange(0, i as int),
                    decreases v@.len() - i,
                {
                    out.push(v[i]);
                    proof {
                        assert(out@ =~= v@.subrange(0, i + 1));
                    }
                    i = i + 1;
                }
                proof {
                    assert(out@ =~= v@);
                }
                Some(out)
            },
            None => None,
        }
    }
}

/// Law: in every well-formed state, an auction's `highest_bid` equals the
/// maximum amount among all its accepted bids and `highest_bidder` names the
/// bidder who placed it; with no bids, the highest bid is 0 and there is no
/// bidder.
pub proof fn lemma_highest_bid_is_max(s: MarketV, auction_id: u64)
    requires
        market_wf(s),
        s.auctions.contains_key(auction_id),
    ensures
        ({
            let a = s.auctions[auction_id];
            let bs = s.bids[auction_id];
            &&& forall|i: int| 0 <= i < bs.len() ==> (#[trigger] bs[i]).amount <= a.highest_bid
            &&& bs.len() > 0 ==> exists|i: int|
                0 <= i < bs.len() && (#[trigger] bs[i]).amount == a.highest_bid
                    && a.highest_bidder == Some(bs[i].bidder)
            &&& bs.len() == 0 ==> a.highest_bid == 0 && a.highest_bidder is None
        }),
{
    let a = s.auctions[auction_id];
    let bs = s.bids[auction_id];
    if bs.len() > 0 {
        assert(bs[bs.len() - 1].amount == a.highest_bid);
        assert forall|i: int| 0 <= i < bs.len() implies (#[trigger] bs[i]).amount
            <= a.highest_bid by {
            if i < bs.len() - 1 {
                assert(bs[i].amount < bs[bs.len() - 1].amount);
            }
        }
    }
}

/// Law: an auction can be closed exactly once — after a successful close, a
/// second close by the same caller fails with `AlreadyClosed` and changes
/// nothing (the status transition never reverses) — and closing an auction
/// whose bid list is empty returns `None`.
pub proof fn lemma_close_auction_once(s: MarketV, auction_id: u64, caller: Address)
    requires
        market_wf(s),
        spec_close_auction(s, auction_id, caller).1 is Ok,
    ensures
        ({
            let s1 = spec_close_auction(s, auction_id, caller).0;
            &&& spec_close_auction(s1, auction_id, caller).1 == Err::<
                Option<(Address, u64)>,
                MarketError,
            >(MarketError::AlreadyClosed)
            &&& spec_close_auction(s1, auction_id, caller).0 == s1
            &&& s.bids[auction_id].len() == 0 ==> spec_close_auction(s, auction_id, caller).1
                == Ok::<Option<(Address, u64)>, MarketError>(None)
        }),
{
}

} // verus!
