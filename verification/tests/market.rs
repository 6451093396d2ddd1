use ledger_registry::market::{AuctionMarket, AuctionStatus, MarketError};

const SELLER: u64 = 10;
const ANNA: u64 = 20;
const BEN: u64 = 30;
const STRANGER: u64 = 99;

#[test]
fn open_auction_stores_a_fresh_open_record() {
    let mut m = AuctionMarket::new();
    assert_eq!(m.open_auction(1, SELLER, 100), Ok(()));
    let a = m.get_auction(1).unwrap();
    assert_eq!(a.seller, SELLER);
    assert_eq!(a.status, AuctionStatus::Open);
    assert_eq!(a.min_bid, 100);
    assert_eq!(a.highest_bid, 0);
    assert_eq!(a.highest_bidder, None);
    assert_eq!(m.get_bids(1).unwrap().len(), 0);
}

#[test]
fn open_auction_rejects_zero_min_bid() {
    let mut m = AuctionMarket::new();
    assert_eq!(m.open_auction(1, SELLER, 0), Err(MarketError::InvalidMinBid));
    assert!(m.get_auction(1).is_none());
}

#[test]
fn open_auction_rejects_duplicate_id() {
    let mut m = AuctionMarket::new();
    m.open_auction(1, SELLER, 100).unwrap();
    assert_eq!(m.open_auction(1, STRANGER, 500), Err(MarketError::DuplicateId));
    // The stored record is untouched.
    assert_eq!(m.get_auction(1).unwrap().seller, SELLER);
}

#[test]
fn place_bid_requires_an_open_auction() {
    let mut m = AuctionMarket::new();
    assert_eq!(m.place_bid(1, ANNA, 100), Err(MarketError::NotFound));
    m.open_auction(1, SELLER, 100).unwrap();
    m.place_bid(1, ANNA, 100).unwrap();
    m.close_auction(1, SELLER).unwrap();
    assert_eq!(m.place_bid(1, BEN, 200), Err(MarketError::Closed));
}

#[test]
fn place_bid_boundaries() {
    let mut m = AuctionMarket::new();
    m.open_auction(1, SELLER, 100).unwrap();
    // Below the minimum: rejected; equal to the minimum with no bids: accepted.
    assert_eq!(m.place_bid(1, ANNA, 99), Err(MarketError::BidTooLow));
    assert_eq!(m.place_bid(1, ANNA, 100), Ok(()));
    // Equal to the current highest: rejected; strictly above: accepted.
    assert_eq!(m.place_bid(1, BEN, 100), Err(MarketError::BidTooLow));
    assert_eq!(m.place_bid(1, BEN, 101), Ok(()));
    // A zero amount is always below the minimum.
    assert_eq!(m.place_bid(1, BEN, 0), Err(MarketError::BidTooLow));
}

#[test]
fn highest_bid_tracks_the_maximum_and_its_bidder() {
    let mut m = AuctionMarket::new();
    m.open_auction(1, SELLER, 100).unwrap();
    m.place_bid(1, ANNA, 100).unwrap();
    m.place_bid(1, BEN, 150).unwrap();
    m.place_bid(1, ANNA, 200).unwrap();
    let a = m.get_auction(1).unwrap();
    assert_eq!(a.highest_bid, 200);
    assert_eq!(a.highest_bidder, Some(ANNA));
    // Bids are kept in insertion order, never removed or reordered.
    let bids = m.get_bids(1).unwrap();
    let amounts: Vec<u64> = bids.iter().map(|b| b.amount).collect();
    let bidders: Vec<u64> = bids.iter().map(|b| b.bidder).collect();
    assert_eq!(amounts, vec![100, 150, 200]);
    assert_eq!(bidders, vec![ANNA, BEN, ANNA]);
}

#[test]
fn close_auction_returns_winner_and_is_terminal() {
    let mut m = AuctionMarket::new();
    m.open_auction(1, SELLER, 100).unwrap();
    m.place_bid(1, ANNA, 100).unwrap();
    assert_eq!(m.place_bid(1, BEN, 100), Err(MarketError::BidTooLow));
    m.place_bid(1, BEN, 150).unwrap();
    assert_eq!(m.close_auction(1, STRANGER), Err(MarketError::Unauthorized));
    assert_eq!(m.close_auction(1, SELLER), Ok(Some((BEN, 150))));
    assert_eq!(m.get_auction(1).unwrap().status, AuctionStatus::Closed);
    assert_eq!(m.close_auction(1, SELLER), Err(MarketError::AlreadyClosed));
}

#[test]
fn close_auction_with_zero_bids_returns_none() {
    let mut m = AuctionMarket::new();
    m.open_auction(1, SELLER, 100).unwrap();
    assert_eq!(m.close_auction(1, SELLER), Ok(None));
    assert_eq!(m.close_auction(1, SELLER), Err(MarketError::AlreadyClosed));
}

#[test]
fn close_auction_requires_an_existing_auction() {
    let mut m = AuctionMarket::new();
    assert_eq!(m.close_auction(7, SELLER), Err(MarketError::NotFound));
}

#[test]
fn reads_return_none_for_unknown_ids() {
    let m = AuctionMarket::new();
    assert!(m.get_auction(5).is_none());
    assert!(m.get_bids(5).is_none());
}

#[test]
fn auctions_are_independent() {
    let mut m = AuctionMarket::new();
    m.open_auction(1, SELLER, 100).unwrap();
    m.open_auction(2, STRANGER, 1).unwrap();
    m.place_bid(1, ANNA, 120).unwrap();
    m.place_bid(2, BEN, 1).unwrap();
    assert_eq!(m.get_auction(1).unwrap().highest_bid, 120);
    assert_eq!(m.get_auction(2).unwrap().highest_bid, 1);
    assert_eq!(m.close_auction(2, STRANGER), Ok(Some((BEN, 1))));
    assert_eq!(m.get_auction(1).unwrap().status, AuctionStatus::Open);
}
