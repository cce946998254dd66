use wba_auction_house::bid::{bid, Bid};
use wba_auction_house::cancel::{cancel, Cancel};
use wba_auction_house::close::{close, Close};
use wba_auction_house::custody::{CustodyOp, TokenAccount};
use wba_auction_house::exhibit::{exhibit, Exhibit};
use wba_auction_house::key::{control_identity, Key};
use wba_auction_house::state::{Auction, AuctionError, EscrowSlot};

const PROGRAM: u8 = 1;
const EXHIBITOR: u8 = 2;
const B1: u8 = 3;
const B2: u8 = 4;
const NFT_MINT: u8 = 5;
const FT_MINT: u8 = 6;

fn key(n: u8) -> Key {
    Key { bytes: [n; 32] }
}

fn account(k: u8, mint: u8, authority: u8, amount: u64) -> TokenAccount {
    TokenAccount { key: key(k), mint: key(mint), authority: key(authority), amount, is_open: true }
}

fn pda() -> Key {
    control_identity(&key(PROGRAM)).expect("a control identity exists")
}

fn record(slot: &EscrowSlot) -> Auction {
    match slot {
        EscrowSlot::Open(a) => *a,
        other => panic!("expected an open auction, found {:?}", other),
    }
}

fn exhibit_ctx(now: i64) -> Exhibit {
    Exhibit {
        program_id: key(PROGRAM),
        exhibitor: key(EXHIBITOR),
        exhibitor_is_signer: true,
        exhibitor_nft_token_account: account(10, NFT_MINT, EXHIBITOR, 1),
        exhibitor_nft_temp_account: account(11, NFT_MINT, EXHIBITOR, 0),
        exhibitor_ft_receiving_account: account(12, FT_MINT, EXHIBITOR, 0),
        escrow_account: EscrowSlot::Unclaimed,
        now,
    }
}

fn opened(price: u64, duration: u64) -> Exhibit {
    let mut ctx = exhibit_ctx(0);
    exhibit(&mut ctx, price, duration).expect("exhibit succeeds");
    ctx
}

fn first_bid_ctx(e: &Exhibit, bidder: u8, funds: u64, now: i64) -> Bid {
    let base = 10 * bidder;
    Bid {
        program_id: key(PROGRAM),
        bidder: key(bidder),
        bidder_is_signer: true,
        bidder_ft_temp_account: account(base, FT_MINT, bidder, 0),
        bidder_ft_account: account(base + 1, FT_MINT, bidder, funds),
        highest_bidder: key(EXHIBITOR),
        highest_bidder_ft_temp_account: e.exhibitor_ft_receiving_account,
        highest_bidder_ft_returning_account: e.exhibitor_ft_receiving_account,
        escrow_account: e.escrow_account,
        now,
    }
}

fn next_bid_ctx(prev: &Bid, bidder: u8, funds: u64, now: i64) -> Bid {
    let base = 10 * bidder;
    Bid {
        program_id: key(PROGRAM),
        bidder: key(bidder),
        bidder_is_signer: true,
        bidder_ft_temp_account: account(base, FT_MINT, bidder, 0),
        bidder_ft_account: account(base + 1, FT_MINT, bidder, funds),
        highest_bidder: prev.bidder,
        highest_bidder_ft_temp_account: prev.bidder_ft_temp_account,
        highest_bidder_ft_returning_account: prev.bidder_ft_account,
        escrow_account: prev.escrow_account,
        now,
    }
}

fn close_ctx(e: &Exhibit, winner: &Bid, now: i64) -> Close {
    Close {
        program_id: key(PROGRAM),
        winning_bidder: winner.bidder,
        exhibitor: key(EXHIBITOR),
        exhibitor_nft_temp_account: e.exhibitor_nft_temp_account,
        exhibitor_ft_receiving_account: e.exhibitor_ft_receiving_account,
        highest_bidder_ft_temp_account: winner.bidder_ft_temp_account,
        highest_bidder_nft_receiving_account: account(10 * winner.bidder.bytes[0] + 2, NFT_MINT, winner.bidder.bytes[0], 0),
        escrow_account: winner.escrow_account,
        now,
    }
}

fn cancel_ctx(e: &Exhibit) -> Cancel {
    Cancel {
        program_id: key(PROGRAM),
        exhibitor: key(EXHIBITOR),
        exhibitor_is_signer: true,
        exhibitor_nft_token_account: e.exhibitor_nft_token_account,
        exhibitor_nft_temp_account: e.exhibitor_nft_temp_account,
        escrow_account: e.escrow_account,
    }
}

#[test]
fn control_identity_is_derived_and_stable() {
    let a = pda();
    let b = pda();
    assert_eq!(a.bytes, b.bytes);
    assert_ne!(a.bytes, key(PROGRAM).bytes);
    let other = control_identity(&key(9)).expect("a control identity exists");
    assert_ne!(a.bytes, other.bytes);
}

#[test]
fn key_comparison() {
    assert!(key(7).same(&key(7)));
    let mut k = key(7);
    k.bytes[31] = 8;
    assert!(!key(7).same(&k));
}

#[test]
fn scenario_open_bid_outbid_settle() {
    let e = opened(100, 3600);
    let a = record(&e.escrow_account);
    assert_eq!(a.price, 100);
    assert_eq!(a.end_at, 3600);
    assert_eq!(a.highest_bidder_pubkey.bytes, key(EXHIBITOR).bytes);
    assert_eq!(e.exhibitor_nft_token_account.amount, 0);
    assert_eq!(e.exhibitor_nft_temp_account.amount, 1);
    assert_eq!(e.exhibitor_nft_temp_account.authority.bytes, pda().bytes);

    let mut b1 = first_bid_ctx(&e, B1, 1000, 10);
    let ops = bid(&mut b1, 150).expect("first bid succeeds");
    assert_eq!(ops.len(), 2);
    let a = record(&b1.escrow_account);
    assert_eq!(a.price, 150);
    assert_eq!(a.highest_bidder_pubkey.bytes, key(B1).bytes);
    assert_eq!(b1.bidder_ft_temp_account.amount, 150);
    assert_eq!(b1.bidder_ft_account.amount, 850);
    assert_eq!(b1.highest_bidder_ft_temp_account.amount, 0);
    assert!(b1.highest_bidder_ft_temp_account.is_open);

    let mut low = next_bid_ctx(&b1, B2, 500, 20);
    let before = low;
    assert_eq!(bid(&mut low, 120).unwrap_err(), AuctionError::PriceNotIncreasing);
    assert_eq!(record(&low.escrow_account).price, 150);
    assert_eq!(low.bidder_ft_account.amount, before.bidder_ft_account.amount);

    let mut b2 = next_bid_ctx(&b1, B2, 500, 30);
    let ops = bid(&mut b2, 200).expect("second bid succeeds");
    assert_eq!(ops.len(), 4);
    assert_eq!(b2.highest_bidder_ft_returning_account.amount, 1000);
    assert!(!b2.highest_bidder_ft_temp_account.is_open);
    let a = record(&b2.escrow_account);
    assert_eq!(a.price, 200);
    assert_eq!(a.highest_bidder_pubkey.bytes, key(B2).bytes);

    let mut early = close_ctx(&e, &b2, 3599);
    assert_eq!(close(&mut early).unwrap_err(), AuctionError::InvalidState);
    assert_eq!(record(&early.escrow_account).price, 200);

    let mut c = close_ctx(&e, &b2, 3600);
    let ops = close(&mut c).expect("close succeeds at the deadline");
    assert_eq!(ops.len(), 4);
    assert_eq!(c.highest_bidder_nft_receiving_account.amount, 1);
    assert_eq!(c.exhibitor_ft_receiving_account.amount, 200);
    assert!(!c.exhibitor_nft_temp_account.is_open);
    assert!(!c.highest_bidder_ft_temp_account.is_open);
    assert!(matches!(c.escrow_account, EscrowSlot::Terminated));
}

#[test]
fn scenario_cancel_then_close_fails() {
    let e = opened(50, 100);
    assert_eq!(e.exhibitor_nft_temp_account.amount, 1);
    let mut c = cancel_ctx(&e);
    let ops = cancel(&mut c).expect("cancel succeeds");
    assert_eq!(ops.len(), 2);
    assert_eq!(c.exhibitor_nft_token_account.amount, 1);
    assert!(!c.exhibitor_nft_temp_account.is_open);
    assert!(matches!(c.escrow_account, EscrowSlot::Terminated));

    let b = first_bid_ctx(&e, B1, 1000, 0);
    let mut cl = close_ctx(&e, &b, 200);
    cl.escrow_account = c.escrow_account;
    assert_eq!(close(&mut cl).unwrap_err(), AuctionError::InvalidState);
}

#[test]
fn bid_at_deadline_is_rejected() {
    let e = opened(100, 3600);
    let mut b = first_bid_ctx(&e, B1, 1000, 3600);
    assert_eq!(bid(&mut b, 150).unwrap_err(), AuctionError::InvalidState);
    let mut b = first_bid_ctx(&e, B1, 1000, 3599);
    assert!(bid(&mut b, 150).is_ok());
}

#[test]
fn bid_equal_to_price_is_rejected() {
    let e = opened(100, 3600);
    let mut b = first_bid_ctx(&e, B1, 1000, 1);
    assert_eq!(bid(&mut b, 100).unwrap_err(), AuctionError::PriceNotIncreasing);
}

#[test]
fn cancel_after_bid_is_rejected() {
    let e = opened(100, 3600);
    let mut b = first_bid_ctx(&e, B1, 1000, 1);
    bid(&mut b, 150).expect("bid succeeds");
    let mut c = cancel_ctx(&e);
    c.escrow_account = b.escrow_account;
    assert_eq!(cancel(&mut c).unwrap_err(), AuctionError::InvalidState);
    assert_eq!(c.exhibitor_nft_temp_account.amount, 1);
}

#[test]
fn exhibitor_cannot_bid() {
    let e = opened(100, 3600);
    let mut b = first_bid_ctx(&e, B1, 1000, 1);
    bid(&mut b, 150).expect("bid succeeds");
    let mut own = next_bid_ctx(&b, EXHIBITOR, 1000, 2);
    assert_eq!(bid(&mut own, 300).unwrap_err(), AuctionError::Unauthorized);
}

#[test]
fn highest_bidder_cannot_outbid_itself() {
    let e = opened(100, 3600);
    let mut b = first_bid_ctx(&e, B1, 1000, 1);
    bid(&mut b, 150).expect("bid succeeds");
    let mut again = next_bid_ctx(&b, B1, 1000, 2);
    again.bidder_ft_temp_account = account(40, FT_MINT, B1, 0);
    again.bidder_ft_account = account(41, FT_MINT, B1, 1000);
    assert_eq!(bid(&mut again, 300).unwrap_err(), AuctionError::Unauthorized);
}

#[test]
fn bid_without_signature_is_rejected() {
    let e = opened(100, 3600);
    let mut b = first_bid_ctx(&e, B1, 1000, 1);
    b.bidder_is_signer = false;
    assert_eq!(bid(&mut b, 150).unwrap_err(), AuctionError::Unauthorized);
}

#[test]
fn bid_beyond_balance_is_rejected() {
    let e = opened(100, 3600);
    let mut b = first_bid_ctx(&e, B1, 149, 1);
    assert_eq!(bid(&mut b, 150).unwrap_err(), AuctionError::InsufficientFunds);
    assert_eq!(b.bidder_ft_account.amount, 149);
}

#[test]
fn bid_with_forged_refund_account_is_rejected() {
    let e = opened(100, 3600);
    let mut b = first_bid_ctx(&e, B1, 1000, 1);
    bid(&mut b, 150).expect("bid succeeds");
    let mut next = next_bid_ctx(&b, B2, 500, 2);
    next.highest_bidder_ft_returning_account = account(99, FT_MINT, B2, 0);
    assert_eq!(bid(&mut next, 200).unwrap_err(), AuctionError::AccountMismatch);
}

#[test]
fn bid_on_unclaimed_slot_is_rejected() {
    let e = exhibit_ctx(0);
    let mut b = first_bid_ctx(&e, B1, 1000, 1);
    assert_eq!(bid(&mut b, 150).unwrap_err(), AuctionError::InvalidState);
}

#[test]
fn close_without_bid_is_rejected() {
    let e = opened(100, 10);
    let fake = first_bid_ctx(&e, EXHIBITOR, 0, 0);
    let mut c = close_ctx(&e, &fake, 10);
    c.highest_bidder_ft_temp_account = e.exhibitor_ft_receiving_account;
    assert_eq!(close(&mut c).unwrap_err(), AuctionError::AccountMismatch);
}

#[test]
fn close_by_wrong_winner_is_rejected() {
    let e = opened(100, 3600);
    let mut b = first_bid_ctx(&e, B1, 1000, 1);
    bid(&mut b, 150).expect("bid succeeds");
    let mut c = close_ctx(&e, &b, 4000);
    c.winning_bidder = key(B2);
    assert_eq!(close(&mut c).unwrap_err(), AuctionError::AccountMismatch);
}

#[test]
fn exhibit_twice_is_rejected() {
    let e = opened(100, 3600);
    let mut again = exhibit_ctx(5);
    again.escrow_account = e.escrow_account;
    assert_eq!(exhibit(&mut again, 100, 3600).unwrap_err(), AuctionError::InvalidState);
}

#[test]
fn exhibit_needs_exactly_one_unit() {
    let mut ctx = exhibit_ctx(0);
    ctx.exhibitor_nft_token_account.amount = 2;
    assert_eq!(exhibit(&mut ctx, 100, 3600).unwrap_err(), AuctionError::InsufficientFunds);
    assert!(matches!(ctx.escrow_account, EscrowSlot::Unclaimed));
}

#[test]
fn exhibit_deadline_overflow_is_rejected() {
    let mut ctx = exhibit_ctx(1);
    assert_eq!(exhibit(&mut ctx, 100, i64::MAX as u64).unwrap_err(), AuctionError::Overflow);
    let mut ctx = exhibit_ctx(-1);
    assert!(exhibit(&mut ctx, 100, i64::MAX as u64 + 1).is_ok());
    assert_eq!(record(&ctx.escrow_account).end_at, i64::MAX);
}

#[test]
fn exhibit_with_same_account_twice_is_rejected() {
    let mut ctx = exhibit_ctx(0);
    ctx.exhibitor_nft_temp_account = account(10, NFT_MINT, EXHIBITOR, 0);
    assert_eq!(exhibit(&mut ctx, 100, 3600).unwrap_err(), AuctionError::AccountMismatch);
}

#[test]
fn exhibit_into_foreign_account_is_rejected() {
    let mut ctx = exhibit_ctx(0);
    ctx.exhibitor_nft_temp_account.authority = key(B1);
    assert_eq!(exhibit(&mut ctx, 100, 3600).unwrap_err(), AuctionError::Unauthorized);
    let mut ctx = exhibit_ctx(0);
    ctx.exhibitor_is_signer = false;
    assert_eq!(exhibit(&mut ctx, 100, 3600).unwrap_err(), AuctionError::Unauthorized);
}

#[test]
fn exhibit_calls_custody_in_order() {
    let mut ctx = exhibit_ctx(0);
    let ops = exhibit(&mut ctx, 100, 3600).expect("exhibit succeeds");
    match ops[0] {
        CustodyOp::SetAuthority { account, current_authority, new_authority } => {
            assert_eq!(account.bytes, key(11).bytes);
            assert_eq!(current_authority.bytes, key(EXHIBITOR).bytes);
            assert_eq!(new_authority.bytes, pda().bytes);
        }
        other => panic!("unexpected {:?}", other),
    }
    match ops[1] {
        CustodyOp::Transfer { from, to, amount, .. } => {
            assert_eq!(from.bytes, key(10).bytes);
            assert_eq!(to.bytes, key(11).bytes);
            assert_eq!(amount, 1);
        }
        other => panic!("unexpected {:?}", other),
    }
}

#[test]
fn cancel_by_other_party_is_rejected() {
    let e = opened(100, 3600);
    let mut c = cancel_ctx(&e);
    c.exhibitor = key(B1);
    assert_eq!(cancel(&mut c).unwrap_err(), AuctionError::Unauthorized);
    let mut c = cancel_ctx(&e);
    c.exhibitor_nft_temp_account = account(77, NFT_MINT, EXHIBITOR, 1);
    assert_eq!(cancel(&mut c).unwrap_err(), AuctionError::AccountMismatch);
}

#[test]
fn units_are_conserved_through_an_auction() {
    let e = opened(100, 3600);
    let mut b1 = first_bid_ctx(&e, B1, 1000, 10);
    bid(&mut b1, 150).expect("first bid");
    let mut b2 = next_bid_ctx(&b1, B2, 500, 30);
    let before: u64 = b2.bidder_ft_account.amount
        + b2.highest_bidder_ft_temp_account.amount
        + b2.highest_bidder_ft_returning_account.amount;
    bid(&mut b2, 200).expect("second bid");
    let after: u64 = b2.bidder_ft_account.amount
        + b2.bidder_ft_temp_account.amount
        + b2.highest_bidder_ft_temp_account.amount
        + b2.highest_bidder_ft_returning_account.amount;
    assert_eq!(before, after);
}

#[test]
fn exhibit_into_non_empty_custody_is_rejected() {
    let mut ctx = exhibit_ctx(0);
    ctx.exhibitor_nft_temp_account.amount = 1;
    assert_eq!(exhibit(&mut ctx, 100, 3600).unwrap_err(), AuctionError::AccountMismatch);
    assert_eq!(ctx.exhibitor_nft_token_account.amount, 1);
}

#[test]
fn bid_into_non_empty_custody_is_rejected() {
    let e = opened(100, 3600);
    let mut b = first_bid_ctx(&e, B1, 1000, 1);
    b.bidder_ft_temp_account.amount = 10;
    assert_eq!(bid(&mut b, 200).unwrap_err(), AuctionError::AccountMismatch);
    assert_eq!(b.bidder_ft_account.amount, 1000);
}

#[test]
fn close_with_surplus_in_custody_is_rejected() {
    let e = opened(100, 3600);
    let mut b = first_bid_ctx(&e, B1, 1000, 1);
    bid(&mut b, 200).expect("bid succeeds");
    let mut c = close_ctx(&e, &b, 3600);
    c.highest_bidder_ft_temp_account.amount = 250;
    assert_eq!(close(&mut c).unwrap_err(), AuctionError::InsufficientFunds);
    assert_eq!(c.exhibitor_ft_receiving_account.amount, 0);
}

#[test]
fn close_pays_exactly_the_price() {
    let e = opened(100, 3600);
    let mut b = first_bid_ctx(&e, B1, 1000, 1);
    bid(&mut b, 200).expect("bid succeeds");
    let mut c = close_ctx(&e, &b, 3600);
    close(&mut c).expect("close succeeds");
    assert_eq!(c.exhibitor_ft_receiving_account.amount, 200);
    assert_eq!(c.highest_bidder_ft_temp_account.amount, 0);
}

#[test]
fn close_to_a_stranger_account_is_rejected() {
    let e = opened(100, 3600);
    let mut b = first_bid_ctx(&e, B1, 1000, 1);
    bid(&mut b, 150).expect("bid succeeds");
    let mut c = close_ctx(&e, &b, 4000);
    c.highest_bidder_nft_receiving_account = account(88, NFT_MINT, B2, 0);
    assert_eq!(close(&mut c).unwrap_err(), AuctionError::Unauthorized);
    assert_eq!(c.exhibitor_nft_temp_account.amount, 1);
    assert!(matches!(c.escrow_account, EscrowSlot::Open(_)));
}
