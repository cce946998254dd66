//! Properties of the escrow that relate several operations.
use vstd::prelude::*;
use crate::bid::{bid_outcome, Bid};
use crate::cancel::{cancel_outcome, Cancel};
use crate::close::{close_accounts_distinct, close_auction_error, Close};
use crate::custody::CustodyOp;
use crate::key::Key;
use crate::state::{has_bid, Auction, AuctionError, EscrowSlot};

verus! {

/// Once a bid has been accepted, cancelling the auction fails, and when the
/// signing exhibitor asks it fails for the auction's state; any later
/// accepted bid leaves the auction with a bid, so this stays so.
pub proof fn lemma_no_cancel_after_bid(
    b: Bid,
    b_after: Bid,
    rb: Result<Vec<CustodyOp>, AuctionError>,
    pda: Key,
    price: u64,
    c: Cancel,
    c_after: Cancel,
    rc: Result<Vec<CustodyOp>, AuctionError>,
    cancel_pda: Key,
)
    requires
        bid_outcome(b, b_after, rb, pda, price),
        rb is Ok,
        c.escrow_account == b_after.escrow_account,
        cancel_outcome(c, c_after, rc, cancel_pda),
    ensures
        b_after.escrow_account matches EscrowSlot::Open(a) && has_bid(a),
        rc is Err,
        c_after == c,
        c.exhibitor_is_signer && (c.escrow_account matches EscrowSlot::Open(a) && a.exhibitor_pubkey == c.exhibitor)
            ==> rc == Err::<Vec<CustodyOp>, AuctionError>(AuctionError::InvalidState),
{
}

/// Of two bids accepted one after the other on an auction, the second is
/// strictly higher.
pub proof fn lemma_accepted_bids_increase(
    first: Bid,
    first_after: Bid,
    r1: Result<Vec<CustodyOp>, AuctionError>,
    pda1: Key,
    p1: u64,
    second: Bid,
    second_after: Bid,
    r2: Result<Vec<CustodyOp>, AuctionError>,
    pda2: Key,
    p2: u64,
)
    requires
        bid_outcome(first, first_after, r1, pda1, p1),
        r1 is Ok,
        second.escrow_account == first_after.escrow_account,
        bid_outcome(second, second_after, r2, pda2, p2),
        r2 is Ok,
    ensures
        p1 < p2,
        second_after.escrow_account matches EscrowSlot::Open(a) && a.price == p2,
{
}

/// An accepted bid was made on an open auction below the bid, and leaves the
/// auction open at exactly the bid.
proof fn accepted_bid_step(c: Bid, after: Bid, r: Result<Vec<CustodyOp>, AuctionError>, pda: Key, price: u64)
    requires
        bid_outcome(c, after, r, pda, price),
        r is Ok,
    ensures
        c.escrow_account matches EscrowSlot::Open(a) && a.price < price,
        after.escrow_account matches EscrowSlot::Open(b) && b.price == price,
{
}

/// Along any run of accepted bids on one auction, each made on the auction
/// as the previous one left it (a rejected bid changes nothing, so rejected
/// attempts may fall between them), the prices rise strictly from the
/// starting price, and the auction stands at the last one.
pub proof fn lemma_bid_run_increases(
    bids: Seq<Bid>,
    afters: Seq<Bid>,
    results: Seq<Result<Vec<CustodyOp>, AuctionError>>,
    pdas: Seq<Key>,
    prices: Seq<u64>,
    start: Auction,
)
    requires
        bids.len() >= 1,
        afters.len() == bids.len(),
        results.len() == bids.len(),
        pdas.len() == bids.len(),
        prices.len() == bids.len(),
        bids[0].escrow_account == EscrowSlot::Open(start),
        forall|i: int| 0 <= i < bids.len() ==> #[trigger] bid_outcome(bids[i], afters[i], results[i], pdas[i], prices[i]),
        forall|i: int| 0 <= i < bids.len() ==> #[trigger] results[i] is Ok,
        forall|i: int| 0 < i < bids.len() ==> #[trigger] bids[i].escrow_account == afters[i - 1].escrow_account,
    ensures
        start.price < prices[0],
        forall|i: int| 0 < i < prices.len() ==> prices[i - 1] < #[trigger] prices[i],
        afters.last().escrow_account matches EscrowSlot::Open(a) && a.price == prices.last(),
{
    accepted_bid_step(bids[0], afters[0], results[0], pdas[0], prices[0]);
    assert forall|i: int| 0 < i < prices.len() implies prices[i - 1] < #[trigger] prices[i] by {
        assert(results[i - 1] is Ok);
        assert(results[i] is Ok);
        accepted_bid_step(bids[i - 1], afters[i - 1], results[i - 1], pdas[i - 1], prices[i - 1]);
        accepted_bid_step(bids[i], afters[i], results[i], pdas[i], prices[i]);
    }
    let n = bids.len() - 1;
    assert(results[n] is Ok);
    accepted_bid_step(bids[n], afters[n], results[n], pdas[n], prices[n]);
}

/// Reaching the deadline is enough to settle: when every account matches the
/// record, the asset goes to an account of the winner, the escrow holds the
/// asset and exactly the recorded price, and the ledger can make both
/// transfers, a close at the moment `now == end_at` is accepted.
pub proof fn lemma_close_at_deadline(c: Close, a: Auction, pda: Key)
    requires
        c.escrow_account == EscrowSlot::Open(a),
        c.now == a.end_at,
        a.exhibitor_pubkey == c.exhibitor,
        a.exhibiting_nft_temp_pubkey == c.exhibitor_nft_temp_account.key,
        a.exhibitor_ft_receiving_pubkey == c.exhibitor_ft_receiving_account.key,
        a.highest_bidder_pubkey == c.winning_bidder,
        a.highest_bidder_ft_temp_pubkey == c.highest_bidder_ft_temp_account.key,
        c.highest_bidder_nft_receiving_account.authority == a.highest_bidder_pubkey,
        close_accounts_distinct(c),
        c.exhibitor_nft_temp_account.is_open,
        c.exhibitor_ft_receiving_account.is_open,
        c.highest_bidder_ft_temp_account.is_open,
        c.highest_bidder_nft_receiving_account.is_open,
        c.exhibitor_nft_temp_account.mint == c.highest_bidder_nft_receiving_account.mint,
        c.highest_bidder_ft_temp_account.mint == c.exhibitor_ft_receiving_account.mint,
        c.exhibitor_nft_temp_account.authority == pda,
        c.highest_bidder_ft_temp_account.authority == pda,
        c.highest_bidder_ft_temp_account.amount == a.price,
        c.highest_bidder_nft_receiving_account.amount + c.exhibitor_nft_temp_account.amount <= u64::MAX,
        c.exhibitor_ft_receiving_account.amount + a.price <= u64::MAX,
    ensures
        close_auction_error(c, pda) is None,
{
}

} // verus!
