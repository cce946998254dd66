//! Placing a bid: the displaced bid is refunded and the new one escrowed.
use vstd::prelude::*;
use crate::custody::{
    check_close, check_set_authority, check_transfer, close_account, closed, close_error, credited,
    debited, held, set_authority, set_authority_error, transfer, transfer_error, with_authority,
    CustodyOp, TokenAccount,
};
use crate::key::{control_identity, control_identity_of, Key};
use crate::state::{has_bid, Auction, AuctionError, EscrowSlot};

verus! {

/// The accounts and clock reading a bid operates on.
#[derive(Clone, Copy, Debug)]
pub struct Bid {
    pub program_id: Key,
    pub bidder: Key,
    pub bidder_is_signer: bool,
    /// Receives the bid and passes into escrow custody.
    pub bidder_ft_temp_account: TokenAccount,
    /// Pays the bid; the bid is refunded here if it is outbid.
    pub bidder_ft_account: TokenAccount,
    pub highest_bidder: Key,
    pub highest_bidder_ft_temp_account: TokenAccount,
    pub highest_bidder_ft_returning_account: TokenAccount,
    pub escrow_account: EscrowSlot,
    pub now: i64,
}

/// Whether the four token accounts of a bid are pairwise distinct.
pub open spec fn bid_accounts_distinct(c: Bid) -> bool {
    let k1 = c.bidder_ft_temp_account.key;
    let k2 = c.bidder_ft_account.key;
    let k3 = c.highest_bidder_ft_temp_account.key;
    let k4 = c.highest_bidder_ft_returning_account.key;
    k1 != k2 && k1 != k3 && k1 != k4 && k2 != k3 && k2 != k4 && k3 != k4
}

/// Why a bid of `price` on the open auction `a` is rejected, if it is, with
/// `pda` as the escrow's control identity.
pub open spec fn open_bid_error(c: Bid, a: Auction, pda: Key, price: u64) -> Option<AuctionError> {
    if a.highest_bidder_pubkey != c.highest_bidder
        || a.highest_bidder_ft_temp_pubkey != c.highest_bidder_ft_temp_account.key
        || a.highest_bidder_ft_returning_pubkey != c.highest_bidder_ft_returning_account.key {
        Some(AuctionError::AccountMismatch)
    } else if price <= a.price {
        Some(AuctionError::PriceNotIncreasing)
    } else if c.now >= a.end_at {
        Some(AuctionError::InvalidState)
    } else if c.bidder == c.highest_bidder || c.bidder == a.exhibitor_pubkey {
        Some(AuctionError::Unauthorized)
    } else if c.bidder_ft_temp_account.key == c.bidder_ft_account.key
        || (has_bid(a) && !bid_accounts_distinct(c)) || c.bidder_ft_temp_account.amount != 0 {
        Some(AuctionError::AccountMismatch)
    } else if has_bid(a) && transfer_error(
        c.highest_bidder_ft_temp_account,
        c.highest_bidder_ft_returning_account,
        pda,
        a.price,
    ) is Some {
        transfer_error(c.highest_bidder_ft_temp_account, c.highest_bidder_ft_returning_account, pda, a.price)
    } else if has_bid(a) && close_error(debited(c.highest_bidder_ft_temp_account, a.price), pda) is Some {
        close_error(debited(c.highest_bidder_ft_temp_account, a.price), pda)
    } else if set_authority_error(c.bidder_ft_temp_account, c.bidder) is Some {
        set_authority_error(c.bidder_ft_temp_account, c.bidder)
    } else {
        transfer_error(c.bidder_ft_account, with_authority(c.bidder_ft_temp_account, pda), c.bidder, price)
    }
}

/// Why a bid is rejected, if it is.
pub open spec fn bid_error(c: Bid, pda: Key, price: u64) -> Option<AuctionError> {
    if !c.bidder_is_signer {
        Some(AuctionError::Unauthorized)
    } else {
        match c.escrow_account {
            EscrowSlot::Open(a) => open_bid_error(c, a, pda, price),
            _ => Some(AuctionError::InvalidState),
        }
    }
}

/// The accounts after an accepted bid of `price` on the open auction `a`.
pub open spec fn open_bid_effect(c: Bid, a: Auction, pda: Key, price: u64) -> Bid {
    let hbt = c.highest_bidder_ft_temp_account;
    let hbr = c.highest_bidder_ft_returning_account;
    Bid {
        bidder_ft_temp_account: credited(with_authority(c.bidder_ft_temp_account, pda), price),
        bidder_ft_account: debited(c.bidder_ft_account, price),
        highest_bidder_ft_temp_account: if has_bid(a) { closed(debited(hbt, a.price)) } else { hbt },
        highest_bidder_ft_returning_account: if has_bid(a) { credited(hbr, a.price) } else { hbr },
        escrow_account: EscrowSlot::Open(
            Auction {
                price,
                highest_bidder_pubkey: c.bidder,
                highest_bidder_ft_temp_pubkey: c.bidder_ft_temp_account.key,
                highest_bidder_ft_returning_pubkey: c.bidder_ft_account.key,
                ..a
            },
        ),
        ..c
    }
}

/// The custody calls of an accepted bid of `price` on the open auction `a`,
/// in order.
pub open spec fn open_bid_ops(c: Bid, a: Auction, pda: Key, price: u64) -> Seq<CustodyOp> {
    let refund = if has_bid(a) {
        seq![
            CustodyOp::Transfer {
                from: c.highest_bidder_ft_temp_account.key,
                to: c.highest_bidder_ft_returning_account.key,
                authority: pda,
                amount: a.price,
            },
            CustodyOp::CloseAccount {
                account: c.highest_bidder_ft_temp_account.key,
                destination: c.highest_bidder,
                authority: pda,
            },
        ]
    } else {
        seq![]
    };
    refund + seq![
        CustodyOp::SetAuthority {
            account: c.bidder_ft_temp_account.key,
            current_authority: c.bidder,
            new_authority: pda,
        },
        CustodyOp::Transfer {
            from: c.bidder_ft_account.key,
            to: c.bidder_ft_temp_account.key,
            authority: c.bidder,
            amount: price,
        },
    ]
}

/// What a bid returns and leaves behind, with `pda` as the control identity.
pub open spec fn bid_outcome(c: Bid, after: Bid, r: Result<Vec<CustodyOp>, AuctionError>, pda: Key, price: u64) -> bool {
    match bid_error(c, pda, price) {
        Some(e) => r == Err::<Vec<CustodyOp>, AuctionError>(e) && after == c,
        None => match c.escrow_account {
            EscrowSlot::Open(a) => r matches Ok(ops) && ops@ == open_bid_ops(c, a, pda, price)
                && after == open_bid_effect(c, a, pda, price),
            _ => false,
        },
    }
}

/// Units of `mint` across the token accounts of a bid.
pub open spec fn bid_units(c: Bid, mint: Key) -> int {
    held(c.bidder_ft_temp_account, mint) + held(c.bidder_ft_account, mint)
        + held(c.highest_bidder_ft_temp_account, mint) + held(c.highest_bidder_ft_returning_account, mint)
}

/// Places a bid of `price`, with `pda` as the escrow's control identity.
pub fn bid_with_authority(ctx: &mut Bid, pda: &Key, price: u64) -> (r: Result<Vec<CustodyOp>, AuctionError>)
    ensures
        bid_outcome(*old(ctx), *final(ctx), r, *pda, price),
{
    if !ctx.bidder_is_signer {
        return Err(AuctionError::Unauthorized);
    }
    let a = match ctx.escrow_account {
        EscrowSlot::Open(a) => a,
        _ => return Err(AuctionError::InvalidState),
    };
    if !a.highest_bidder_pubkey.same(&ctx.highest_bidder)
        || !a.highest_bidder_ft_temp_pubkey.same(&ctx.highest_bidder_ft_temp_account.key)
        || !a.highest_bidder_ft_returning_pubkey.same(&ctx.highest_bidder_ft_returning_account.key) {
        return Err(AuctionError::AccountMismatch);
    }
    if price <= a.price {
        return Err(AuctionError::PriceNotIncreasing);
    }
    if ctx.now >= a.end_at {
        return Err(AuctionError::InvalidState);
    }
    if ctx.bidder.same(&ctx.highest_bidder) || ctx.bidder.same(&a.exhibitor_pubkey) {
        return Err(AuctionError::Unauthorized);
    }
    let k1 = ctx.bidder_ft_temp_account.key;
    let k2 = ctx.bidder_ft_account.key;
    let k3 = ctx.highest_bidder_ft_temp_account.key;
    let k4 = ctx.highest_bidder_ft_returning_account.key;
    let prior = !a.highest_bidder_pubkey.same(&a.exhibitor_pubkey);
    if k1.same(&k2) || (prior && (k1.same(&k3) || k1.same(&k4) || k2.same(&k3) || k2.same(&k4) || k3.same(&k4)))
        || ctx.bidder_ft_temp_account.amount != 0 {
        return Err(AuctionError::AccountMismatch);
    }
    if prior {
        let hbt = ctx.highest_bidder_ft_temp_account;
        if let Some(e) = check_transfer(&hbt, &ctx.highest_bidder_ft_returning_account, pda, a.price) {
            return Err(e);
        }
        let drained = TokenAccount { amount: hbt.amount - a.price, ..hbt };
        if let Some(e) = check_close(&drained, pda) {
            return Err(e);
        }
    }
    let bidder = ctx.bidder;
    if let Some(e) = check_set_authority(&ctx.bidder_ft_temp_account, &bidder) {
        return Err(e);
    }
    let escrowed = TokenAccount { authority: *pda, ..ctx.bidder_ft_temp_account };
    if let Some(e) = check_transfer(&ctx.bidder_ft_account, &escrowed, &bidder, price) {
        return Err(e);
    }
    let mut ops: Vec<CustodyOp> = Vec::new();
    if prior {
        let previous = ctx.highest_bidder;
        transfer(
            &mut ctx.highest_bidder_ft_temp_account,
            &mut ctx.highest_bidder_ft_returning_account,
            pda,
            a.price,
            &mut ops,
        );
        close_account(&mut ctx.highest_bidder_ft_temp_account, &previous, pda, &mut ops);
    }
    set_authority(&mut ctx.bidder_ft_temp_account, &bidder, pda, &mut ops);
    transfer(&mut ctx.bidder_ft_account, &mut ctx.bidder_ft_temp_account, &bidder, price, &mut ops);
    ctx.escrow_account = EscrowSlot::Open(
        Auction {
            price,
            highest_bidder_pubkey: bidder,
            highest_bidder_ft_temp_pubkey: k1,
            highest_bidder_ft_returning_pubkey: k2,
            ..a
        },
    );
    proof {
        assert(ops@ =~= open_bid_ops(*old(ctx), a, *pda, price));
    }
    Ok(ops)
}

/// Places a bid of `price` on the auction, with the escrow's control
/// identity derived from the program id.
pub fn bid(ctx: &mut Bid, price: u64) -> (r: Result<Vec<CustodyOp>, AuctionError>)
    ensures
        match control_identity_of(old(ctx).program_id@) {
            None => r == Err::<Vec<CustodyOp>, AuctionError>(AuctionError::AddressDerivation) && *final(ctx) == *old(ctx),
            Some(id) => exists|pda: Key| pda@ == id && #[trigger] bid_outcome(*old(ctx), *final(ctx), r, pda, price),
        },
        r is Err ==> *final(ctx) == *old(ctx),
        // nothing is created or destroyed, only relocated
        r is Ok ==> forall|m: Key| #[trigger] bid_units(*final(ctx), m) == bid_units(*old(ctx), m),
        // an accepted bid raises the price to exactly the bid
        r is Ok ==> (old(ctx).escrow_account matches EscrowSlot::Open(a)
            && final(ctx).escrow_account matches EscrowSlot::Open(b)
            && a.price < price && b.price == price && old(ctx).now < a.end_at
            && b.highest_bidder_pubkey == old(ctx).bidder && has_bid(b)),
        (old(ctx).escrow_account matches EscrowSlot::Open(a) && (price <= a.price || old(ctx).now >= a.end_at))
            ==> r is Err,
        // the displaced bid leaves custody: its account is emptied and closed
        r is Ok ==> match old(ctx).escrow_account {
            EscrowSlot::Open(a) => has_bid(a) ==> (
                !final(ctx).highest_bidder_ft_temp_account.is_open
                && final(ctx).highest_bidder_ft_temp_account.amount == 0
                && final(ctx).highest_bidder_ft_returning_account.amount
                    == old(ctx).highest_bidder_ft_returning_account.amount + a.price),
            _ => true,
        },
        // the new bid alone is held, under the control identity
        r is Ok ==> (final(ctx).escrow_account matches EscrowSlot::Open(b)
            && b.highest_bidder_ft_temp_pubkey == final(ctx).bidder_ft_temp_account.key
            && control_identity_of(old(ctx).program_id@) == Some(final(ctx).bidder_ft_temp_account.authority@)
            && final(ctx).bidder_ft_temp_account.amount == price),
{
    let pda = match control_identity(&ctx.program_id) {
        Some(k) => k,
        None => return Err(AuctionError::AddressDerivation),
    };
    let ghost before = *ctx;
    let r = bid_with_authority(ctx, &pda, price);
    proof {
        assert(bid_outcome(before, *ctx, r, pda, price));
        if r is Ok {
            assert forall|m: Key| #[trigger] bid_units(*ctx, m) == bid_units(before, m) by {}
        }
    }
    r
}

} // verus!
