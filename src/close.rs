//! Settling an expired auction: the asset goes to the leading bidder and the
//! leading bid to the exhibitor.
use vstd::prelude::*;
use crate::custody::{
    check_transfer, close_account, closed, credited, debited, held, transfer, transfer_error,
    CustodyOp, TokenAccount,
};
use crate::key::{control_identity, control_identity_of, Key};
use crate::state::{Auction, AuctionError, EscrowSlot};

verus! {

/// The accounts and clock reading a close operates on. Anyone may close an
/// expired auction: no signature is asked for.
#[derive(Clone, Copy, Debug)]
pub struct Close {
    pub program_id: Key,
    pub winning_bidder: Key,
    pub exhibitor: Key,
    pub exhibitor_nft_temp_account: TokenAccount,
    pub exhibitor_ft_receiving_account: TokenAccount,
    pub highest_bidder_ft_temp_account: TokenAccount,
    pub highest_bidder_nft_receiving_account: TokenAccount,
    pub escrow_account: EscrowSlot,
    pub now: i64,
}

/// Whether the four token accounts of a close are pairwise distinct.
pub open spec fn close_accounts_distinct(c: Close) -> bool {
    let k1 = c.exhibitor_nft_temp_account.key;
    let k2 = c.exhibitor_ft_receiving_account.key;
    let k3 = c.highest_bidder_ft_temp_account.key;
    let k4 = c.highest_bidder_nft_receiving_account.key;
    k1 != k2 && k1 != k3 && k1 != k4 && k2 != k3 && k2 != k4 && k3 != k4
}

/// Why closing the open auction `a` is rejected, if it is.
pub open spec fn open_close_error(c: Close, a: Auction, pda: Key) -> Option<AuctionError> {
    let nft = c.exhibitor_nft_temp_account;
    let ft = c.highest_bidder_ft_temp_account;
    if a.exhibitor_pubkey != c.exhibitor
        || a.exhibiting_nft_temp_pubkey != nft.key
        || a.exhibitor_ft_receiving_pubkey != c.exhibitor_ft_receiving_account.key
        || a.highest_bidder_pubkey != c.winning_bidder
        || a.highest_bidder_ft_temp_pubkey != ft.key {
        Some(AuctionError::AccountMismatch)
    } else if c.highest_bidder_nft_receiving_account.authority != a.highest_bidder_pubkey {
        Some(AuctionError::Unauthorized)
    } else if c.now < a.end_at {
        Some(AuctionError::InvalidState)
    } else if !close_accounts_distinct(c) {
        Some(AuctionError::AccountMismatch)
    } else if transfer_error(nft, c.highest_bidder_nft_receiving_account, pda, nft.amount) is Some {
        transfer_error(nft, c.highest_bidder_nft_receiving_account, pda, nft.amount)
    } else if ft.amount != a.price {
        Some(AuctionError::InsufficientFunds)
    } else {
        transfer_error(ft, c.exhibitor_ft_receiving_account, pda, a.price)
    }
}

/// Why a close is rejected, if it is.
pub open spec fn close_auction_error(c: Close, pda: Key) -> Option<AuctionError> {
    match c.escrow_account {
        EscrowSlot::Open(a) => open_close_error(c, a, pda),
        _ => Some(AuctionError::InvalidState),
    }
}

/// The accounts after a settled close of the open auction `a`: the asset
/// goes to the winner and the recorded price to the exhibitor.
pub open spec fn close_effect(c: Close, a: Auction) -> Close {
    let nft = c.exhibitor_nft_temp_account;
    let ft = c.highest_bidder_ft_temp_account;
    Close {
        exhibitor_nft_temp_account: closed(debited(nft, nft.amount)),
        highest_bidder_nft_receiving_account: credited(c.highest_bidder_nft_receiving_account, nft.amount),
        highest_bidder_ft_temp_account: closed(debited(ft, a.price)),
        exhibitor_ft_receiving_account: credited(c.exhibitor_ft_receiving_account, a.price),
        escrow_account: EscrowSlot::Terminated,
        ..c
    }
}

/// The custody calls of a settled close of the open auction `a`, in order.
pub open spec fn close_ops(c: Close, a: Auction, pda: Key) -> Seq<CustodyOp> {
    let nft = c.exhibitor_nft_temp_account;
    let ft = c.highest_bidder_ft_temp_account;
    seq![
        CustodyOp::Transfer {
            from: nft.key,
            to: c.highest_bidder_nft_receiving_account.key,
            authority: pda,
            amount: nft.amount,
        },
        CustodyOp::Transfer {
            from: ft.key,
            to: c.exhibitor_ft_receiving_account.key,
            authority: pda,
            amount: a.price,
        },
        CustodyOp::CloseAccount { account: ft.key, destination: c.winning_bidder, authority: pda },
        CustodyOp::CloseAccount { account: nft.key, destination: c.exhibitor, authority: pda },
    ]
}

/// What a close returns and leaves behind, with `pda` as the control identity.
pub open spec fn close_outcome(c: Close, after: Close, r: Result<Vec<CustodyOp>, AuctionError>, pda: Key) -> bool {
    match close_auction_error(c, pda) {
        Some(e) => r == Err::<Vec<CustodyOp>, AuctionError>(e) && after == c,
        None => match c.escrow_account {
            EscrowSlot::Open(a) => r matches Ok(ops) && ops@ == close_ops(c, a, pda)
                && after == close_effect(c, a),
            _ => false,
        },
    }
}

/// Units of `mint` across the token accounts of a close.
pub open spec fn close_units(c: Close, mint: Key) -> int {
    held(c.exhibitor_nft_temp_account, mint) + held(c.exhibitor_ft_receiving_account, mint)
        + held(c.highest_bidder_ft_temp_account, mint) + held(c.highest_bidder_nft_receiving_account, mint)
}

/// Settles the auction, with `pda` as the escrow's control identity.
pub fn close_with_authority(ctx: &mut Close, pda: &Key) -> (r: Result<Vec<CustodyOp>, AuctionError>)
    ensures
        close_outcome(*old(ctx), *final(ctx), r, *pda),
{
    let a = match ctx.escrow_account {
        EscrowSlot::Open(a) => a,
        _ => return Err(AuctionError::InvalidState),
    };
    let k1 = ctx.exhibitor_nft_temp_account.key;
    let k2 = ctx.exhibitor_ft_receiving_account.key;
    let k3 = ctx.highest_bidder_ft_temp_account.key;
    let k4 = ctx.highest_bidder_nft_receiving_account.key;
    if !a.exhibitor_pubkey.same(&ctx.exhibitor) || !a.exhibiting_nft_temp_pubkey.same(&k1)
        || !a.exhibitor_ft_receiving_pubkey.same(&k2) || !a.highest_bidder_pubkey.same(&ctx.winning_bidder)
        || !a.highest_bidder_ft_temp_pubkey.same(&k3) {
        return Err(AuctionError::AccountMismatch);
    }
    if !ctx.highest_bidder_nft_receiving_account.authority.same(&a.highest_bidder_pubkey) {
        return Err(AuctionError::Unauthorized);
    }
    if ctx.now < a.end_at {
        return Err(AuctionError::InvalidState);
    }
    if k1.same(&k2) || k1.same(&k3) || k1.same(&k4) || k2.same(&k3) || k2.same(&k4) || k3.same(&k4) {
        return Err(AuctionError::AccountMismatch);
    }
    let nft_amount = ctx.exhibitor_nft_temp_account.amount;
    if let Some(e) = check_transfer(
        &ctx.exhibitor_nft_temp_account,
        &ctx.highest_bidder_nft_receiving_account,
        pda,
        nft_amount,
    ) {
        return Err(e);
    }
    if ctx.highest_bidder_ft_temp_account.amount != a.price {
        return Err(AuctionError::InsufficientFunds);
    }
    if let Some(e) = check_transfer(
        &ctx.highest_bidder_ft_temp_account,
        &ctx.exhibitor_ft_receiving_account,
        pda,
        a.price,
    ) {
        return Err(e);
    }
    let winner = ctx.winning_bidder;
    let exhibitor = ctx.exhibitor;
    let mut ops: Vec<CustodyOp> = Vec::new();
    transfer(
        &mut ctx.exhibitor_nft_temp_account,
        &mut ctx.highest_bidder_nft_receiving_account,
        pda,
        nft_amount,
        &mut ops,
    );
    transfer(
        &mut ctx.highest_bidder_ft_temp_account,
        &mut ctx.exhibitor_ft_receiving_account,
        pda,
        a.price,
        &mut ops,
    );
    close_account(&mut ctx.highest_bidder_ft_temp_account, &winner, pda, &mut ops);
    close_account(&mut ctx.exhibitor_nft_temp_account, &exhibitor, pda, &mut ops);
    ctx.escrow_account = EscrowSlot::Terminated;
    proof {
        assert(ops@ =~= close_ops(*old(ctx), a, *pda));
    }
    Ok(ops)
}

/// Settles the auction, with the escrow's control identity derived from the
/// program id.
pub fn close(ctx: &mut Close) -> (r: Result<Vec<CustodyOp>, AuctionError>)
    ensures
        match control_identity_of(old(ctx).program_id@) {
            None => r == Err::<Vec<CustodyOp>, AuctionError>(AuctionError::AddressDerivation) && *final(ctx) == *old(ctx),
            Some(id) => exists|pda: Key| pda@ == id && #[trigger] close_outcome(*old(ctx), *final(ctx), r, pda),
        },
        r is Err ==> *final(ctx) == *old(ctx),
        // nothing is created or destroyed, only relocated
        r is Ok ==> forall|m: Key| #[trigger] close_units(*final(ctx), m) == close_units(*old(ctx), m),
        // settlement happens at the deadline or later, never before it
        r is Ok ==> (old(ctx).escrow_account matches EscrowSlot::Open(a) && old(ctx).now >= a.end_at),
        (old(ctx).escrow_account matches EscrowSlot::Open(a) && old(ctx).now < a.end_at) ==> r is Err,
        // the asset goes to an account of the winner, exactly the recorded
        // price goes to the exhibitor, and the record is released
        r is Ok ==> match old(ctx).escrow_account {
            EscrowSlot::Open(a) => final(ctx).escrow_account is Terminated
                && old(ctx).highest_bidder_nft_receiving_account.authority == a.highest_bidder_pubkey
                && old(ctx).winning_bidder == a.highest_bidder_pubkey
                && final(ctx).highest_bidder_nft_receiving_account.amount
                    == old(ctx).highest_bidder_nft_receiving_account.amount + old(ctx).exhibitor_nft_temp_account.amount
                && old(ctx).highest_bidder_ft_temp_account.amount == a.price
                && final(ctx).exhibitor_ft_receiving_account.amount
                    == old(ctx).exhibitor_ft_receiving_account.amount + a.price
                && !final(ctx).exhibitor_nft_temp_account.is_open
                && !final(ctx).highest_bidder_ft_temp_account.is_open,
            _ => false,
        },
{
    let pda = match control_identity(&ctx.program_id) {
        Some(k) => k,
        None => return Err(AuctionError::AddressDerivation),
    };
    let ghost before = *ctx;
    let r = close_with_authority(ctx, &pda);
    proof {
        assert(close_outcome(before, *ctx, r, pda));
        if r is Ok {
            assert forall|m: Key| #[trigger] close_units(*ctx, m) == close_units(before, m) by {}
        }
    }
    r
}

} // verus!
