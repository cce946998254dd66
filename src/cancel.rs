//! Withdrawing an auction that has no bid: the asset goes back to the exhibitor.
use vstd::prelude::*;
use crate::custody::{
    check_transfer, close_account, closed, credited, debited, held, transfer, transfer_error,
    CustodyOp, TokenAccount,
};
use crate::key::{control_identity, control_identity_of, Key};
use crate::state::{has_bid, Auction, AuctionError, EscrowSlot};

verus! {

/// The accounts a cancel operates on.
#[derive(Clone, Copy, Debug)]
pub struct Cancel {
    pub program_id: Key,
    pub exhibitor: Key,
    pub exhibitor_is_signer: bool,
    /// Receives the asset back.
    pub exhibitor_nft_token_account: TokenAccount,
    /// Holds the asset in escrow custody.
    pub exhibitor_nft_temp_account: TokenAccount,
    pub escrow_account: EscrowSlot,
}

/// Why cancelling the open auction `a` is rejected, if it is.
pub open spec fn open_cancel_error(c: Cancel, a: Auction, pda: Key) -> Option<AuctionError> {
    let temp = c.exhibitor_nft_temp_account;
    if a.exhibitor_pubkey != c.exhibitor {
        Some(AuctionError::Unauthorized)
    } else if has_bid(a) {
        Some(AuctionError::InvalidState)
    } else if a.exhibiting_nft_temp_pubkey != temp.key {
        Some(AuctionError::AccountMismatch)
    } else {
        transfer_error(temp, c.exhibitor_nft_token_account, pda, temp.amount)
    }
}

/// Why a cancel is rejected, if it is.
pub open spec fn cancel_error(c: Cancel, pda: Key) -> Option<AuctionError> {
    if !c.exhibitor_is_signer {
        Some(AuctionError::Unauthorized)
    } else {
        match c.escrow_account {
            EscrowSlot::Open(a) => open_cancel_error(c, a, pda),
            _ => Some(AuctionError::InvalidState),
        }
    }
}

/// The accounts after an accepted cancel.
pub open spec fn cancel_effect(c: Cancel) -> Cancel {
    let temp = c.exhibitor_nft_temp_account;
    Cancel {
        exhibitor_nft_temp_account: closed(debited(temp, temp.amount)),
        exhibitor_nft_token_account: credited(c.exhibitor_nft_token_account, temp.amount),
        escrow_account: EscrowSlot::Terminated,
        ..c
    }
}

/// The custody calls of an accepted cancel, in order.
pub open spec fn cancel_ops(c: Cancel, pda: Key) -> Seq<CustodyOp> {
    let temp = c.exhibitor_nft_temp_account;
    seq![
        CustodyOp::Transfer {
            from: temp.key,
            to: c.exhibitor_nft_token_account.key,
            authority: pda,
            amount: temp.amount,
        },
        CustodyOp::CloseAccount { account: temp.key, destination: c.exhibitor, authority: pda },
    ]
}

/// What a cancel returns and leaves behind, with `pda` as the control identity.
pub open spec fn cancel_outcome(c: Cancel, after: Cancel, r: Result<Vec<CustodyOp>, AuctionError>, pda: Key) -> bool {
    match cancel_error(c, pda) {
        Some(e) => r == Err::<Vec<CustodyOp>, AuctionError>(e) && after == c,
        None => r matches Ok(ops) && ops@ == cancel_ops(c, pda) && after == cancel_effect(c),
    }
}

/// Units of `mint` across the token accounts of a cancel.
pub open spec fn cancel_units(c: Cancel, mint: Key) -> int {
    held(c.exhibitor_nft_token_account, mint) + held(c.exhibitor_nft_temp_account, mint)
}

/// Cancels the auction, with `pda` as the escrow's control identity.
pub fn cancel_with_authority(ctx: &mut Cancel, pda: &Key) -> (r: Result<Vec<CustodyOp>, AuctionError>)
    ensures
        cancel_outcome(*old(ctx), *final(ctx), r, *pda),
{
    if !ctx.exhibitor_is_signer {
        return Err(AuctionError::Unauthorized);
    }
    let a = match ctx.escrow_account {
        EscrowSlot::Open(a) => a,
        _ => return Err(AuctionError::InvalidState),
    };
    if !a.exhibitor_pubkey.same(&ctx.exhibitor) {
        return Err(AuctionError::Unauthorized);
    }
    if !a.highest_bidder_pubkey.same(&a.exhibitor_pubkey) {
        return Err(AuctionError::InvalidState);
    }
    if !a.exhibiting_nft_temp_pubkey.same(&ctx.exhibitor_nft_temp_account.key) {
        return Err(AuctionError::AccountMismatch);
    }
    let amount = ctx.exhibitor_nft_temp_account.amount;
    if let Some(e) = check_transfer(&ctx.exhibitor_nft_temp_account, &ctx.exhibitor_nft_token_account, pda, amount) {
        return Err(e);
    }
    let exhibitor = ctx.exhibitor;
    let mut ops: Vec<CustodyOp> = Vec::new();
    transfer(&mut ctx.exhibitor_nft_temp_account, &mut ctx.exhibitor_nft_token_account, pda, amount, &mut ops);
    close_account(&mut ctx.exhibitor_nft_temp_account, &exhibitor, pda, &mut ops);
    ctx.escrow_account = EscrowSlot::Terminated;
    proof {
        assert(ops@ =~= cancel_ops(*old(ctx), *pda));
    }
    Ok(ops)
}

/// Cancels the auction, with the escrow's control identity derived from the
/// program id.
pub fn cancel(ctx: &mut Cancel) -> (r: Result<Vec<CustodyOp>, AuctionError>)
    ensures
        match control_identity_of(old(ctx).program_id@) {
            None => r == Err::<Vec<CustodyOp>, AuctionError>(AuctionError::AddressDerivation) && *final(ctx) == *old(ctx),
            Some(id) => exists|pda: Key| pda@ == id && #[trigger] cancel_outcome(*old(ctx), *final(ctx), r, pda),
        },
        r is Err ==> *final(ctx) == *old(ctx),
        // nothing is created or destroyed, only relocated
        r is Ok ==> forall|m: Key| #[trigger] cancel_units(*final(ctx), m) == cancel_units(*old(ctx), m),
        // only an auction without a bid can be cancelled
        r is Ok ==> (old(ctx).escrow_account matches EscrowSlot::Open(a) && !has_bid(a)),
        (old(ctx).escrow_account matches EscrowSlot::Open(a) && has_bid(a)) ==> r is Err,
        // the asset returns to the exhibitor and the record is released
        r is Ok ==> final(ctx).escrow_account is Terminated
            && final(ctx).exhibitor_nft_token_account.amount
                == old(ctx).exhibitor_nft_token_account.amount + old(ctx).exhibitor_nft_temp_account.amount
            && !final(ctx).exhibitor_nft_temp_account.is_open,
{
    let pda = match control_identity(&ctx.program_id) {
        Some(k) => k,
        None => return Err(AuctionError::AddressDerivation),
    };
    let ghost before = *ctx;
    let r = cancel_with_authority(ctx, &pda);
    proof {
        assert(cancel_outcome(before, *ctx, r, pda));
        if r is Ok {
            assert forall|m: Key| #[trigger] cancel_units(*ctx, m) == cancel_units(before, m) by {}
        }
    }
    r
}

} // verus!
