//! Opening an auction: the asset passes into escrow custody.
use vstd::prelude::*;
use crate::custody::{
    check_set_authority, check_transfer, credited, debited, held, set_authority, set_authority_error,
    transfer, transfer_error, with_authority, CustodyOp, TokenAccount,
};
use crate::key::{control_identity, control_identity_of, Key};
use crate::state::{has_bid, Auction, AuctionError, EscrowSlot};

verus! {

/// The accounts and clock reading an exhibit operates on.
#[derive(Clone, Copy, Debug)]
pub struct Exhibit {
    pub program_id: Key,
    pub exhibitor: Key,
    pub exhibitor_is_signer: bool,
    /// Holds the asset before the auction.
    pub exhibitor_nft_token_account: TokenAccount,
    /// Holds the asset in escrow custody while the auction is open.
    pub exhibitor_nft_temp_account: TokenAccount,
    /// Receives the proceeds.
    pub exhibitor_ft_receiving_account: TokenAccount,
    pub escrow_account: EscrowSlot,
    pub now: i64,
}

/// Why exhibiting is rejected, if it is.
pub open spec fn exhibit_error(c: Exhibit, pda: Key, auction_duration_sec: u64) -> Option<AuctionError> {
    let source = c.exhibitor_nft_token_account;
    let temp = c.exhibitor_nft_temp_account;
    if !c.exhibitor_is_signer {
        Some(AuctionError::Unauthorized)
    } else if !(c.escrow_account is Unclaimed) {
        Some(AuctionError::InvalidState)
    } else if source.amount != 1 {
        Some(AuctionError::InsufficientFunds)
    } else if c.now + auction_duration_sec > i64::MAX {
        Some(AuctionError::Overflow)
    } else if source.key == temp.key || temp.amount != 0 {
        Some(AuctionError::AccountMismatch)
    } else if set_authority_error(temp, c.exhibitor) is Some {
        set_authority_error(temp, c.exhibitor)
    } else {
        transfer_error(source, with_authority(temp, pda), c.exhibitor, 1)
    }
}

/// The record an exhibit creates.
pub open spec fn exhibited(c: Exhibit, initial_price: u64, auction_duration_sec: u64) -> Auction {
    let receiving = c.exhibitor_ft_receiving_account.key;
    Auction {
        exhibitor_pubkey: c.exhibitor,
        exhibitor_ft_receiving_pubkey: receiving,
        exhibiting_nft_temp_pubkey: c.exhibitor_nft_temp_account.key,
        highest_bidder_pubkey: c.exhibitor,
        highest_bidder_ft_temp_pubkey: receiving,
        highest_bidder_ft_returning_pubkey: receiving,
        price: initial_price,
        end_at: (c.now + auction_duration_sec) as i64,
    }
}

/// The accounts after an accepted exhibit.
pub open spec fn exhibit_effect(c: Exhibit, pda: Key, initial_price: u64, auction_duration_sec: u64) -> Exhibit {
    Exhibit {
        exhibitor_nft_token_account: debited(c.exhibitor_nft_token_account, 1),
        exhibitor_nft_temp_account: credited(with_authority(c.exhibitor_nft_temp_account, pda), 1),
        escrow_account: EscrowSlot::Open(exhibited(c, initial_price, auction_duration_sec)),
        ..c
    }
}

/// The custody calls of an accepted exhibit, in order.
pub open spec fn exhibit_ops(c: Exhibit, pda: Key) -> Seq<CustodyOp> {
    seq![
        CustodyOp::SetAuthority {
            account: c.exhibitor_nft_temp_account.key,
            current_authority: c.exhibitor,
            new_authority: pda,
        },
        CustodyOp::Transfer {
            from: c.exhibitor_nft_token_account.key,
            to: c.exhibitor_nft_temp_account.key,
            authority: c.exhibitor,
            amount: 1,
        },
    ]
}

/// What an exhibit returns and leaves behind, with `pda` as the control identity.
pub open spec fn exhibit_outcome(
    c: Exhibit,
    after: Exhibit,
    r: Result<Vec<CustodyOp>, AuctionError>,
    pda: Key,
    initial_price: u64,
    auction_duration_sec: u64,
) -> bool {
    match exhibit_error(c, pda, auction_duration_sec) {
        Some(e) => r == Err::<Vec<CustodyOp>, AuctionError>(e) && after == c,
        None => r matches Ok(ops) && ops@ == exhibit_ops(c, pda)
            && after == exhibit_effect(c, pda, initial_price, auction_duration_sec),
    }
}

/// Units of `mint` across the token accounts of an exhibit.
pub open spec fn exhibit_units(c: Exhibit, mint: Key) -> int {
    held(c.exhibitor_nft_token_account, mint) + held(c.exhibitor_nft_temp_account, mint)
        + held(c.exhibitor_ft_receiving_account, mint)
}

/// Opens an auction, with `pda` as the escrow's control identity.
pub fn exhibit_with_authority(ctx: &mut Exhibit, pda: &Key, initial_price: u64, auction_duration_sec: u64) -> (r: Result<Vec<CustodyOp>, AuctionError>)
    ensures
        exhibit_outcome(*old(ctx), *final(ctx), r, *pda, initial_price, auction_duration_sec),
{
    if !ctx.exhibitor_is_signer {
        return Err(AuctionError::Unauthorized);
    }
    match ctx.escrow_account {
        EscrowSlot::Unclaimed => {},
        _ => return Err(AuctionError::InvalidState),
    }
    if ctx.exhibitor_nft_token_account.amount != 1 {
        return Err(AuctionError::InsufficientFunds);
    }
    let deadline: i128 = ctx.now as i128 + auction_duration_sec as i128;
    if deadline > i64::MAX as i128 {
        return Err(AuctionError::Overflow);
    }
    let end_at: i64 = deadline as i64;
    if ctx.exhibitor_nft_token_account.key.same(&ctx.exhibitor_nft_temp_account.key)
        || ctx.exhibitor_nft_temp_account.amount != 0 {
        return Err(AuctionError::AccountMismatch);
    }
    let exhibitor = ctx.exhibitor;
    if let Some(e) = check_set_authority(&ctx.exhibitor_nft_temp_account, &exhibitor) {
        return Err(e);
    }
    let escrowed = TokenAccount { authority: *pda, ..ctx.exhibitor_nft_temp_account };
    if let Some(e) = check_transfer(&ctx.exhibitor_nft_token_account, &escrowed, &exhibitor, 1) {
        return Err(e);
    }
    let receiving = ctx.exhibitor_ft_receiving_account.key;
    let mut ops: Vec<CustodyOp> = Vec::new();
    set_authority(&mut ctx.exhibitor_nft_temp_account, &exhibitor, pda, &mut ops);
    transfer(&mut ctx.exhibitor_nft_token_account, &mut ctx.exhibitor_nft_temp_account, &exhibitor, 1, &mut ops);
    ctx.escrow_account = EscrowSlot::Open(
        Auction {
            exhibitor_pubkey: exhibitor,
            exhibitor_ft_receiving_pubkey: receiving,
            exhibiting_nft_temp_pubkey: ctx.exhibitor_nft_temp_account.key,
            highest_bidder_pubkey: exhibitor,
            highest_bidder_ft_temp_pubkey: receiving,
            highest_bidder_ft_returning_pubkey: receiving,
            price: initial_price,
            end_at,
        },
    );
    proof {
        assert(ops@ =~= exhibit_ops(*old(ctx), *pda));
    }
    Ok(ops)
}

/// Opens an auction, with the escrow's control identity derived from the
/// program id.
pub fn exhibit(ctx: &mut Exhibit, initial_price: u64, auction_duration_sec: u64) -> (r: Result<Vec<CustodyOp>, AuctionError>)
    ensures
        match control_identity_of(old(ctx).program_id@) {
            None => r == Err::<Vec<CustodyOp>, AuctionError>(AuctionError::AddressDerivation) && *final(ctx) == *old(ctx),
            Some(id) => exists|pda: Key| pda@ == id
                && #[trigger] exhibit_outcome(*old(ctx), *final(ctx), r, pda, initial_price, auction_duration_sec),
        },
        r is Err ==> *final(ctx) == *old(ctx),
        // nothing is created or destroyed, only relocated
        r is Ok ==> forall|m: Key| #[trigger] exhibit_units(*final(ctx), m) == exhibit_units(*old(ctx), m),
        // the auction opens at the starting price, without a bid, with the
        // asset in escrow custody
        r is Ok ==> (final(ctx).escrow_account matches EscrowSlot::Open(a)
            && a.price == initial_price && a.end_at == old(ctx).now + auction_duration_sec
            && !has_bid(a)
            && final(ctx).exhibitor_nft_temp_account.amount == 1
            && final(ctx).exhibitor_nft_token_account.amount == 0
            && control_identity_of(old(ctx).program_id@) == Some(final(ctx).exhibitor_nft_temp_account.authority@)),
{
    let pda = match control_identity(&ctx.program_id) {
        Some(k) => k,
        None => return Err(AuctionError::AddressDerivation),
    };
    let ghost before = *ctx;
    let r = exhibit_with_authority(ctx, &pda, initial_price, auction_duration_sec);
    proof {
        assert(exhibit_outcome(before, *ctx, r, pda, initial_price, auction_duration_sec));
        if r is Ok {
            assert forall|m: Key| #[trigger] exhibit_units(*ctx, m) == exhibit_units(before, m) by {}
        }
    }
    r
}

} // verus!
