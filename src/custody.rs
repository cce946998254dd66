//! The custody ledger's primitives on token accounts, and the rules under
//! which the ledger refuses them.
use vstd::prelude::*;
use crate::key::Key;
use crate::state::AuctionError;

verus! {

/// A token account of the custody ledger as an operation sees it.
#[derive(Clone, Copy, Debug)]
pub struct TokenAccount {
    pub key: Key,
    /// The instrument the account holds.
    pub mint: Key,
    /// The identity that controls the account.
    pub authority: Key,
    pub amount: u64,
    /// False once the account has been closed.
    pub is_open: bool,
}

/// One custody call, as made on the ledger.
#[derive(Clone, Copy, Debug)]
pub enum CustodyOp {
    SetAuthority { account: Key, current_authority: Key, new_authority: Key },
    Transfer { from: Key, to: Key, authority: Key, amount: u64 },
    CloseAccount { account: Key, destination: Key, authority: Key },
}

/// Units of `mint` that an account holds.
pub open spec fn held(a: TokenAccount, mint: Key) -> int {
    if a.mint == mint {
        a.amount as int
    } else {
        0
    }
}

/// Why the ledger refuses to hand control of `a` from `current` to another
/// identity, if it does.
pub open spec fn set_authority_error(a: TokenAccount, current: Key) -> Option<AuctionError> {
    if !a.is_open {
        Some(AuctionError::AccountMismatch)
    } else if a.authority != current {
        Some(AuctionError::Unauthorized)
    } else {
        None
    }
}

/// Why the ledger refuses to move `amount` units from `from` to `to` under
/// `authority`, if it does.
pub open spec fn transfer_error(from: TokenAccount, to: TokenAccount, authority: Key, amount: u64) -> Option<AuctionError> {
    if !from.is_open || !to.is_open || from.key == to.key || from.mint != to.mint {
        Some(AuctionError::AccountMismatch)
    } else if from.authority != authority {
        Some(AuctionError::Unauthorized)
    } else if from.amount < amount {
        Some(AuctionError::InsufficientFunds)
    } else if to.amount + amount > u64::MAX {
        Some(AuctionError::Overflow)
    } else {
        None
    }
}

/// Why the ledger refuses to close `a` under `authority`, if it does.
pub open spec fn close_error(a: TokenAccount, authority: Key) -> Option<AuctionError> {
    if !a.is_open {
        Some(AuctionError::AccountMismatch)
    } else if a.authority != authority {
        Some(AuctionError::Unauthorized)
    } else if a.amount != 0 {
        Some(AuctionError::InsufficientFunds)
    } else {
        None
    }
}

/// `a` after control of it passed to `new_authority`.
pub open spec fn with_authority(a: TokenAccount, new_authority: Key) -> TokenAccount {
    TokenAccount { authority: new_authority, ..a }
}

/// `from` after `amount` units left it.
pub open spec fn debited(from: TokenAccount, amount: u64) -> TokenAccount {
    TokenAccount { amount: (from.amount - amount) as u64, ..from }
}

/// `to` after `amount` units arrived.
pub open spec fn credited(to: TokenAccount, amount: u64) -> TokenAccount {
    TokenAccount { amount: (to.amount + amount) as u64, ..to }
}

/// `a` after it was closed.
pub open spec fn closed(a: TokenAccount) -> TokenAccount {
    TokenAccount { is_open: false, ..a }
}

/// Decides `set_authority_error` on the given values.
pub fn check_set_authority(a: &TokenAccount, current: &Key) -> (r: Option<AuctionError>)
    ensures
        r == set_authority_error(*a, *current),
{
    if !a.is_open {
        Some(AuctionError::AccountMismatch)
    } else if !a.authority.same(current) {
        Some(AuctionError::Unauthorized)
    } else {
        None
    }
}

/// Decides `transfer_error` on the given values.
pub fn check_transfer(from: &TokenAccount, to: &TokenAccount, authority: &Key, amount: u64) -> (r: Option<AuctionError>)
    ensures
        r == transfer_error(*from, *to, *authority, amount),
{
    if !from.is_open || !to.is_open || from.key.same(&to.key) || !from.mint.same(&to.mint) {
        Some(AuctionError::AccountMismatch)
    } else if !from.authority.same(authority) {
        Some(AuctionError::Unauthorized)
    } else if from.amount < amount {
        Some(AuctionError::InsufficientFunds)
    } else if to.amount > u64::MAX - amount {
        Some(AuctionError::Overflow)
    } else {
        None
    }
}

/// Decides `close_error` on the given values.
pub fn check_close(a: &TokenAccount, authority: &Key) -> (r: Option<AuctionError>)
    ensures
        r == close_error(*a, *authority),
{
    if !a.is_open {
        Some(AuctionError::AccountMismatch)
    } else if !a.authority.same(authority) {
        Some(AuctionError::Unauthorized)
    } else if a.amount != 0 {
        Some(AuctionError::InsufficientFunds)
    } else {
        None
    }
}

/// Hands control of `a` from `current` to `new_authority`, and records the call.
pub fn set_authority(a: &mut TokenAccount, current: &Key, new_authority: &Key, ops: &mut Vec<CustodyOp>)
    requires
        set_authority_error(*old(a), *current) is None,
    ensures
        *final(a) == with_authority(*old(a), *new_authority),
        final(ops)@ == old(ops)@.push(
            CustodyOp::SetAuthority { account: old(a).key, current_authority: *current, new_authority: *new_authority },
        ),
{
    a.authority = *new_authority;
    ops.push(CustodyOp::SetAuthority { account: a.key, current_authority: *current, new_authority: *new_authority });
}

/// Moves `amount` units from `from` to `to` under `authority`, and records the call.
pub fn transfer(from: &mut TokenAccount, to: &mut TokenAccount, authority: &Key, amount: u64, ops: &mut Vec<CustodyOp>)
    requires
        transfer_error(*old(from), *old(to), *authority, amount) is None,
    ensures
        *final(from) == debited(*old(from), amount),
        *final(to) == credited(*old(to), amount),
        final(ops)@ == old(ops)@.push(
            CustodyOp::Transfer { from: old(from).key, to: old(to).key, authority: *authority, amount },
        ),
{
    from.amount = from.amount - amount;
    to.amount = to.amount + amount;
    ops.push(CustodyOp::Transfer { from: from.key, to: to.key, authority: *authority, amount });
}

/// Closes the empty account `a` under `authority`, releasing its storage to
/// `destination`, and records the call.
pub fn close_account(a: &mut TokenAccount, destination: &Key, authority: &Key, ops: &mut Vec<CustodyOp>)
    requires
        close_error(*old(a), *authority) is None,
    ensures
        *final(a) == closed(*old(a)),
        final(ops)@ == old(ops)@.push(
            CustodyOp::CloseAccount { account: old(a).key, destination: *destination, authority: *authority },
        ),
{
    a.is_open = false;
    ops.push(CustodyOp::CloseAccount { account: a.key, destination: *destination, authority: *authority });
}

} // verus!
