//! The auction record, its storage slot and the failures an operation reports.
use vstd::prelude::*;
use crate::key::Key;

verus! {

/// The persistent record of one open auction.
#[derive(Clone, Copy, Debug)]
pub struct Auction {
    pub exhibitor_pubkey: Key,
    pub exhibitor_ft_receiving_pubkey: Key,
    pub exhibiting_nft_temp_pubkey: Key,
    /// Equal to the exhibitor while no bid has been placed.
    pub highest_bidder_pubkey: Key,
    pub highest_bidder_ft_temp_pubkey: Key,
    pub highest_bidder_ft_returning_pubkey: Key,
    pub price: u64,
    pub end_at: i64,
}

/// The storage slot of an auction through its lifecycle.
#[derive(Clone, Copy, Debug)]
pub enum EscrowSlot {
    /// Fresh storage that no auction has claimed.
    Unclaimed,
    Open(Auction),
    /// Released by a cancel or a close; no operation applies to it again.
    Terminated,
}

/// Why an operation was rejected. A rejected operation changes nothing.
#[derive(Clone, Copy, Debug, PartialEq, Eq, Structural)]
pub enum AuctionError {
    /// A required signature is missing, or an account is not controlled by
    /// the authority the operation acts under.
    Unauthorized,
    /// A supplied account differs from the one the record names, is closed,
    /// holds another instrument, is supplied twice, or is to take custody
    /// while it is not empty.
    AccountMismatch,
    /// The operation does not apply to the auction's lifecycle or timing.
    InvalidState,
    /// A source account lacks the units to move, an account to close is not
    /// empty, or the bid in custody is not the recorded price.
    InsufficientFunds,
    /// A bid does not exceed the current price.
    PriceNotIncreasing,
    /// A deadline or a balance would leave its integer range.
    Overflow,
    /// No control identity can be derived for the program.
    AddressDerivation,
}

/// Whether a bid has been placed on the auction.
pub open spec fn has_bid(a: Auction) -> bool {
    a.highest_bidder_pubkey != a.exhibitor_pubkey
}

} // verus!
