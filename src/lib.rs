//! A sealed escrow for single-item ascending-price auctions.
//!
//! One asset is exhibited, bids of a fungible token replace each other at
//! strictly increasing prices, and at expiry the asset and the leading bid
//! change hands; an auction without bids may instead be cancelled.
pub mod bid;
pub mod cancel;
pub mod close;
pub mod custody;
pub mod exhibit;
pub mod key;
pub mod laws;
pub mod state;
