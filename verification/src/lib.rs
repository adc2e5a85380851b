//! Settlement core of a round-based casino: the round timer, the bet ledger,
//! payout computation and the treasury decisions shared by a coin-flip game,
//! a double-dice game and their common reserve.
//!
//! All state is held in explicit values that the caller loads and stores;
//! every operation is a function from the state and plain inputs to the next
//! state and the message, if any, that the caller has to send.

pub mod actions;
pub mod admin;
pub mod coin_supply;
pub mod coinflip;
pub mod contract;
pub mod decimal;
pub mod doubledice;
pub mod error;
pub mod game;
pub mod ico;
pub mod ledger;
pub mod listing;
pub mod msg;
pub mod payment;
pub mod payout;
pub mod queries;
pub mod reserve;
pub mod rewards;
pub mod settlement;
pub mod tax;
pub mod timer;
pub mod treasury;
pub mod validity;
