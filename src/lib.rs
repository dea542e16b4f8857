//! The ticket-sale engine of a raffle: an immutable raffle record bound to one
//! certificate log, and a sale step that charges `ticket_price * amount` into
//! the raffle's escrow while issuing `amount` ticket certificates.
//!
//! Addresses are derived from seeds with the ledger's program-address scheme.
//! What only the runtime can do (moving tokens, appending to the log) is handed
//! back as plain values for the caller to carry out; `book` holds the state
//! that those two steps move, and states what a purchase does to it.

pub mod address;
pub mod book;
pub mod errors;
pub mod metadata;
pub mod raffle;
pub mod sale;

pub use address::{
    key_bytes, proceeds_address, raffle_address, raffle_seeds_identify_log, tree_authority_address,
};
pub use book::{
    only_one_of_two_purchases, purchase_tickets, retry_after_top_up, settle, SaleBook, SaleError,
};
pub use errors::RaffleError;
pub use metadata::{
    Collection, Creator, Metadata, TokenProgramVersion, TokenStandard, UseMethod, Uses,
};
pub use raffle::{
    create_raffle, is_zeroed, raffle_record_round_trip, Raffle, RaffleSetup, ValidDepthSizePair,
    RAFFLE_RECORD_LEN,
};
pub use sale::{buy_tickets, Purchase};
