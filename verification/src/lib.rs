//! A minimal voting ledger: poll and candidate records that live at addresses
//! derived from what identifies them, each created once and never rewritten.
//!
//! `address` derives the addresses, `records` defines the two kinds of record
//! and the storage they reserve, `ledger` is the address space that holds them,
//! `instructions` creates them, and `laws` states what holds of every ledger.

pub mod address;
pub mod error;
pub mod instructions;
pub mod laws;
pub mod ledger;
pub mod records;

pub use crate::address::{
    candidate_seeds, find_candidate_address, find_poll_address, poll_seeds, program_id,
    seed_chunk, Address, MAX_SEEDS, MAX_SEED_LEN,
};
pub use crate::error::VotingError;
pub use crate::instructions::{
    create_candidate, create_poll, find_candidate, find_poll, initialize_candidate,
    initialze_poll, InitializeCandidate, InitializePoll,
};
pub use crate::ledger::{Account, Ledger, Signer};
pub use crate::records::{
    byte_len, same_text, Candidate, Poll, Record, DISCRIMINATOR_LEN, LENGTH_PREFIX_LEN,
    MAX_CANDIDATE_NAME_LEN, MAX_DESCRIPTION_LEN,
};
