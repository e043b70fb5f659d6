//! Name registry: a one-time claim on a name, recorded on a shared ledger.

pub mod account;
pub mod endian;
pub mod error;
pub mod host;
pub mod laws;
pub mod processor;
pub mod state;

pub use crate::account::{AccountRecord, Address};
pub use crate::error::{ClaimError, VoteError};
pub use crate::processor::{claim_address, process_instruction};
pub use crate::state::{Metadata, ServerData, Vote, VoterCheck};
