//! Token-streaming escrow engine: stream records, reservation ledgers and
//! the instruction handlers that move them in lockstep.
pub mod keys;
pub mod codec;
pub mod error;
pub mod schedule;
pub mod record;
pub mod group;
pub mod account;
pub mod utils;
pub mod checks;
pub mod stream;
pub mod multisig;
pub mod vault;
pub mod state;
pub mod instruction;
pub mod processor;
pub mod spl_utils;
pub mod laws;

pub use crate::account::{PREFIX, PREFIXMULTISIG, PREFIXMULTISIGSAFE, PREFIX_TOKEN};
pub use crate::group::{MAX_SIGNERS, MIN_SIGNERS}; 
