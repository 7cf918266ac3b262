//! An append-only ledger of bet records with paginated reads, a guarded
//! update path, and a structured "resolution requested" event emitted as a
//! JSON log line for an external resolving agent.

use vstd::prelude::*;

pub mod events;
pub mod store;
pub mod text;

pub use store::Bet;
pub use store::BetError;
pub use store::BetTermStorage;
