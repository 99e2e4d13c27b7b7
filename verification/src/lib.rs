//! Network-parameter resolution and wallet inscription reporting.
//!
//! `chain` is the single source of truth for every per-network constant:
//! consensus identity, default RPC port, activation heights, genesis block,
//! data-directory layout and display name. `report` joins indexed
//! inscriptions against a wallet's unspent outputs and renders each match
//! as a report row with an explorer link.

pub mod chain;
pub mod report;
pub mod text;

pub use chain::Chain;
pub use chain::UnknownNetwork;
pub use report::InscriptionId;
pub use report::OutPoint;
pub use report::Output;
pub use report::SatPoint;
pub use report::Txid;
pub use report::run;
