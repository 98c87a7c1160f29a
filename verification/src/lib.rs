//! A compliance-gated ledger for fractional ownership of a real-world asset.
//!
//! The crate keeps per-holder balances and a total supply, gates every
//! unit-receiving operation on a per-holder compliance record and a
//! whitelist, and restricts supply changes to a single administrator.
//! All state transitions are verified: the total supply always equals the
//! sum of the balances, and no balance is ever negative.
//!
//! The surrounding host concerns — durable storage, caller authentication,
//! and the ledger clock — are collaborators outside this crate. Callers
//! hand in the authenticated principal and the current timestamp as plain
//! values; every operation returns an explicit error instead of aborting.
//! An address is an opaque host identity: the crate refers to it by a
//! numeric handle and only ever compares handles for equality. Minting is
//! one operation, parameterized by a compliance mode that selects which
//! checks the recipient must pass.

pub mod assoc;
pub mod compliance;
pub mod contract;
pub mod errors;
pub mod ledger;
pub mod whitelist;

pub use compliance::ComplianceData;
pub use compliance::ComplianceMode;
pub use compliance::ComplianceRegistry;
pub use contract::AssetMetadata;
pub use contract::RealWorldAssetContract;
pub use errors::Error;
pub use ledger::Ledger;
pub use whitelist::Whitelist;
