//! Asset-identity and routing layer for a multi-ledger settlement engine.
//!
//! Every tradable value — the chain's native balance unit, a locally issued
//! token, a liquidity-pool share, or a value bridged in from a remote chain —
//! is named by one canonical [`asset::AssetId`]. Balance queries, transfers,
//! deposits and withdrawals enter through [`router::AssetRouter`], which
//! classifies the identifier and dispatches the call to the backing ledger:
//! the native ledger, the local multi-currency ledger (through
//! [`adaptor::LocalAssetAdaptor`]), or an optional foreign ledger keyed by
//! remote-chain identity.

pub mod adaptor;
pub mod asset;
pub mod errors;
pub mod foreign;
pub mod ledger;
pub mod native;
pub mod pair;
pub mod router;
pub mod wire;
