//! Confidential computation circuits for private transfers and comparisons.
//!
//! Each circuit takes a secret-shared structured input, computes entirely on
//! values that never leave the secure computation context, and discloses only
//! a minimal derived result: a boolean, a small ordering code, or a masked
//! commitment. The secret-sharing runtime itself (share production, multi-party
//! protocol execution) is an external service; this library models it with the
//! [`SecretShared`] wrapper, whose only public extraction is the explicit
//! disclose step, and verifies the circuit logic against that model.

mod circuits;
mod secret;

pub use circuits::BalanceCheck;
pub use circuits::COMMITMENT_MASK;
pub use circuits::HiddenComparison;
pub use circuits::TransferAmount;
pub use circuits::balance_sufficient;
pub use circuits::check_sufficient_balance;
pub use circuits::compare_hidden_values;
pub use circuits::comparison_code;
pub use circuits::compute_transfer_commitment;
pub use circuits::lemma_circuits_idempotent;
pub use circuits::lemma_commitment_ignores_min_balance;
pub use circuits::transfer_commitment;
pub use circuits::transfer_valid;
pub use circuits::validate_transfer;
pub use secret::SecretShared;
