use vstd::prelude::*;

use crate::secret::SecretShared;

verus! {

/// A confidential transfer request: the amount to move, in the smallest
/// currency unit, together with the minimum balance the sender must hold for
/// the transfer to be admissible.
#[derive(Clone, Copy)]
pub struct TransferAmount {
    /// The transfer amount in the smallest currency unit.
    pub amount: u64,
    /// Minimum balance required for the transfer to be valid.
    pub min_balance: u64,
}

/// A confidential balance sufficiency question: does `balance` cover `amount`?
#[derive(Clone, Copy)]
pub struct BalanceCheck {
    pub balance: u64,
    pub amount: u64,
}

/// Two hidden magnitudes to be ordered without either being revealed.
#[derive(Clone, Copy)]
pub struct HiddenComparison {
    pub value_a: u64,
    pub value_b: u64,
}

/// The fixed public constant the commitment circuit masks the amount with.
///
/// Masking by a known constant is linear and reversible, so the commitment is
/// weakly binding and not hiding; that is a documented limitation of the
/// scheme, preserved here rather than silently strengthened.
pub const COMMITMENT_MASK: u64 = 0xDEAD_BEEF_CAFE_BABE;

/// A transfer is valid when the amount is positive and the required minimum
/// balance covers it.
pub open spec fn transfer_valid(t: TransferAmount) -> bool {
    t.amount > 0 && t.min_balance >= t.amount
}

/// The commitment a transfer discloses: the amount masked with the fixed
/// public constant. It depends on the amount alone.
pub open spec fn transfer_commitment(t: TransferAmount) -> u64 {
    t.amount ^ COMMITMENT_MASK
}

/// A balance is sufficient when it is at least the amount.
pub open spec fn balance_sufficient(c: BalanceCheck) -> bool {
    c.balance >= c.amount
}

/// The three-way ordering code: 0 when the values are equal, 1 when the first
/// is larger, 2 when the second is larger.
pub open spec fn comparison_code(c: HiddenComparison) -> u8 {
    if c.value_a == c.value_b {
        0
    } else if c.value_a > c.value_b {
        1
    } else {
        2
    }
}

/// Validates a confidential transfer, disclosing only whether it is valid:
/// the amount must be positive and the minimum balance must cover it. Neither
/// operand is revealed, and the circuit is total: every input yields a boolean.
pub fn validate_transfer(transfer: SecretShared<TransferAmount>) -> (valid: bool)
    ensures
        valid == transfer_valid(transfer@),
{
    let data = transfer.expose();
    let is_valid = SecretShared::share(data.amount > 0 && data.min_balance >= data.amount);
    is_valid.disclose()
}

/// Computes and discloses the commitment to a transfer: the amount masked with
/// [`COMMITMENT_MASK`]. The minimum balance plays no part in the result.
pub fn compute_transfer_commitment(transfer: SecretShared<TransferAmount>) -> (commitment: u64)
    ensures
        commitment == transfer_commitment(transfer@),
{
    let data = transfer.expose();
    let masked = SecretShared::share(data.amount ^ COMMITMENT_MASK);
    masked.disclose()
}

/// Checks whether a hidden balance covers a hidden amount, disclosing only the
/// boolean answer.
pub fn check_sufficient_balance(check: SecretShared<BalanceCheck>) -> (sufficient: bool)
    ensures
        sufficient == balance_sufficient(check@),
{
    let data = check.expose();
    let answer = SecretShared::share(data.balance >= data.amount);
    answer.disclose()
}

/// Compares two hidden values and discloses only their ordering: 0 when they
/// are equal, 1 when the first is larger, 2 when the second is larger. Exactly
/// one code is produced for every input pair; equality is decided first, and
/// the three outcomes are mutually exclusive and exhaustive.
pub fn compare_hidden_values(comparison: SecretShared<HiddenComparison>) -> (code: u8)
    ensures
        code == comparison_code(comparison@),
        (code == 0) <==> (comparison@.value_a == comparison@.value_b),
        (code == 1) <==> (comparison@.value_a > comparison@.value_b),
        (code == 2) <==> (comparison@.value_a < comparison@.value_b),
{
    let data = comparison.expose();
    let result: u8 = if data.value_a == data.value_b {
        0
    } else if data.value_a > data.value_b {
        1
    } else {
        2
    };
    SecretShared::share(result).disclose()
}

/// Law: the disclosed commitment is a function of the transfer amount alone;
/// two transfers moving the same amount commit to the same value whatever
/// their minimum balances.
pub proof fn lemma_commitment_ignores_min_balance(t1: TransferAmount, t2: TransferAmount)
    requires
        t1.amount == t2.amount,
    ensures
        transfer_commitment(t1) == transfer_commitment(t2),
{
}

/// Law: every circuit is idempotent. Each disclosed result is a pure function
/// of the secret-shared plaintext, with no hidden state, so repeated
/// invocation on identical input yields the identical revealed output.
pub proof fn lemma_circuits_idempotent(
    t1: TransferAmount,
    t2: TransferAmount,
    b1: BalanceCheck,
    b2: BalanceCheck,
    h1: HiddenComparison,
    h2: HiddenComparison,
)
    requires
        t1 == t2,
        b1 == b2,
        h1 == h2,
    ensures
        transfer_valid(t1) == transfer_valid(t2),
        transfer_commitment(t1) == transfer_commitment(t2),
        balance_sufficient(b1) == balance_sufficient(b2),
        comparison_code(h1) == comparison_code(h2),
{
}

} // verus!
