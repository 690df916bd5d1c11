//! Typed failure outcomes of the account lifecycle operations.

use vstd::prelude::*;

verus! {

/// Every failure an operation can report. None is fatal: each is a rejected
/// operation, and the caller may retry with corrected inputs.
#[derive(Clone, Copy, Debug, PartialEq, Eq, Structural)]
pub enum ErrorCode {
    /// The derivation seed exceeds the maximum accepted length.
    SeedTooLong,
    /// No disambiguation nonce makes the derivation land on a usable address.
    NoViableBump,
    /// The caller-supplied seed does not reproduce the target address.
    InvalidPdaAddress,
    /// Draining the account would overflow the recipient's balance.
    ArithmeticOverflow,
    /// Direct balance or byte mutation was attempted on a statically bound
    /// account, which the binding layer controls exclusively.
    DirectMutationForbidden,
}

} // verus!
