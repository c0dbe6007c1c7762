use vstd::prelude::*;

verus! {

/// Failures that abort an instruction as a whole.
#[derive(Clone, Copy, Debug, PartialEq, Eq, Structural)]
pub enum ErrorCode {
    /// A malformed parameter, such as an unknown config-update selector or
    /// an initial deposit that cannot seed a pool.
    InvalidInput,
    /// The signer is not one of the identities allowed to run the instruction.
    InvalidOwner,
    /// A mint whose token program or extension set is not supported.
    NotSupportMint,
    /// Pool creation is switched off in the config.
    NotApproved,
    /// Overflow, underflow or division by zero in fee or curve arithmetic.
    ArithmeticError,
    /// Account data that does not hold an initialised token account.
    InvalidAccountData,
    /// The virtual-reserve product would decrease after a trade.
    InvariantViolation,
}

} // verus!
