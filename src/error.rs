use vstd::prelude::*;

verus! {

/// Every way an operation of the processor can fail. Each failure aborts the
/// whole operation before any state is changed.
#[derive(Clone, Copy, Debug, PartialEq, Eq, Structural)]
pub enum ErrorCode {
    /// Reserved: no operation raises it yet.
    ReentrancyDetected,
    UnauthorizedAccess,
    ContractPaused,
    InvalidAmount,
    InvalidFeeAmount,
    MathOverflow,
    InvalidRole,
    InvalidTokenOwner,
    InvalidTokenMint,
}

} // verus!
