use vstd::prelude::*;
use crate::pubkey::Pubkey;

verus! {

/// Audit record of the processor's creation.
#[derive(Clone, Copy, Debug)]
pub struct InitializedEvent {
    pub admin: Pubkey,
    pub fee_recipient: Pubkey,
    pub fee_basis_points: u16,
    pub timestamp: i64,
}

/// Audit record emitted before any funds of a payment move.
#[derive(Clone, Copy, Debug)]
pub struct PaymentStarted {
    pub customer: Pubkey,
    pub merchant: Pubkey,
    pub amount: u64,
    pub fee: u64,
    pub reference: Pubkey,
    pub timestamp: i64,
}

/// Audit record emitted once all three legs of a payment are done.
#[derive(Clone, Copy, Debug)]
pub struct PaymentProcessed {
    pub customer: Pubkey,
    pub merchant: Pubkey,
    pub amount: u64,
    pub fee: u64,
    pub reference: Pubkey,
    pub timestamp: i64,
}

#[derive(Clone, Copy, Debug)]
pub struct FeeUpdated {
    pub admin: Pubkey,
    pub new_fee_basis_points: u16,
    pub timestamp: i64,
}

#[derive(Clone, Copy, Debug)]
pub struct FeeRecipientUpdated {
    pub admin: Pubkey,
    pub new_fee_recipient: Pubkey,
    pub timestamp: i64,
}

#[derive(Clone, Copy, Debug)]
pub struct ContractPaused {
    pub admin: Pubkey,
    pub timestamp: i64,
}

#[derive(Clone, Copy, Debug)]
pub struct ContractUnpaused {
    pub admin: Pubkey,
    pub timestamp: i64,
}

/// Audit record of a role grant; `role` is the numeric role code.
#[derive(Clone, Copy, Debug)]
pub struct RoleGranted {
    pub role: u8,
    pub account: Pubkey,
    pub admin: Pubkey,
    pub timestamp: i64,
}

/// Audit record of a role revocation; `role` is the numeric role code.
#[derive(Clone, Copy, Debug)]
pub struct RoleRevoked {
    pub role: u8,
    pub account: Pubkey,
    pub admin: Pubkey,
    pub timestamp: i64,
}

} // verus!
