//! A payment processor: role-gated configuration, fee arithmetic in basis
//! points, and the three transfer legs that settle one payment.

pub mod pubkey;
pub mod error;
pub mod role;
pub mod fee;
pub mod processor;
pub mod accounts;
pub mod events;
pub mod instructions;

pub use pubkey::Pubkey;
pub use error::ErrorCode;
pub use role::Role;

pub use fee::compute_fee;
pub use processor::{PaymentProcessor, RoleRegistry};
pub use accounts::{
    EmergencyAction, Initialize, PaymentSettlement, ProcessPayment, RoleManagement, TokenAccount,
    Transfer, UpdateFee, UpdateFeeRecipient,
};
pub use events::{
    ContractPaused, ContractUnpaused, FeeRecipientUpdated, FeeUpdated, InitializedEvent,
    PaymentProcessed, PaymentStarted, RoleGranted, RoleRevoked,
};
pub use instructions::{
    grant_role, initialize, pause, process_payment, revoke_role, unpause, update_fee,
    update_fee_recipient,
};
