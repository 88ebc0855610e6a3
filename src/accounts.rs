use vstd::prelude::*;
use crate::events::{PaymentProcessed, PaymentStarted};
use crate::processor::PaymentProcessor;
use crate::pubkey::Pubkey;

verus! {

/// What the processor reads of a token account: its address, the asset it
/// holds, and the principal that owns it.
#[derive(Clone, Copy, Debug)]
pub struct TokenAccount {
    pub key: Pubkey,
    pub mint: Pubkey,
    pub owner: Pubkey,
}

/// One leg of a payment: move `amount` from the token account `from` to the
/// token account `to`, signed by `authority`.
#[derive(Clone, Copy, Debug)]
pub struct Transfer {
    pub from: Pubkey,
    pub to: Pubkey,
    pub authority: Pubkey,
    pub amount: u64,
}

/// The accounts of `initialize`: the signer, the processor record about to be
/// written, the bump seed of its address, and the host clock's reading.
#[derive(Debug)]
pub struct Initialize {
    pub authority: Pubkey,
    pub payment_processor: PaymentProcessor,
    pub bump: u8,
    pub timestamp: i64,
}

impl Initialize {
    /// The context of a first initialization: a blank processor record.
    pub fn new(authority: Pubkey, bump: u8, timestamp: i64) -> (r: Initialize)
        ensures
            r.authority == authority,
            r.bump == bump,
            r.timestamp == timestamp,
            r.payment_processor.is_blank(),
    {
        Initialize { authority, payment_processor: PaymentProcessor::blank(), bump, timestamp }
    }
}

/// The accounts of `process_payment`.
#[derive(Debug)]
pub struct ProcessPayment {
    /// The payer, who signs the first leg.
    pub customer: Pubkey,
    /// The payee.
    pub merchant: Pubkey,
    pub customer_token_account: TokenAccount,
    /// The account that the processor holds funds in between the legs.
    pub payment_processor_token_account: TokenAccount,
    pub merchant_token_account: TokenAccount,
    pub fee_recipient_token_account: TokenAccount,
    pub payment_processor: PaymentProcessor,
    /// The processor's own address, the authority of the second and third legs.
    pub payment_processor_key: Pubkey,
    pub timestamp: i64,
}

/// The accounts of `update_fee`.
#[derive(Debug)]
pub struct UpdateFee {
    pub authority: Pubkey,
    pub payment_processor: PaymentProcessor,
    pub timestamp: i64,
}

/// The accounts of `update_fee_recipient`.
#[derive(Debug)]
pub struct UpdateFeeRecipient {
    pub authority: Pubkey,
    pub payment_processor: PaymentProcessor,
    pub timestamp: i64,
}

/// The accounts of `pause` and `unpause`.
#[derive(Debug)]
pub struct EmergencyAction {
    pub authority: Pubkey,
    pub payment_processor: PaymentProcessor,
    pub timestamp: i64,
}

/// The accounts of `grant_role` and `revoke_role`.
#[derive(Debug)]
pub struct RoleManagement {
    pub authority: Pubkey,
    pub payment_processor: PaymentProcessor,
    pub timestamp: i64,
}

/// What a successful payment does, in order: record its start, collect the
/// amount, pay out the fee, pay out the rest, record its completion.
#[derive(Clone, Copy, Debug)]
pub struct PaymentSettlement {
    pub started: PaymentStarted,
    pub collect: Transfer,
    pub fee_transfer: Transfer,
    pub net_transfer: Transfer,
    pub processed: PaymentProcessed,
}

impl PaymentSettlement {
    /// The three legs in the order they must be carried out.
    pub fn transfers(&self) -> (r: Vec<Transfer>)
        ensures
            r@ == seq![self.collect, self.fee_transfer, self.net_transfer],
    {
        let mut legs: Vec<Transfer> = Vec::new();
        legs.push(self.collect);
        legs.push(self.fee_transfer);
        legs.push(self.net_transfer);
        assert(legs@ =~= seq![self.collect, self.fee_transfer, self.net_transfer]);
        legs
    }
}

} // verus!
