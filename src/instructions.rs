use vstd::prelude::*;
use crate::accounts::{
    EmergencyAction, Initialize, PaymentSettlement, ProcessPayment, RoleManagement, Transfer,
    UpdateFee, UpdateFeeRecipient,
};
use crate::error::ErrorCode;
use crate::events::{
    ContractPaused, ContractUnpaused, FeeRecipientUpdated, FeeUpdated, InitializedEvent,
    PaymentProcessed, PaymentStarted, RoleGranted, RoleRevoked,
};
use crate::fee::{compute_fee, fee_computable, fee_of, MAX_FEE_BASIS_POINTS};
use crate::processor::{PaymentProcessor, PROCESSOR_VERSION};
use crate::pubkey::Pubkey;
use crate::role::Role;

verus! {

/// The first ownership or asset mismatch among the payment's token accounts,
/// in the order they are checked.
pub open spec fn account_error(ctx: ProcessPayment) -> Option<ErrorCode> {
    let mint = ctx.customer_token_account.mint;
    if ctx.customer_token_account.owner != ctx.customer {
        Some(ErrorCode::InvalidTokenOwner)
    } else if ctx.payment_processor_token_account.mint != mint {
        Some(ErrorCode::InvalidTokenMint)
    } else if ctx.payment_processor_token_account.owner != ctx.payment_processor_key {
        Some(ErrorCode::InvalidTokenOwner)
    } else if ctx.merchant_token_account.mint != mint {
        Some(ErrorCode::InvalidTokenMint)
    } else if ctx.merchant_token_account.owner != ctx.merchant {
        Some(ErrorCode::InvalidTokenOwner)
    } else if ctx.fee_recipient_token_account.mint != mint {
        Some(ErrorCode::InvalidTokenMint)
    } else if ctx.fee_recipient_token_account.owner != ctx.payment_processor.fee_recipient {
        Some(ErrorCode::InvalidTokenOwner)
    } else {
        None
    }
}

/// Why a payment of `amount` in `ctx` fails, if it does.
pub open spec fn payment_error(ctx: ProcessPayment, amount: u64) -> Option<ErrorCode> {
    if ctx.payment_processor.paused {
        Some(ErrorCode::ContractPaused)
    } else if amount == 0 {
        Some(ErrorCode::InvalidAmount)
    } else if account_error(ctx) is Some {
        account_error(ctx)
    } else if !fee_computable(amount, ctx.payment_processor.fee_basis_points) {
        Some(ErrorCode::MathOverflow)
    } else {
        None
    }
}

/// The settlement of a payment of `amount` in `ctx` that passed validation.
pub open spec fn settlement_of(ctx: ProcessPayment, amount: u64, reference: Pubkey)
    -> PaymentSettlement {
    let fee = fee_of(amount as int, ctx.payment_processor.fee_basis_points as int) as u64;
    let net = (amount - fee) as u64;
    PaymentSettlement {
        started: PaymentStarted {
            customer: ctx.customer,
            merchant: ctx.merchant,
            amount,
            fee,
            reference,
            timestamp: ctx.timestamp,
        },
        collect: Transfer {
            from: ctx.customer_token_account.key,
            to: ctx.payment_processor_token_account.key,
            authority: ctx.customer,
            amount,
        },
        fee_transfer: Transfer {
            from: ctx.payment_processor_token_account.key,
            to: ctx.fee_recipient_token_account.key,
            authority: ctx.payment_processor_key,
            amount: fee,
        },
        net_transfer: Transfer {
            from: ctx.payment_processor_token_account.key,
            to: ctx.merchant_token_account.key,
            authority: ctx.payment_processor_key,
            amount: net,
        },
        processed: PaymentProcessed {
            customer: ctx.customer,
            merchant: ctx.merchant,
            amount,
            fee,
            reference,
            timestamp: ctx.timestamp,
        },
    }
}

/// Checks that all four token accounts hold one asset and that each is owned
/// by the principal it should be.
pub fn validate_accounts(ctx: &ProcessPayment) -> (r: Result<(), ErrorCode>)
    ensures
        match account_error(*ctx) {
            Some(e) => r == Err::<(), ErrorCode>(e),
            None => r is Ok,
        },
{
    let mint = ctx.customer_token_account.mint;
    if ctx.customer_token_account.owner != ctx.customer {
        return Err(ErrorCode::InvalidTokenOwner);
    }
    if ctx.payment_processor_token_account.mint != mint {
        return Err(ErrorCode::InvalidTokenMint);
    }
    if ctx.payment_processor_token_account.owner != ctx.payment_processor_key {
        return Err(ErrorCode::InvalidTokenOwner);
    }
    if ctx.merchant_token_account.mint != mint {
        return Err(ErrorCode::InvalidTokenMint);
    }
    if ctx.merchant_token_account.owner != ctx.merchant {
        return Err(ErrorCode::InvalidTokenOwner);
    }
    if ctx.fee_recipient_token_account.mint != mint {
        return Err(ErrorCode::InvalidTokenMint);
    }
    if ctx.fee_recipient_token_account.owner != ctx.payment_processor.fee_recipient {
        return Err(ErrorCode::InvalidTokenOwner);
    }
    Ok(())
}

/// Decides a payment of `amount` from the customer to the merchant: on
/// success, the three transfer legs to carry out and the two audit records
/// around them. The memo is accepted and not interpreted.
pub fn process_payment(
    ctx: &ProcessPayment,
    amount: u64,
    reference: Pubkey,
    memo: Option<String>,
) -> (r: Result<PaymentSettlement, ErrorCode>)
    ensures
        r == match payment_error(*ctx, amount) {
            Some(e) => Err::<PaymentSettlement, ErrorCode>(e),
            None => Ok::<PaymentSettlement, ErrorCode>(settlement_of(*ctx, amount, reference)),
        },
        ctx.payment_processor.paused ==> r == Err::<PaymentSettlement, ErrorCode>(
            ErrorCode::ContractPaused,
        ),
        !ctx.payment_processor.paused && amount == 0 ==> r == Err::<PaymentSettlement, ErrorCode>(
            ErrorCode::InvalidAmount,
        ),
        r matches Ok(s) ==> {
            &&& s.fee_transfer.amount + s.net_transfer.amount == amount
            &&& s.collect.amount == amount
        },
        !ctx.payment_processor.paused && amount > 0 && account_error(*ctx) is None
            && ctx.payment_processor.fee_basis_points <= MAX_FEE_BASIS_POINTS && amount
            * ctx.payment_processor.fee_basis_points <= u64::MAX ==> r is Ok,
{
    let processor = &ctx.payment_processor;
    if processor.paused {
        return Err(ErrorCode::ContractPaused);
    }
    if amount == 0 {
        return Err(ErrorCode::InvalidAmount);
    }
    validate_accounts(ctx)?;
    let (fee, net) = compute_fee(amount, processor.fee_basis_points)?;
    let started = PaymentStarted {
        customer: ctx.customer,
        merchant: ctx.merchant,
        amount,
        fee,
        reference,
        timestamp: ctx.timestamp,
    };
    let collect = Transfer {
        from: ctx.customer_token_account.key,
        to: ctx.payment_processor_token_account.key,
        authority: ctx.customer,
        amount,
    };
    let fee_transfer = Transfer {
        from: ctx.payment_processor_token_account.key,
        to: ctx.fee_recipient_token_account.key,
        authority: ctx.payment_processor_key,
        amount: fee,
    };
    let net_transfer = Transfer {
        from: ctx.payment_processor_token_account.key,
        to: ctx.merchant_token_account.key,
        authority: ctx.payment_processor_key,
        amount: net,
    };
    let processed = PaymentProcessed {
        customer: ctx.customer,
        merchant: ctx.merchant,
        amount,
        fee,
        reference,
        timestamp: ctx.timestamp,
    };
    Ok(PaymentSettlement { started, collect, fee_transfer, net_transfer, processed })
}

/// `p` is the record that `initialize` writes for `admin`: the given fee
/// settings, not paused, at the current version, with `admin` the one holder
/// of every role.
pub open spec fn initialized_as(
    p: PaymentProcessor,
    admin: Pubkey,
    fee_recipient: Pubkey,
    fee_basis_points: u16,
    bump: u8,
) -> bool {
    &&& p.admin == admin
    &&& p.fee_recipient == fee_recipient
    &&& p.fee_basis_points == fee_basis_points
    &&& !p.paused
    &&& p.version == PROCESSOR_VERSION
    &&& p.bump == bump
    &&& forall|role: Role| #[trigger] p.roles.holders(role) == seq![admin]
    &&& forall|role: Role| #[trigger] p.holds(role, admin)
    &&& p.wf()
}

/// Creates the processor's configuration, with the signer as the holder of
/// every role. A fee rate above 10000 basis points is refused.
pub fn initialize(ctx: &mut Initialize, fee_basis_points: u16, fee_recipient: Pubkey) -> (r:
    Result<InitializedEvent, ErrorCode>)
    ensures
        fee_basis_points > MAX_FEE_BASIS_POINTS ==> r == Err::<InitializedEvent, ErrorCode>(
            ErrorCode::InvalidFeeAmount,
        ),
        r is Err ==> *final(ctx) == *old(ctx),
        fee_basis_points <= MAX_FEE_BASIS_POINTS ==> {
            &&& r == Ok::<InitializedEvent, ErrorCode>(
                InitializedEvent {
                    admin: old(ctx).authority,
                    fee_recipient,
                    fee_basis_points,
                    timestamp: old(ctx).timestamp,
                },
            )
            &&& initialized_as(
                final(ctx).payment_processor,
                old(ctx).authority,
                fee_recipient,
                fee_basis_points,
                old(ctx).bump,
            )
            &&& final(ctx).authority == old(ctx).authority
            &&& final(ctx).bump == old(ctx).bump
            &&& final(ctx).timestamp == old(ctx).timestamp
        },
{
    if fee_basis_points > MAX_FEE_BASIS_POINTS {
        return Err(ErrorCode::InvalidFeeAmount);
    }
    let authority = ctx.authority;
    let mut processor = PaymentProcessor::blank();
    processor.admin = authority;
    processor.fee_recipient = fee_recipient;
    processor.fee_basis_points = fee_basis_points;
    processor.paused = false;
    processor.version = PROCESSOR_VERSION;
    processor.bump = ctx.bump;
    processor.grant_role(Role::Admin, authority)?;
    processor.grant_role(Role::FeeManager, authority)?;
    processor.grant_role(Role::EmergencyAdmin, authority)?;
    proof {
        assert forall|role: Role| #[trigger] processor.roles.holders(role) == seq![authority] by {
            assert(Seq::<Pubkey>::empty().push(authority) =~= seq![authority]);
        }
        assert forall|role: Role| #[trigger] processor.holds(role, authority) by {
            assert(processor.roles.holders(role)[0] == authority);
        }
    }
    ctx.payment_processor = processor;
    Ok(InitializedEvent {
        admin: authority,
        fee_recipient,
        fee_basis_points,
        timestamp: ctx.timestamp,
    })
}

/// Sets the fee rate. Only a holder of `FeeManager` may; a rate above 10000
/// basis points is refused.
pub fn update_fee(ctx: &mut UpdateFee, new_fee_basis_points: u16) -> (r: Result<
    FeeUpdated,
    ErrorCode,
>)
    ensures
        !old(ctx).payment_processor.holds(Role::FeeManager, old(ctx).authority) ==> r
            == Err::<FeeUpdated, ErrorCode>(ErrorCode::UnauthorizedAccess),
        old(ctx).payment_processor.holds(Role::FeeManager, old(ctx).authority)
            && new_fee_basis_points > MAX_FEE_BASIS_POINTS ==> r == Err::<FeeUpdated, ErrorCode>(
            ErrorCode::InvalidFeeAmount,
        ),
        r is Err ==> *final(ctx) == *old(ctx),
        old(ctx).payment_processor.holds(Role::FeeManager, old(ctx).authority)
            && new_fee_basis_points <= MAX_FEE_BASIS_POINTS ==> {
            &&& r == Ok::<FeeUpdated, ErrorCode>(
                FeeUpdated {
                    admin: old(ctx).authority,
                    new_fee_basis_points,
                    timestamp: old(ctx).timestamp,
                },
            )
            &&& *final(ctx) == (UpdateFee {
                payment_processor: PaymentProcessor {
                    fee_basis_points: new_fee_basis_points,
                    ..old(ctx).payment_processor
                },
                ..*old(ctx)
            })
        },
        old(ctx).payment_processor.wf() ==> final(ctx).payment_processor.wf(),
{
    if !ctx.payment_processor.has_role(Role::FeeManager, ctx.authority) {
        return Err(ErrorCode::UnauthorizedAccess);
    }
    if new_fee_basis_points > MAX_FEE_BASIS_POINTS {
        return Err(ErrorCode::InvalidFeeAmount);
    }
    ctx.payment_processor.fee_basis_points = new_fee_basis_points;
    Ok(FeeUpdated { admin: ctx.authority, new_fee_basis_points, timestamp: ctx.timestamp })
}

/// Sets where fees go. Only a holder of `Admin` may.
pub fn update_fee_recipient(ctx: &mut UpdateFeeRecipient, new_fee_recipient: Pubkey) -> (r:
    Result<FeeRecipientUpdated, ErrorCode>)
    ensures
        !old(ctx).payment_processor.holds(Role::Admin, old(ctx).authority) ==> r == Err::<
            FeeRecipientUpdated,
            ErrorCode,
        >(ErrorCode::UnauthorizedAccess),
        r is Err ==> *final(ctx) == *old(ctx),
        old(ctx).payment_processor.holds(Role::Admin, old(ctx).authority) ==> {
            &&& r == Ok::<FeeRecipientUpdated, ErrorCode>(
                FeeRecipientUpdated {
                    admin: old(ctx).authority,
                    new_fee_recipient,
                    timestamp: old(ctx).timestamp,
                },
            )
            &&& *final(ctx) == (UpdateFeeRecipient {
                payment_processor: PaymentProcessor {
                    fee_recipient: new_fee_recipient,
                    ..old(ctx).payment_processor
                },
                ..*old(ctx)
            })
        },
        old(ctx).payment_processor.wf() ==> final(ctx).payment_processor.wf(),
{
    if !ctx.payment_processor.has_role(Role::Admin, ctx.authority) {
        return Err(ErrorCode::UnauthorizedAccess);
    }
    ctx.payment_processor.fee_recipient = new_fee_recipient;
    Ok(FeeRecipientUpdated { admin: ctx.authority, new_fee_recipient, timestamp: ctx.timestamp })
}

/// Stops payments. Only a holder of `EmergencyAdmin` may.
pub fn pause(ctx: &mut EmergencyAction) -> (r: Result<ContractPaused, ErrorCode>)
    ensures
        !old(ctx).payment_processor.holds(Role::EmergencyAdmin, old(ctx).authority) ==> r
            == Err::<ContractPaused, ErrorCode>(ErrorCode::UnauthorizedAccess),
        r is Err ==> *final(ctx) == *old(ctx),
        old(ctx).payment_processor.holds(Role::EmergencyAdmin, old(ctx).authority) ==> {
            &&& r == Ok::<ContractPaused, ErrorCode>(
                ContractPaused { admin: old(ctx).authority, timestamp: old(ctx).timestamp },
            )
            &&& *final(ctx) == (EmergencyAction {
                payment_processor: PaymentProcessor { paused: true, ..old(ctx).payment_processor },
                ..*old(ctx)
            })
        },
        old(ctx).payment_processor.wf() ==> final(ctx).payment_processor.wf(),
{
    if !ctx.payment_processor.has_role(Role::EmergencyAdmin, ctx.authority) {
        return Err(ErrorCode::UnauthorizedAccess);
    }
    ctx.payment_processor.paused = true;
    Ok(ContractPaused { admin: ctx.authority, timestamp: ctx.timestamp })
}

/// Lets payments through again. Only a holder of `EmergencyAdmin` may.
pub fn unpause(ctx: &mut EmergencyAction) -> (r: Result<ContractUnpaused, ErrorCode>)
    ensures
        !old(ctx).payment_processor.holds(Role::EmergencyAdmin, old(ctx).authority) ==> r
            == Err::<ContractUnpaused, ErrorCode>(ErrorCode::UnauthorizedAccess),
        r is Err ==> *final(ctx) == *old(ctx),
        old(ctx).payment_processor.holds(Role::EmergencyAdmin, old(ctx).authority) ==> {
            &&& r == Ok::<ContractUnpaused, ErrorCode>(
                ContractUnpaused { admin: old(ctx).authority, timestamp: old(ctx).timestamp },
            )
            &&& *final(ctx) == (EmergencyAction {
                payment_processor: PaymentProcessor { paused: false, ..old(ctx).payment_processor },
                ..*old(ctx)
            })
        },
        old(ctx).payment_processor.wf() ==> final(ctx).payment_processor.wf(),
{
    if !ctx.payment_processor.has_role(Role::EmergencyAdmin, ctx.authority) {
        return Err(ErrorCode::UnauthorizedAccess);
    }
    ctx.payment_processor.paused = false;
    Ok(ContractUnpaused { admin: ctx.authority, timestamp: ctx.timestamp })
}

/// Grants the role with code `role` to `account`. Only a holder of `Admin`
/// may; an unknown code is refused; granting a role already held changes
/// nothing.
pub fn grant_role(ctx: &mut RoleManagement, role: u8, account: Pubkey) -> (r: Result<
    RoleGranted,
    ErrorCode,
>)
    ensures
        !old(ctx).payment_processor.holds(Role::Admin, old(ctx).authority) ==> r == Err::<
            RoleGranted,
            ErrorCode,
        >(ErrorCode::UnauthorizedAccess),
        old(ctx).payment_processor.holds(Role::Admin, old(ctx).authority) && Role::of_code(role)
            is None ==> r == Err::<RoleGranted, ErrorCode>(ErrorCode::InvalidRole),
        r is Err ==> *final(ctx) == *old(ctx),
        old(ctx).payment_processor.holds(Role::Admin, old(ctx).authority) ==> match Role::of_code(
            role,
        ) {
            Some(granted) => {
                &&& r == Ok::<RoleGranted, ErrorCode>(
                    RoleGranted {
                        role,
                        account,
                        admin: old(ctx).authority,
                        timestamp: old(ctx).timestamp,
                    },
                )
                &&& final(ctx).payment_processor.is_grant_of(
                    old(ctx).payment_processor,
                    granted,
                    account,
                )
                &&& final(ctx).authority == old(ctx).authority
                &&& final(ctx).timestamp == old(ctx).timestamp
            },
            None => true,
        },
        old(ctx).payment_processor.wf() ==> final(ctx).payment_processor.wf(),
{
    if !ctx.payment_processor.has_role(Role::Admin, ctx.authority) {
        return Err(ErrorCode::UnauthorizedAccess);
    }
    let granted = Role::from_u8(role)?;
    ctx.payment_processor.grant_role(granted, account)?;
    Ok(RoleGranted { role, account, admin: ctx.authority, timestamp: ctx.timestamp })
}

/// Revokes the role with code `role` from `account`. Only a holder of `Admin`
/// may; an unknown code is refused; revoking a role not held changes nothing.
pub fn revoke_role(ctx: &mut RoleManagement, role: u8, account: Pubkey) -> (r: Result<
    RoleRevoked,
    ErrorCode,
>)
    ensures
        !old(ctx).payment_processor.holds(Role::Admin, old(ctx).authority) ==> r == Err::<
            RoleRevoked,
            ErrorCode,
        >(ErrorCode::UnauthorizedAccess),
        old(ctx).payment_processor.holds(Role::Admin, old(ctx).authority) && Role::of_code(role)
            is None ==> r == Err::<RoleRevoked, ErrorCode>(ErrorCode::InvalidRole),
        r is Err ==> *final(ctx) == *old(ctx),
        old(ctx).payment_processor.holds(Role::Admin, old(ctx).authority) ==> match Role::of_code(
            role,
        ) {
            Some(revoked) => {
                &&& r == Ok::<RoleRevoked, ErrorCode>(
                    RoleRevoked {
                        role,
                        account,
                        admin: old(ctx).authority,
                        timestamp: old(ctx).timestamp,
                    },
                )
                &&& final(ctx).payment_processor.is_revoke_of(
                    old(ctx).payment_processor,
                    revoked,
                    account,
                )
                &&& final(ctx).authority == old(ctx).authority
                &&& final(ctx).timestamp == old(ctx).timestamp
            },
            None => true,
        },
        old(ctx).payment_processor.wf() ==> final(ctx).payment_processor.wf(),
{
    if !ctx.payment_processor.has_role(Role::Admin, ctx.authority) {
        return Err(ErrorCode::UnauthorizedAccess);
    }
    let revoked = Role::from_u8(role)?;
    ctx.payment_processor.revoke_role(revoked, account)?;
    Ok(RoleRevoked { role, account, admin: ctx.authority, timestamp: ctx.timestamp })
}

} // verus!
