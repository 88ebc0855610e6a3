use perenapay::fee::{BASIS_POINTS_DENOMINATOR, MAX_FEE_BASIS_POINTS};
use perenapay::instructions::validate_accounts;
use perenapay::{
    compute_fee, initialize, pause, process_payment, unpause, EmergencyAction, ErrorCode,
    Initialize, PaymentProcessor, ProcessPayment, Pubkey, Role, TokenAccount, Transfer,
};

fn key(n: u8) -> Pubkey {
    Pubkey::new_from_array([n; 32])
}

fn setup(admin: Pubkey, fee_basis_points: u16, recipient: Pubkey) -> PaymentProcessor {
    let mut ctx = Initialize::new(admin, 254, 1_000);
    initialize(&mut ctx, fee_basis_points, recipient).unwrap();
    ctx.payment_processor
}

fn payment_ctx(processor: PaymentProcessor, customer: Pubkey, merchant: Pubkey) -> ProcessPayment {
    let mint = key(50);
    let processor_key = key(60);
    let recipient = processor.fee_recipient;
    ProcessPayment {
        customer,
        merchant,
        customer_token_account: TokenAccount { key: key(11), mint, owner: customer },
        payment_processor_token_account: TokenAccount { key: key(12), mint, owner: processor_key },
        merchant_token_account: TokenAccount { key: key(13), mint, owner: merchant },
        fee_recipient_token_account: TokenAccount { key: key(14), mint, owner: recipient },
        payment_processor: processor,
        payment_processor_key: processor_key,
        timestamp: 2_000,
    }
}

fn assert_transfer(t: &Transfer, from: Pubkey, to: Pubkey, authority: Pubkey, amount: u64) {
    assert_eq!(t.from, from);
    assert_eq!(t.to, to);
    assert_eq!(t.authority, authority);
    assert_eq!(t.amount, amount);
}

#[test]
fn fee_split_exact_values() {
    assert_eq!(compute_fee(10_000, 250), Ok((250, 9_750)));
    assert_eq!(compute_fee(999, 250), Ok((24, 975)));
    assert_eq!(compute_fee(1, 9_999), Ok((0, 1)));
    assert_eq!(compute_fee(7, 0), Ok((0, 7)));
    assert_eq!(compute_fee(7, 10_000), Ok((7, 0)));
    assert_eq!(MAX_FEE_BASIS_POINTS, 10_000);
    assert_eq!(BASIS_POINTS_DENOMINATOR, 10_000);
}

#[test]
fn fee_split_sums_to_amount() {
    for amount in [1u64, 2, 3, 99, 10_001, 123_456_789, 1_844_674_407_370_955] {
        for bps in [0u16, 1, 250, 3_333, 9_999, 10_000] {
            let (fee, net) = compute_fee(amount, bps).unwrap();
            assert_eq!(fee + net, amount);
            assert_eq!(fee, amount * bps as u64 / 10_000);
        }
    }
}

#[test]
fn fee_multiplication_overflow() {
    assert_eq!(compute_fee(u64::MAX, 2), Err(ErrorCode::MathOverflow));
    assert_eq!(compute_fee(u64::MAX / 10_000 + 1, 10_000), Err(ErrorCode::MathOverflow));
    assert_eq!(compute_fee(u64::MAX, 1), Ok((u64::MAX / 10_000, u64::MAX - u64::MAX / 10_000)));
}

#[test]
fn fee_above_amount_is_underflow() {
    assert_eq!(compute_fee(100, 20_000), Err(ErrorCode::MathOverflow));
    assert_eq!(compute_fee(1, 10_001), Ok((1, 0)));
}

#[test]
fn initialize_then_pay_scenario() {
    let admin = key(1);
    let recipient = key(2);
    let customer = key(3);
    let merchant = key(4);
    let reference = key(9);
    let processor = setup(admin, 250, recipient);
    assert_eq!(processor.fee_basis_points, 250);
    assert!(!processor.paused);
    assert_eq!(processor.version, 1);
    assert_eq!(processor.admin, admin);
    assert_eq!(processor.fee_recipient, recipient);
    assert_eq!(processor.bump, 254);
    for role in [Role::Admin, Role::FeeManager, Role::EmergencyAdmin] {
        assert!(processor.has_role(role, admin));
        assert_eq!(processor.roles.count(role), 1);
    }

    let ctx = payment_ctx(processor, customer, merchant);
    let s = process_payment(&ctx, 10_000, reference, Some(String::from("order 17"))).unwrap();
    assert_transfer(&s.collect, key(11), key(12), customer, 10_000);
    assert_transfer(&s.fee_transfer, key(12), key(14), key(60), 250);
    assert_transfer(&s.net_transfer, key(12), key(13), key(60), 9_750);
    let legs = s.transfers();
    assert_eq!(legs.len(), 3);
    assert_eq!(legs[0].amount, 10_000);
    assert_eq!(legs[1].amount, 250);
    assert_eq!(legs[2].amount, 9_750);
    for (customer_, merchant_, amount, fee, reference_, timestamp) in [
        (s.started.customer, s.started.merchant, s.started.amount, s.started.fee,
            s.started.reference, s.started.timestamp),
        (s.processed.customer, s.processed.merchant, s.processed.amount, s.processed.fee,
            s.processed.reference, s.processed.timestamp),
    ] {
        assert_eq!(customer_, customer);
        assert_eq!(merchant_, merchant);
        assert_eq!(amount, 10_000);
        assert_eq!(fee, 250);
        assert_eq!(reference_, reference);
        assert_eq!(timestamp, 2_000);
    }
}

#[test]
fn initialize_records_event() {
    let mut ctx = Initialize::new(key(1), 7, 555);
    let e = initialize(&mut ctx, 10_000, key(2)).unwrap();
    assert_eq!(e.admin, key(1));
    assert_eq!(e.fee_recipient, key(2));
    assert_eq!(e.fee_basis_points, 10_000);
    assert_eq!(e.timestamp, 555);
    assert_eq!(ctx.payment_processor.bump, 7);
}

#[test]
fn initialize_rejects_fee_above_max() {
    let mut ctx = Initialize::new(key(1), 7, 555);
    assert_eq!(initialize(&mut ctx, 10_001, key(2)).unwrap_err(), ErrorCode::InvalidFeeAmount);
    assert_eq!(ctx.payment_processor.version, 0);
    assert!(!ctx.payment_processor.has_role(Role::Admin, key(1)));
    let mut ctx = Initialize::new(key(1), 7, 555);
    assert_eq!(initialize(&mut ctx, 15_000, key(2)).unwrap_err(), ErrorCode::InvalidFeeAmount);
}

#[test]
fn payment_while_paused_fails() {
    let admin = key(1);
    let processor = setup(admin, 250, key(2));
    let mut em = EmergencyAction { authority: admin, payment_processor: processor, timestamp: 3 };
    let e = pause(&mut em).unwrap();
    assert_eq!(e.admin, admin);
    assert_eq!(e.timestamp, 3);
    assert!(em.payment_processor.paused);

    let ctx = payment_ctx(em.payment_processor, key(3), key(4));
    assert_eq!(process_payment(&ctx, 10_000, key(9), None).unwrap_err(), ErrorCode::ContractPaused);
    assert_eq!(process_payment(&ctx, 0, key(9), None).unwrap_err(), ErrorCode::ContractPaused);

    let mut em = EmergencyAction { authority: admin, payment_processor: ctx.payment_processor, timestamp: 4 };
    let e = unpause(&mut em).unwrap();
    assert_eq!(e.timestamp, 4);
    assert!(!em.payment_processor.paused);
    let ctx = payment_ctx(em.payment_processor, key(3), key(4));
    let s = process_payment(&ctx, 10_000, key(9), None).unwrap();
    assert_eq!(s.fee_transfer.amount, 250);
    assert_eq!(s.net_transfer.amount, 9_750);
}

#[test]
fn zero_amount_fails() {
    let processor = setup(key(1), 250, key(2));
    let ctx = payment_ctx(processor, key(3), key(4));
    assert_eq!(process_payment(&ctx, 0, key(9), None).unwrap_err(), ErrorCode::InvalidAmount);
}

#[test]
fn payment_overflow_fails() {
    let processor = setup(key(1), 10_000, key(2));
    let ctx = payment_ctx(processor, key(3), key(4));
    assert_eq!(process_payment(&ctx, u64::MAX, key(9), None).unwrap_err(), ErrorCode::MathOverflow);
    let s = process_payment(&ctx, 5, key(9), None).unwrap();
    assert_eq!(s.fee_transfer.amount, 5);
    assert_eq!(s.net_transfer.amount, 0);
}

#[test]
fn wrong_token_owner_fails() {
    let processor = setup(key(1), 250, key(2));
    let mut ctx = payment_ctx(processor, key(3), key(4));
    ctx.customer_token_account.owner = key(40);
    assert_eq!(validate_accounts(&ctx), Err(ErrorCode::InvalidTokenOwner));
    assert_eq!(process_payment(&ctx, 100, key(9), None).unwrap_err(), ErrorCode::InvalidTokenOwner);
    ctx.customer_token_account.owner = key(3);
    ctx.payment_processor_token_account.owner = key(40);
    assert_eq!(process_payment(&ctx, 100, key(9), None).unwrap_err(), ErrorCode::InvalidTokenOwner);
    ctx.payment_processor_token_account.owner = key(60);
    ctx.merchant_token_account.owner = key(40);
    assert_eq!(process_payment(&ctx, 100, key(9), None).unwrap_err(), ErrorCode::InvalidTokenOwner);
    ctx.merchant_token_account.owner = key(4);
    ctx.fee_recipient_token_account.owner = key(40);
    assert_eq!(process_payment(&ctx, 100, key(9), None).unwrap_err(), ErrorCode::InvalidTokenOwner);
    ctx.fee_recipient_token_account.owner = key(2);
    assert_eq!(validate_accounts(&ctx), Ok(()));
}

#[test]
fn wrong_token_mint_fails() {
    let processor = setup(key(1), 250, key(2));
    let mut ctx = payment_ctx(processor, key(3), key(4));
    ctx.payment_processor_token_account.mint = key(51);
    assert_eq!(process_payment(&ctx, 100, key(9), None).unwrap_err(), ErrorCode::InvalidTokenMint);
    ctx.payment_processor_token_account.mint = key(50);
    ctx.merchant_token_account.mint = key(51);
    assert_eq!(process_payment(&ctx, 100, key(9), None).unwrap_err(), ErrorCode::InvalidTokenMint);
    ctx.merchant_token_account.mint = key(50);
    ctx.fee_recipient_token_account.mint = key(51);
    assert_eq!(validate_accounts(&ctx), Err(ErrorCode::InvalidTokenMint));
}

#[test]
fn pubkey_equality_and_bytes() {
    let mut bytes = [7u8; 32];
    let a = Pubkey::new_from_array(bytes);
    bytes[31] = 8;
    let b = Pubkey::new_from_array(bytes);
    assert!(a != b);
    assert!(a == Pubkey::new_from_array([7u8; 32]));
    assert_eq!(b.to_bytes()[31], 8);
    assert_eq!(Pubkey::zeroed().to_bytes(), [0u8; 32]);
}
