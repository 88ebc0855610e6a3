use vstd::prelude::*;
use crate::error::ErrorCode;

verus! {

/// The largest fee rate: 10000 basis points, that is 100%.
pub const MAX_FEE_BASIS_POINTS: u16 = 10000;

/// Basis points in a whole.
pub const BASIS_POINTS_DENOMINATOR: u64 = 10000;

/// The fee on `amount` at `fee_basis_points`, rounded down.
pub open spec fn fee_of(amount: int, fee_basis_points: int) -> int {
    amount * fee_basis_points / 10000
}

/// Whether the fee on `amount` can be computed in 64 bits and leaves a
/// net amount that is not negative.
pub open spec fn fee_computable(amount: u64, fee_basis_points: u16) -> bool {
    &&& amount * fee_basis_points <= u64::MAX
    &&& fee_of(amount as int, fee_basis_points as int) <= amount
}

/// At a rate of at most 100% the fee never exceeds the amount.
pub proof fn lemma_fee_within_amount(amount: int, fee_basis_points: int)
    requires
        0 <= amount,
        0 <= fee_basis_points <= 10000,
    ensures
        0 <= fee_of(amount, fee_basis_points) <= amount,
{
    assert(0 <= amount * fee_basis_points <= amount * 10000) by (nonlinear_arith)
        requires
            0 <= amount,
            0 <= fee_basis_points <= 10000,
    ;
}

/// Splits `amount` into the fee and the net amount that is left.
/// Fails with `MathOverflow` where the product overflows 64 bits or the fee
/// would exceed the amount; at a rate of at most 100% only the first can happen.
pub fn compute_fee(amount: u64, fee_basis_points: u16) -> (r: Result<(u64, u64), ErrorCode>)
    ensures
        r is Ok <==> fee_computable(amount, fee_basis_points),
        r matches Ok((fee, net)) ==> {
            &&& fee == fee_of(amount as int, fee_basis_points as int)
            &&& net == amount - fee
            &&& fee + net == amount
        },
        r matches Err(e) ==> e == ErrorCode::MathOverflow,
        fee_basis_points <= MAX_FEE_BASIS_POINTS && amount * fee_basis_points <= u64::MAX
            ==> r is Ok,
{
    proof {
        if fee_basis_points <= MAX_FEE_BASIS_POINTS {
            lemma_fee_within_amount(amount as int, fee_basis_points as int);
        }
    }
    let product = match amount.checked_mul(fee_basis_points as u64) {
        Some(p) => p,
        None => return Err(ErrorCode::MathOverflow),
    };
    let fee = product / BASIS_POINTS_DENOMINATOR;
    let net = match amount.checked_sub(fee) {
        Some(n) => n,
        None => return Err(ErrorCode::MathOverflow),
    };
    Ok((fee, net))
}

} // verus!
