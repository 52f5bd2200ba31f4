use vstd::prelude::*;

use crate::account::{with_amount, AccountId, TokenAccount};
use crate::error::ErrorCode;

verus! {

/// Why moving `amount` from `from` to `to` on the authority of `authority` is refused, if it is.
pub open spec fn transfer_failure(from: TokenAccount, to: TokenAccount, amount: u64, authority: AccountId) -> Option<ErrorCode> {
    if from.mint != to.mint {
        Some(ErrorCode::MintMismatch)
    } else if from.owner != authority {
        Some(ErrorCode::Unauthorized)
    } else if from.amount < amount {
        Some(ErrorCode::InsufficientBalance)
    } else if to.amount + amount > u64::MAX {
        Some(ErrorCode::ArithmeticOverflow)
    } else {
        None
    }
}

/// The source account after a transfer of `amount` out of it.
pub open spec fn debited(a: TokenAccount, amount: u64) -> TokenAccount {
    with_amount(a, (a.amount - amount) as u64)
}

/// The destination account after a transfer of `amount` into it.
pub open spec fn credited(a: TokenAccount, amount: u64) -> TokenAccount {
    with_amount(a, (a.amount + amount) as u64)
}

/// One debit and one credit of the same asset, authorized by the source's owner. On failure
/// neither account changes.
pub fn transfer(from: &mut TokenAccount, to: &mut TokenAccount, amount: u64, authority: &AccountId) -> (r: Result<(), ErrorCode>)
    ensures
        match transfer_failure(*old(from), *old(to), amount, *authority) {
            Some(e) => r == Err::<(), ErrorCode>(e) && *final(from) == *old(from) && *final(to) == *old(to),
            None => r is Ok && *final(from) == debited(*old(from), amount) && *final(to) == credited(*old(to), amount),
        },
{
    if !from.mint.same(&to.mint) {
        return Err(ErrorCode::MintMismatch);
    }
    if !from.owner.same(authority) {
        return Err(ErrorCode::Unauthorized);
    }
    if from.amount < amount {
        return Err(ErrorCode::InsufficientBalance);
    }
    if to.amount > u64::MAX - amount {
        return Err(ErrorCode::ArithmeticOverflow);
    }
    from.amount = from.amount - amount;
    to.amount = to.amount + amount;
    Ok(())
}

} // verus!
