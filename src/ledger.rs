use vstd::prelude::*;

use crate::error::ErrorCode;

verus! {

/// The balances after moving `amount` from `from` to `to`, or why the move is refused:
/// the source must cover the amount, and the destination must not exceed `u64::MAX`.
pub open spec fn transfer_result(from: u64, to: u64, amount: u64) -> Result<(u64, u64), ErrorCode> {
    if from < amount {
        Err(ErrorCode::InsufficientFunds)
    } else if to as int + amount as int > u64::MAX as int {
        Err(ErrorCode::MathOverflow)
    } else {
        Ok(((from - amount) as u64, (to + amount) as u64))
    }
}

/// Moves `amount` between two custodial balances, or changes neither.
pub fn transfer(from: &mut u64, to: &mut u64, amount: u64) -> (r: Result<(), ErrorCode>)
    ensures
        match transfer_result(*old(from), *old(to), amount) {
            Ok((f, t)) => r is Ok && *final(from) == f && *final(to) == t,
            Err(e) => r == Err::<(), ErrorCode>(e) && *final(from) == *old(from) && *final(to) == *old(to),
        },
        r is Ok ==> *final(from) + *final(to) == *old(from) + *old(to),
{
    if *from < amount {
        return Err(ErrorCode::InsufficientFunds);
    }
    if *to > u64::MAX - amount {
        return Err(ErrorCode::MathOverflow);
    }
    *from = *from - amount;
    *to = *to + amount;
    Ok(())
}

} // verus!
