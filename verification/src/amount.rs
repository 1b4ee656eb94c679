//! Amounts in the 8-decimal fixed-point base unit (satoshis).

use vstd::prelude::*;

verus! {

/// Satoshis per coin: the unit of the 8-decimal fixed-point representation.
pub const COIN_SAT: u64 = 100_000_000;

/// Mathematical absolute value of a signed satoshi amount.
pub open spec fn abs_fee(f: int) -> int {
    if f < 0 {
        -f
    } else {
        f
    }
}

/// Absolute value of a wallet-reported fee. Wallets report the fee of a
/// funding transaction as negative from the spender's perspective; the
/// persisted record carries its magnitude.
pub fn fee_abs(fee_sat: i64) -> (r: u64)
    ensures
        r as int == abs_fee(fee_sat as int),
{
    if fee_sat == i64::MIN {
        9_223_372_036_854_775_808u64
    } else if fee_sat < 0 {
        (-fee_sat) as u64
    } else {
        fee_sat as u64
    }
}

} // verus!
