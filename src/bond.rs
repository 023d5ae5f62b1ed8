//! Bond sizing: the token amount whose market value equals a USD requirement
//! at a fixed-point price. Unlike the quorum curve, every overflow here is an
//! error: a wrong bond size must never come out silently.
use vstd::prelude::*;
use crate::fixed_point::{SCALE, ArithmeticError, mul_div_checked};

verus! {

/// The bond of a community-tier application, in USD.
pub const TIER_1_BUILDER_BOND_USD: u64 = 300;

/// Why a bond could not be sized.
#[derive(Debug, Clone, Copy, PartialEq, Eq, Structural)]
pub enum BondError {
    /// The price is zero.
    PriceUnavailable,
    /// `usd * SCALE * SCALE` does not fit in a `u128`.
    ArithmeticOverflow,
    /// The token amount does not fit in a `u64`.
    ConversionError,
}

/// The unscaled token amount: `floor(floor(usd * SCALE^2 / price) / SCALE)`.
pub open spec fn bond_tokens(usd: int, price: int) -> int {
    usd * SCALE * SCALE / price / (SCALE as int)
}

/// The outcome of sizing a bond of `usd` at `price`.
pub open spec fn bond_result(usd: int, price: int) -> Result<u64, BondError> {
    if price == 0 {
        Err(BondError::PriceUnavailable)
    } else if usd * SCALE * SCALE > u128::MAX {
        Err(BondError::ArithmeticOverflow)
    } else if bond_tokens(usd, price) > u64::MAX {
        Err(BondError::ConversionError)
    } else {
        Ok(bond_tokens(usd, price) as u64)
    }
}

/// The number of tokens that a bond of `usd` dollars takes at a price of
/// `price_scaled` (USD per token, scaled by `SCALE`).
pub fn bond_amount_for(usd: u64, price_scaled: u128) -> (r: Result<u64, BondError>)
    ensures
        r == bond_result(usd as int, price_scaled as int),
{
    if price_scaled == 0 {
        return Err(BondError::PriceUnavailable);
    }
    let usd_scaled: u128 = usd as u128 * SCALE;
    assert(usd as int * SCALE <= u64::MAX as int * SCALE) by (nonlinear_arith)
        requires usd <= u64::MAX;
    let tokens_scaled = match mul_div_checked(usd_scaled, SCALE, price_scaled) {
        Ok(v) => v,
        Err(ArithmeticError::Overflow) => {
            return Err(BondError::ArithmeticOverflow);
        },
        Err(ArithmeticError::DivisionByZero) => {
            return Err(BondError::PriceUnavailable);
        },
    };
    let tokens = tokens_scaled / SCALE;
    if tokens > u64::MAX as u128 {
        Err(BondError::ConversionError)
    } else {
        Ok(tokens as u64)
    }
}

/// The number of tokens of the community-tier bond at `fst_price_in_usd_scaled`.
pub fn get_builder_bond_amount(fst_price_in_usd_scaled: u128) -> (r: Result<u64, BondError>)
    ensures
        r == bond_result(TIER_1_BUILDER_BOND_USD as int, fst_price_in_usd_scaled as int),
        fst_price_in_usd_scaled == 0 ==> r == Err::<u64, BondError>(BondError::PriceUnavailable),
        fst_price_in_usd_scaled > 0 && bond_tokens(300, fst_price_in_usd_scaled as int) <= u64::MAX
            ==> r == Ok::<u64, BondError>(bond_tokens(300, fst_price_in_usd_scaled as int) as u64),
        fst_price_in_usd_scaled > 0 && bond_tokens(300, fst_price_in_usd_scaled as int) > u64::MAX
            ==> r == Err::<u64, BondError>(BondError::ConversionError),
{
    let r = bond_amount_for(TIER_1_BUILDER_BOND_USD, fst_price_in_usd_scaled);
    r
}

} // verus!
