//! Cost formulas: water usage under each pricing model, waste disposal, and
//! reward redemption.

use vstd::prelude::*;
use crate::fixed_point::{fp_div, fp_mul, FixedPoint, SCALE};
use crate::state::TariffType;

verus! {

/// Cost of `excess` units beyond the entitlement at block rate `block`,
/// for a reservoir at `level` out of `level_max`.
pub open spec fn excess_cost(
    tariff_type: TariffType,
    excess: int,
    block: int,
    level_max: int,
    level: int,
) -> int {
    let charged = fp_mul(excess, block);
    match tariff_type {
        TariffType::UniformIBT => charged,
        TariffType::SeasonalIBT => fp_mul(charged, level_max - level),
        TariffType::SeasonalDBT => fp_mul(charged, 2 * SCALE - fp_div(level, level_max)),
    }
}

/// Cost of using `amount` with `balance` of entitlement left: the entitled
/// part at `rate`, the rest priced by the tariff type.
pub open spec fn total_cost(
    balance: int,
    amount: int,
    rate: int,
    tariff_type: TariffType,
    block: int,
    level_max: int,
    level: int,
) -> int {
    if balance >= amount {
        fp_mul(amount, rate)
    } else {
        fp_mul(balance, rate) + excess_cost(tariff_type, amount - balance, block, level_max, level)
    }
}

/// Every step of `excess_cost` stays within `u128`: no product overflows,
/// no difference goes below zero, no division is by zero.
pub open spec fn excess_cost_fits(
    tariff_type: TariffType,
    excess: int,
    block: int,
    level_max: int,
    level: int,
) -> bool {
    let charged = fp_mul(excess, block);
    &&& excess * block <= u128::MAX
    &&& match tariff_type {
        TariffType::UniformIBT => true,
        TariffType::SeasonalIBT => level <= level_max && charged * (level_max - level) <= u128::MAX,
        TariffType::SeasonalDBT => {
            &&& level_max != 0
            &&& level * SCALE <= u128::MAX
            &&& fp_div(level, level_max) <= 2 * SCALE
            &&& charged * (2 * SCALE - fp_div(level, level_max)) <= u128::MAX
        },
    }
}

/// Every step of `total_cost` stays within `u128`, and the cost fits in
/// `u64`.
pub open spec fn total_cost_fits(
    balance: int,
    amount: int,
    rate: int,
    tariff_type: TariffType,
    block: int,
    level_max: int,
    level: int,
) -> bool {
    if balance >= amount {
        amount * rate <= u128::MAX && fp_mul(amount, rate) <= u64::MAX
    } else {
        &&& balance * rate <= u128::MAX
        &&& excess_cost_fits(tariff_type, amount - balance, block, level_max, level)
        &&& total_cost(balance, amount, rate, tariff_type, block, level_max, level) <= u64::MAX
    }
}

/// Cost of the excess beyond the entitlement, or `None` where a step does
/// not fit.
fn checked_excess_cost(
    tariff_type: TariffType,
    excess: FixedPoint,
    block_rate_fp: FixedPoint,
    level_max: FixedPoint,
    level: FixedPoint,
) -> (r: Option<FixedPoint>)
    ensures
        r == (if excess_cost_fits(tariff_type, excess.raw(), block_rate_fp.raw(), level_max.raw(), level.raw()) {
            Some(FixedPoint(excess_cost(tariff_type, excess.raw(), block_rate_fp.raw(), level_max.raw(), level.raw()) as u128))
        } else {
            None::<FixedPoint>
        }),
{
    let charged = match excess.checked_mul(block_rate_fp) {
        Some(c) => c,
        None => return None,
    };
    match tariff_type {
        TariffType::UniformIBT => Some(charged),
        TariffType::SeasonalIBT => {
            let room = match level_max.checked_sub(level) {
                Some(d) => d,
                None => return None,
            };
            charged.checked_mul(room)
        },
        TariffType::SeasonalDBT => {
            let ratio = match level.checked_div(level_max) {
                Some(q) => q,
                None => return None,
            };
            let two = FixedPoint::one() + FixedPoint::one();
            let factor = match two.checked_sub(ratio) {
                Some(d) => d,
                None => return None,
            };
            charged.checked_mul(factor)
        },
    }
}

/// Cost of using `amount_fp`, or `None` where a step of the computation
/// does not fit or the cost does not fit in `u64`.
pub fn checked_total_cost(
    consumer_watc_balance: FixedPoint,
    amount_fp: FixedPoint,
    water_rate_fp: FixedPoint,
    tariff_type: TariffType,
    block_rate_fp: FixedPoint,
    level_max: FixedPoint,
    level: FixedPoint,
) -> (r: Option<u64>)
    ensures
        r == (if total_cost_fits(consumer_watc_balance.raw(), amount_fp.raw(), water_rate_fp.raw(), tariff_type, block_rate_fp.raw(), level_max.raw(), level.raw()) {
            Some(total_cost(consumer_watc_balance.raw(), amount_fp.raw(), water_rate_fp.raw(), tariff_type, block_rate_fp.raw(), level_max.raw(), level.raw()) as u64)
        } else {
            None::<u64>
        }),
{
    let cost = if consumer_watc_balance >= amount_fp {
        match amount_fp.checked_mul(water_rate_fp) {
            Some(c) => c,
            None => return None,
        }
    } else {
        let base_cost = match consumer_watc_balance.checked_mul(water_rate_fp) {
            Some(c) => c,
            None => return None,
        };
        let excess = amount_fp - consumer_watc_balance;
        let extra_cost = match checked_excess_cost(tariff_type, excess, block_rate_fp, level_max, level) {
            Some(c) => c,
            None => return None,
        };
        match base_cost.checked_add(extra_cost) {
            Some(c) => c,
            None => return None,
        }
    };
    cost.checked_to_u64()
}

/// Cost of using `amount_fp` with `consumer_watc_balance` of entitlement
/// left: within the entitlement at the water rate, beyond it at the block
/// rate as the tariff type adjusts it.
pub fn calculate_total_cost(
    consumer_watc_balance: FixedPoint,
    amount_fp: FixedPoint,
    water_rate_fp: FixedPoint,
    tariff_type: TariffType,
    block_rate_fp: FixedPoint,
    level_max: FixedPoint,
    level: FixedPoint,
) -> (r: u64)
    requires
        total_cost_fits(consumer_watc_balance.raw(), amount_fp.raw(), water_rate_fp.raw(), tariff_type, block_rate_fp.raw(), level_max.raw(), level.raw()),
    ensures
        r == total_cost(consumer_watc_balance.raw(), amount_fp.raw(), water_rate_fp.raw(), tariff_type, block_rate_fp.raw(), level_max.raw(), level.raw()),
{
    match checked_total_cost(consumer_watc_balance, amount_fp, water_rate_fp, tariff_type, block_rate_fp, level_max, level) {
        Some(cost) => cost,
        None => 0,
    }
}

/// The rescaled product of two integer amounts as an integer amount, or
/// `None` where it does not fit in `u64`. Prices waste disposal
/// (amount times rate) and rewards (balance times conversion factor).
pub fn checked_scaled_product(a: u64, b: u64) -> (r: Option<u64>)
    ensures
        r == (if fp_mul(a as int, b as int) <= u64::MAX {
            Some(fp_mul(a as int, b as int) as u64)
        } else {
            None::<u64>
        }),
{
    assert(a as int * b as int <= u128::MAX) by (nonlinear_arith)
        requires
            a <= u64::MAX,
            b <= u64::MAX,
    ;
    let product = FixedPoint::from(a) * FixedPoint::from(b);
    product.checked_to_u64()
}

} // verus!
