//! The engine's operations. Each validates its inputs first and then either
//! changes its records and returns its settlement instructions, or returns
//! an error and changes nothing.

use vstd::prelude::*;
use crate::billing::{checked_scaled_product, checked_total_cost, total_cost, total_cost_fits};
use crate::error::CustomError;
use crate::fixed_point::{fp_mul, FixedPoint};
use crate::key::RecordKey;
use crate::settlement::{
    capacity_debit, credit_of, debit_of, push_capacity_debit, Balance, SettlementInstruction,
};
use crate::state::{Consumer, Reservoir, Tariff, TariffType, Tokens};

verus! {

/// Creates a tariff. Both rates must be positive.
pub fn initialize_tariff(
    tariff_key: RecordKey,
    water_rate: u64,
    waste_rate: u64,
    tariff_type: TariffType,
) -> (r: Result<Tariff, CustomError>)
    ensures
        water_rate == 0 || waste_rate == 0 ==> r == Err::<Tariff, CustomError>(CustomError::InvalidRate),
        water_rate > 0 && waste_rate > 0 ==> r == Ok::<Tariff, CustomError>(
            Tariff { water_rate, waste_rate, tariff_type, tariff_key },
        ),
        r matches Ok(t) ==> t.wf(),
{
    if water_rate == 0 || waste_rate == 0 {
        return Err(CustomError::InvalidRate);
    }
    Ok(Tariff { water_rate, waste_rate, tariff_type, tariff_key })
}

/// Replaces the rates of the tariff named `tariff_key`. Both rates must be
/// positive.
pub fn update_tariff_rates(
    tariff: &mut Tariff,
    tariff_key: RecordKey,
    water_rate: u64,
    waste_rate: u64,
) -> (r: Result<(), CustomError>)
    ensures
        tariff_key != old(tariff).tariff_key ==> r == Err::<(), CustomError>(CustomError::Unauthorized),
        tariff_key == old(tariff).tariff_key && (water_rate == 0 || waste_rate == 0) ==> r == Err::<(), CustomError>(CustomError::InvalidRate),
        r is Ok <==> tariff_key == old(tariff).tariff_key && water_rate > 0 && waste_rate > 0,
        r is Err ==> *final(tariff) == *old(tariff),
        r is Ok ==> *final(tariff) == (Tariff { water_rate, waste_rate, ..*old(tariff) }),
        r is Ok ==> final(tariff).wf(),
{
    if tariff_key != tariff.tariff_key {
        return Err(CustomError::Unauthorized);
    }
    if water_rate == 0 || waste_rate == 0 {
        return Err(CustomError::InvalidRate);
    }
    tariff.water_rate = water_rate;
    tariff.waste_rate = waste_rate;
    Ok(())
}

/// Replaces the pricing model of the tariff named `tariff_key`.
pub fn update_tariff_type(
    tariff: &mut Tariff,
    tariff_key: RecordKey,
    tariff_type: TariffType,
) -> (r: Result<(), CustomError>)
    ensures
        tariff_key != old(tariff).tariff_key ==> r == Err::<(), CustomError>(CustomError::Unauthorized)
            && *final(tariff) == *old(tariff),
        tariff_key == old(tariff).tariff_key ==> r is Ok
            && *final(tariff) == (Tariff { tariff_type, ..*old(tariff) }),
        old(tariff).wf() ==> final(tariff).wf(),
{
    if tariff_key != tariff.tariff_key {
        return Err(CustomError::Unauthorized);
    }
    tariff.tariff_type = tariff_type;
    Ok(())
}

/// The first rule that reservoir values break, if any: a zero capacity; a
/// current or minimum level outside `(0, capacity]`; a zero waste bound or
/// factor.
pub open spec fn reservoir_values_error(
    current_level: u64,
    capacity: u64,
    max_allowable_waste: u64,
    min_allowable_level: u64,
    aqc_conversion_factor: u64,
    aqc_discount_factor: u64,
) -> Option<CustomError> {
    if capacity == 0 {
        Some(CustomError::InvalidReservoirCapacity)
    } else if current_level == 0 || current_level > capacity || min_allowable_level == 0
        || min_allowable_level > capacity {
        Some(CustomError::InvalidReservoirLevel)
    } else if max_allowable_waste == 0 || aqc_conversion_factor == 0 || aqc_discount_factor == 0 {
        Some(CustomError::InvalidAmount)
    } else {
        None
    }
}

/// Checks reservoir values against the rules of `reservoir_values_error`.
fn validate_reservoir_values(
    current_level: u64,
    capacity: u64,
    max_allowable_waste: u64,
    min_allowable_level: u64,
    aqc_conversion_factor: u64,
    aqc_discount_factor: u64,
) -> (r: Result<(), CustomError>)
    ensures
        r == (match reservoir_values_error(current_level, capacity, max_allowable_waste, min_allowable_level, aqc_conversion_factor, aqc_discount_factor) {
            Some(e) => Err::<(), CustomError>(e),
            None => Ok(()),
        }),
{
    if capacity == 0 {
        return Err(CustomError::InvalidReservoirCapacity);
    }
    if current_level == 0 || current_level > capacity || min_allowable_level == 0
        || min_allowable_level > capacity {
        return Err(CustomError::InvalidReservoirLevel);
    }
    if max_allowable_waste == 0 || aqc_conversion_factor == 0 || aqc_discount_factor == 0 {
        return Err(CustomError::InvalidAmount);
    }
    Ok(())
}

/// Creates a reservoir from values that keep its invariant.
pub fn initialize_reservoir(
    reservoir_key: RecordKey,
    current_level: u64,
    capacity: u64,
    max_allowable_waste: u64,
    min_allowable_level: u64,
    aqc_conversion_factor: u64,
    aqc_discount_factor: u64,
) -> (r: Result<Reservoir, CustomError>)
    ensures
        r == (match reservoir_values_error(current_level, capacity, max_allowable_waste, min_allowable_level, aqc_conversion_factor, aqc_discount_factor) {
            Some(e) => Err::<Reservoir, CustomError>(e),
            None => Ok(Reservoir {
                current_level,
                capacity,
                max_allowable_waste,
                min_allowable_level,
                aqc_conversion_factor,
                aqc_discount_factor,
                reservoir_key,
            }),
        }),
        current_level == 0 || current_level > capacity || min_allowable_level == 0
            || min_allowable_level > capacity ==> r is Err,
        r matches Ok(res) ==> res.wf(),
{
    validate_reservoir_values(current_level, capacity, max_allowable_waste, min_allowable_level, aqc_conversion_factor, aqc_discount_factor)?;
    Ok(Reservoir {
        current_level,
        capacity,
        max_allowable_waste,
        min_allowable_level,
        aqc_conversion_factor,
        aqc_discount_factor,
        reservoir_key,
    })
}

/// Replaces the levels and factors of the reservoir named `reservoir_key`
/// with values that keep its invariant.
pub fn update_reservoir(
    reservoir: &mut Reservoir,
    reservoir_key: RecordKey,
    current_level: u64,
    capacity: u64,
    max_allowable_waste: u64,
    min_allowable_level: u64,
    aqc_conversion_factor: u64,
    aqc_discount_factor: u64,
) -> (r: Result<(), CustomError>)
    ensures
        reservoir_key != old(reservoir).reservoir_key ==> r == Err::<(), CustomError>(CustomError::Unauthorized),
        reservoir_key == old(reservoir).reservoir_key ==> r == (match reservoir_values_error(current_level, capacity, max_allowable_waste, min_allowable_level, aqc_conversion_factor, aqc_discount_factor) {
            Some(e) => Err::<(), CustomError>(e),
            None => Ok(()),
        }),
        current_level == 0 || current_level > capacity || min_allowable_level == 0
            || min_allowable_level > capacity ==> r is Err,
        r is Err ==> *final(reservoir) == *old(reservoir),
        r is Ok ==> *final(reservoir) == (Reservoir {
            current_level,
            capacity,
            max_allowable_waste,
            min_allowable_level,
            aqc_conversion_factor,
            aqc_discount_factor,
            reservoir_key: old(reservoir).reservoir_key,
        }) && final(reservoir).wf(),
{
    if reservoir_key != reservoir.reservoir_key {
        return Err(CustomError::Unauthorized);
    }
    validate_reservoir_values(current_level, capacity, max_allowable_waste, min_allowable_level, aqc_conversion_factor, aqc_discount_factor)?;
    reservoir.current_level = current_level;
    reservoir.capacity = capacity;
    reservoir.max_allowable_waste = max_allowable_waste;
    reservoir.min_allowable_level = min_allowable_level;
    reservoir.aqc_conversion_factor = aqc_conversion_factor;
    reservoir.aqc_discount_factor = aqc_discount_factor;
    Ok(())
}

/// Registers a consumer assigned to the named tariff and reservoir, and
/// credits its capacity balances with the contracted entitlements. Both
/// entitlements and the block rate must be positive.
pub fn register_consumer(
    tariff_key: RecordKey,
    reservoir_key: RecordKey,
    contracted_capacity: u64,
    contracted_waste_capacity: u64,
    block_rate: u64,
) -> (r: Result<(Consumer, Vec<SettlementInstruction>), CustomError>)
    ensures
        contracted_capacity == 0 || contracted_waste_capacity == 0 ==> r matches Err(
            CustomError::InvalidCapacity,
        ),
        contracted_capacity > 0 && contracted_waste_capacity > 0 && block_rate == 0 ==> r matches Err(
            CustomError::InvalidRate,
        ),
        r is Ok <==> contracted_capacity > 0 && contracted_waste_capacity > 0 && block_rate > 0,
        r matches Ok((consumer, instructions)) ==> {
            &&& consumer == Consumer {
                contracted_capacity,
                contracted_waste_capacity,
                block_rate,
                assigned_tariff: tariff_key,
                assigned_reservoir: reservoir_key,
            }
            &&& consumer.wf()
            &&& instructions@ == seq![
                credit_of(Balance::WaterCapacityToken, contracted_capacity),
                credit_of(Balance::WasteCapacityToken, contracted_waste_capacity),
            ]
        },
{
    if contracted_capacity == 0 || contracted_waste_capacity == 0 {
        return Err(CustomError::InvalidCapacity);
    }
    if block_rate == 0 {
        return Err(CustomError::InvalidRate);
    }
    let consumer = Consumer {
        contracted_capacity,
        contracted_waste_capacity,
        block_rate,
        assigned_tariff: tariff_key,
        assigned_reservoir: reservoir_key,
    };
    let mut instructions: Vec<SettlementInstruction> = Vec::new();
    instructions.push(SettlementInstruction::credit(Balance::WaterCapacityToken, contracted_capacity));
    instructions.push(SettlementInstruction::credit(Balance::WasteCapacityToken, contracted_waste_capacity));
    assert(instructions@ =~= seq![
        credit_of(Balance::WaterCapacityToken, contracted_capacity),
        credit_of(Balance::WasteCapacityToken, contracted_waste_capacity),
    ]);
    Ok((consumer, instructions))
}

/// Resets a consumer's entitlements: the capacity balances, which hold
/// `watc_balance` and `wstc_balance`, are debited in full and credited with
/// the new contracted amounts. The keys must be the consumer's assignment.
pub fn update_consumer(
    consumer: &mut Consumer,
    tariff_key: RecordKey,
    reservoir_key: RecordKey,
    contracted_capacity: u64,
    contracted_waste_capacity: u64,
    watc_balance: u64,
    wstc_balance: u64,
) -> (r: Result<Vec<SettlementInstruction>, CustomError>)
    ensures
        tariff_key != old(consumer).assigned_tariff || reservoir_key != old(consumer).assigned_reservoir
            ==> r matches Err(CustomError::Unauthorized),
        tariff_key == old(consumer).assigned_tariff && reservoir_key == old(consumer).assigned_reservoir
            && (contracted_capacity == 0 || contracted_waste_capacity == 0) ==> r matches Err(
            CustomError::InvalidCapacity,
        ),
        r is Ok <==> tariff_key == old(consumer).assigned_tariff && reservoir_key == old(consumer).assigned_reservoir
            && contracted_capacity > 0 && contracted_waste_capacity > 0,
        r is Err ==> *final(consumer) == *old(consumer),
        r matches Ok(instructions) ==> {
            &&& *final(consumer) == (Consumer {
                contracted_capacity,
                contracted_waste_capacity,
                ..*old(consumer)
            })
            &&& instructions@ == capacity_debit(Balance::WaterCapacityToken, watc_balance, watc_balance)
                + seq![credit_of(Balance::WaterCapacityToken, contracted_capacity)]
                + capacity_debit(Balance::WasteCapacityToken, wstc_balance, wstc_balance)
                + seq![credit_of(Balance::WasteCapacityToken, contracted_waste_capacity)]
        },
        old(consumer).wf() ==> final(consumer).wf(),
{
    if tariff_key != consumer.assigned_tariff || reservoir_key != consumer.assigned_reservoir {
        return Err(CustomError::Unauthorized);
    }
    if contracted_capacity == 0 || contracted_waste_capacity == 0 {
        return Err(CustomError::InvalidCapacity);
    }
    consumer.contracted_capacity = contracted_capacity;
    consumer.contracted_waste_capacity = contracted_waste_capacity;
    let mut instructions: Vec<SettlementInstruction> = Vec::new();
    push_capacity_debit(&mut instructions, Balance::WaterCapacityToken, watc_balance, watc_balance);
    instructions.push(SettlementInstruction::credit(Balance::WaterCapacityToken, contracted_capacity));
    push_capacity_debit(&mut instructions, Balance::WasteCapacityToken, wstc_balance, wstc_balance);
    instructions.push(SettlementInstruction::credit(Balance::WasteCapacityToken, contracted_waste_capacity));
    Ok(instructions)
}

/// Replaces a consumer's block rate. The keys must be the consumer's
/// assignment and the rate must be positive.
pub fn update_consumer_block_rate(
    consumer: &mut Consumer,
    tariff_key: RecordKey,
    reservoir_key: RecordKey,
    block_rate: u64,
) -> (r: Result<(), CustomError>)
    ensures
        tariff_key != old(consumer).assigned_tariff || reservoir_key != old(consumer).assigned_reservoir
            ==> r matches Err(CustomError::Unauthorized),
        tariff_key == old(consumer).assigned_tariff && reservoir_key == old(consumer).assigned_reservoir
            && block_rate == 0 ==> r matches Err(CustomError::InvalidRate),
        r is Ok <==> tariff_key == old(consumer).assigned_tariff && reservoir_key == old(consumer).assigned_reservoir
            && block_rate > 0,
        r is Err ==> *final(consumer) == *old(consumer),
        r is Ok ==> *final(consumer) == (Consumer { block_rate, ..*old(consumer) }),
        old(consumer).wf() ==> final(consumer).wf(),
{
    if tariff_key != consumer.assigned_tariff || reservoir_key != consumer.assigned_reservoir {
        return Err(CustomError::Unauthorized);
    }
    if block_rate == 0 {
        return Err(CustomError::InvalidRate);
    }
    consumer.block_rate = block_rate;
    Ok(())
}

/// Moves a consumer from its current tariff to `new_tariff`. The current
/// key must be the consumer's assignment and the new key must be the one
/// that `new_tariff` holds.
pub fn update_consumer_tariff(
    consumer: &mut Consumer,
    new_tariff: &Tariff,
    current_tariff_key: RecordKey,
    new_tariff_key: RecordKey,
) -> (r: Result<(), CustomError>)
    ensures
        current_tariff_key != old(consumer).assigned_tariff || new_tariff_key != new_tariff.tariff_key
            ==> r matches Err(CustomError::Unauthorized),
        r is Ok <==> current_tariff_key == old(consumer).assigned_tariff && new_tariff_key == new_tariff.tariff_key,
        r is Err ==> *final(consumer) == *old(consumer),
        r is Ok ==> *final(consumer) == (Consumer { assigned_tariff: new_tariff_key, ..*old(consumer) }),
        old(consumer).wf() ==> final(consumer).wf(),
{
    if current_tariff_key != consumer.assigned_tariff || new_tariff_key != new_tariff.tariff_key {
        return Err(CustomError::Unauthorized);
    }
    consumer.assigned_tariff = new_tariff_key;
    Ok(())
}

/// Moves a consumer from its current reservoir to `new_reservoir`. The
/// current key must be the consumer's assignment and the new key must be
/// the one that `new_reservoir` holds.
pub fn update_consumer_reservoir(
    consumer: &mut Consumer,
    new_reservoir: &Reservoir,
    current_reservoir_key: RecordKey,
    new_reservoir_key: RecordKey,
) -> (r: Result<(), CustomError>)
    ensures
        current_reservoir_key != old(consumer).assigned_reservoir || new_reservoir_key != new_reservoir.reservoir_key
            ==> r matches Err(CustomError::Unauthorized),
        r is Ok <==> current_reservoir_key == old(consumer).assigned_reservoir && new_reservoir_key == new_reservoir.reservoir_key,
        r is Err ==> *final(consumer) == *old(consumer),
        r is Ok ==> *final(consumer) == (Consumer { assigned_reservoir: new_reservoir_key, ..*old(consumer) }),
        old(consumer).wf() ==> final(consumer).wf(),
{
    if current_reservoir_key != consumer.assigned_reservoir || new_reservoir_key != new_reservoir.reservoir_key {
        return Err(CustomError::Unauthorized);
    }
    consumer.assigned_reservoir = new_reservoir_key;
    Ok(())
}

/// The supplied tariff and reservoir keys are the consumer's assignment and
/// name the records given.
pub open spec fn water_keys_match(
    consumer: Consumer,
    tariff: Tariff,
    reservoir: Reservoir,
    tariff_key: RecordKey,
    reservoir_key: RecordKey,
) -> bool {
    &&& tariff_key == consumer.assigned_tariff
    &&& tariff_key == tariff.tariff_key
    &&& reservoir_key == consumer.assigned_reservoir
    &&& reservoir_key == reservoir.reservoir_key
}

/// Cost of `amount` units of water for `consumer`, whose water-capacity
/// balance holds `watc_balance`.
pub open spec fn water_cost(
    consumer: Consumer,
    tariff: Tariff,
    reservoir: Reservoir,
    amount: u64,
    watc_balance: u64,
) -> int {
    total_cost(watc_balance as int, amount as int, tariff.water_rate as int, tariff.tariff_type,
        consumer.block_rate as int, reservoir.capacity as int, reservoir.current_level as int)
}

/// The computation of `water_cost` stays within its integer types.
pub open spec fn water_cost_fits(
    consumer: Consumer,
    tariff: Tariff,
    reservoir: Reservoir,
    amount: u64,
    watc_balance: u64,
) -> bool {
    total_cost_fits(watc_balance as int, amount as int, tariff.water_rate as int, tariff.tariff_type,
        consumer.block_rate as int, reservoir.capacity as int, reservoir.current_level as int)
}

/// Charges `consumer` for using `amount` units of water: credits the water
/// token with the cost, and debits the water-capacity balance, which holds
/// `watc_balance`, by the part of the amount that it covers.
pub fn use_water(
    consumer: &Consumer,
    tariff: &Tariff,
    reservoir: &Reservoir,
    tariff_key: RecordKey,
    reservoir_key: RecordKey,
    amount: u64,
    watc_balance: u64,
) -> (r: Result<Vec<SettlementInstruction>, CustomError>)
    ensures
        amount == 0 ==> r matches Err(CustomError::InvalidAmount),
        amount > 0 && !water_keys_match(*consumer, *tariff, *reservoir, tariff_key, reservoir_key)
            ==> r matches Err(CustomError::Unauthorized),
        amount > 0 && water_keys_match(*consumer, *tariff, *reservoir, tariff_key, reservoir_key)
            && !water_cost_fits(*consumer, *tariff, *reservoir, amount, watc_balance)
            ==> r matches Err(CustomError::ArithmeticOverflow),
        r is Ok <==> amount > 0 && water_keys_match(*consumer, *tariff, *reservoir, tariff_key, reservoir_key)
            && water_cost_fits(*consumer, *tariff, *reservoir, amount, watc_balance),
        r matches Ok(instructions) ==> instructions@ == seq![
            credit_of(Balance::WaterToken, water_cost(*consumer, *tariff, *reservoir, amount, watc_balance) as u64),
        ] + capacity_debit(Balance::WaterCapacityToken, amount, watc_balance),
{
    if amount == 0 {
        return Err(CustomError::InvalidAmount);
    }
    if tariff_key != consumer.assigned_tariff || tariff_key != tariff.tariff_key {
        return Err(CustomError::Unauthorized);
    }
    if reservoir_key != consumer.assigned_reservoir || reservoir_key != reservoir.reservoir_key {
        return Err(CustomError::Unauthorized);
    }
    let total_cost = match checked_total_cost(
        FixedPoint::from(watc_balance),
        FixedPoint::from(amount),
        FixedPoint::from(tariff.water_rate),
        tariff.tariff_type,
        FixedPoint::from(consumer.block_rate),
        FixedPoint::from(reservoir.capacity),
        FixedPoint::from(reservoir.current_level),
    ) {
        Some(c) => c,
        None => return Err(CustomError::ArithmeticOverflow),
    };
    let mut instructions: Vec<SettlementInstruction> = Vec::new();
    instructions.push(SettlementInstruction::credit(Balance::WaterToken, total_cost));
    push_capacity_debit(&mut instructions, Balance::WaterCapacityToken, amount, watc_balance);
    Ok(instructions)
}

/// Charges `consumer` for disposing of `amount` units of waste: credits the
/// waste token with the amount at the waste rate, and debits the
/// waste-capacity balance, which holds `wstc_balance`, by the part of the
/// amount that it covers.
pub fn dispose_waste(
    consumer: &Consumer,
    tariff: &Tariff,
    tariff_key: RecordKey,
    amount: u64,
    wstc_balance: u64,
) -> (r: Result<Vec<SettlementInstruction>, CustomError>)
    ensures
        tariff_key != consumer.assigned_tariff || tariff_key != tariff.tariff_key
            ==> r matches Err(CustomError::Unauthorized),
        tariff_key == consumer.assigned_tariff && tariff_key == tariff.tariff_key && amount == 0
            ==> r matches Err(CustomError::InvalidAmount),
        tariff_key == consumer.assigned_tariff && tariff_key == tariff.tariff_key && amount > 0
            && fp_mul(amount as int, tariff.waste_rate as int) > u64::MAX
            ==> r matches Err(CustomError::ArithmeticOverflow),
        r is Ok <==> tariff_key == consumer.assigned_tariff && tariff_key == tariff.tariff_key
            && amount > 0 && fp_mul(amount as int, tariff.waste_rate as int) <= u64::MAX,
        r matches Ok(instructions) ==> instructions@ == seq![
            credit_of(Balance::WasteToken, fp_mul(amount as int, tariff.waste_rate as int) as u64),
        ] + capacity_debit(Balance::WasteCapacityToken, amount, wstc_balance),
{
    if tariff_key != consumer.assigned_tariff || tariff_key != tariff.tariff_key {
        return Err(CustomError::Unauthorized);
    }
    if amount == 0 {
        return Err(CustomError::InvalidAmount);
    }
    let total_cost = match checked_scaled_product(amount, tariff.waste_rate) {
        Some(c) => c,
        None => return Err(CustomError::ArithmeticOverflow),
    };
    let mut instructions: Vec<SettlementInstruction> = Vec::new();
    instructions.push(SettlementInstruction::credit(Balance::WasteToken, total_cost));
    push_capacity_debit(&mut instructions, Balance::WasteCapacityToken, amount, wstc_balance);
    Ok(instructions)
}

/// Extinguishes `amount` of the water token, whose balance holds
/// `wtk_balance`. The keys must be the consumer's assignment, and the
/// payment may not exceed the balance.
pub fn pay_for_water(
    consumer: &Consumer,
    tariff_key: RecordKey,
    reservoir_key: RecordKey,
    amount: u64,
    wtk_balance: u64,
) -> (r: Result<Vec<SettlementInstruction>, CustomError>)
    ensures
        tariff_key != consumer.assigned_tariff || reservoir_key != consumer.assigned_reservoir
            ==> r matches Err(CustomError::Unauthorized),
        tariff_key == consumer.assigned_tariff && reservoir_key == consumer.assigned_reservoir
            && amount > wtk_balance ==> r matches Err(CustomError::OverPayment),
        r is Ok <==> tariff_key == consumer.assigned_tariff && reservoir_key == consumer.assigned_reservoir
            && amount <= wtk_balance,
        r matches Ok(instructions) ==> instructions@ == seq![debit_of(Balance::WaterToken, amount)],
{
    if tariff_key != consumer.assigned_tariff || reservoir_key != consumer.assigned_reservoir {
        return Err(CustomError::Unauthorized);
    }
    if amount > wtk_balance {
        return Err(CustomError::OverPayment);
    }
    let mut instructions: Vec<SettlementInstruction> = Vec::new();
    instructions.push(SettlementInstruction::debit(Balance::WaterToken, amount));
    assert(instructions@ =~= seq![debit_of(Balance::WaterToken, amount)]);
    Ok(instructions)
}

/// Extinguishes `amount` of the waste token, whose balance holds
/// `wst_balance`. The key must be the consumer's tariff, and the payment
/// may not exceed the balance.
pub fn pay_for_waste(
    consumer: &Consumer,
    tariff_key: RecordKey,
    amount: u64,
    wst_balance: u64,
) -> (r: Result<Vec<SettlementInstruction>, CustomError>)
    ensures
        tariff_key != consumer.assigned_tariff ==> r matches Err(CustomError::Unauthorized),
        tariff_key == consumer.assigned_tariff && amount > wst_balance ==> r matches Err(
            CustomError::OverPayment,
        ),
        r is Ok <==> tariff_key == consumer.assigned_tariff && amount <= wst_balance,
        r matches Ok(instructions) ==> instructions@ == seq![debit_of(Balance::WasteToken, amount)],
{
    if tariff_key != consumer.assigned_tariff {
        return Err(CustomError::Unauthorized);
    }
    if amount > wst_balance {
        return Err(CustomError::OverPayment);
    }
    let mut instructions: Vec<SettlementInstruction> = Vec::new();
    instructions.push(SettlementInstruction::debit(Balance::WasteToken, amount));
    assert(instructions@ =~= seq![debit_of(Balance::WasteToken, amount)]);
    Ok(instructions)
}

/// Converts the whole waste-capacity balance, which holds `wstc_balance`,
/// into reward tokens at the reservoir's conversion factor: debits the
/// balance in full and credits the reward.
pub fn redeem_aqc(
    consumer: &Consumer,
    reservoir: &Reservoir,
    tariff_key: RecordKey,
    reservoir_key: RecordKey,
    wstc_balance: u64,
) -> (r: Result<Vec<SettlementInstruction>, CustomError>)
    ensures
        tariff_key != consumer.assigned_tariff || reservoir_key != consumer.assigned_reservoir
            || reservoir_key != reservoir.reservoir_key ==> r matches Err(CustomError::Unauthorized),
        tariff_key == consumer.assigned_tariff && reservoir_key == consumer.assigned_reservoir
            && reservoir_key == reservoir.reservoir_key
            && fp_mul(reservoir.aqc_conversion_factor as int, wstc_balance as int) > u64::MAX
            ==> r matches Err(CustomError::ArithmeticOverflow),
        r is Ok <==> tariff_key == consumer.assigned_tariff && reservoir_key == consumer.assigned_reservoir
            && reservoir_key == reservoir.reservoir_key
            && fp_mul(reservoir.aqc_conversion_factor as int, wstc_balance as int) <= u64::MAX,
        r matches Ok(instructions) ==> instructions@ == seq![
            debit_of(Balance::WasteCapacityToken, wstc_balance),
            credit_of(Balance::AquaCoin, fp_mul(reservoir.aqc_conversion_factor as int, wstc_balance as int) as u64),
        ],
{
    if tariff_key != consumer.assigned_tariff || reservoir_key != consumer.assigned_reservoir
        || reservoir_key != reservoir.reservoir_key {
        return Err(CustomError::Unauthorized);
    }
    let aqc_amount = match checked_scaled_product(reservoir.aqc_conversion_factor, wstc_balance) {
        Some(a) => a,
        None => return Err(CustomError::ArithmeticOverflow),
    };
    let mut instructions: Vec<SettlementInstruction> = Vec::new();
    instructions.push(SettlementInstruction::debit(Balance::WasteCapacityToken, wstc_balance));
    instructions.push(SettlementInstruction::credit(Balance::AquaCoin, aqc_amount));
    assert(instructions@ =~= seq![
        debit_of(Balance::WasteCapacityToken, wstc_balance),
        credit_of(Balance::AquaCoin, fp_mul(reservoir.aqc_conversion_factor as int, wstc_balance as int) as u64),
    ]);
    Ok(instructions)
}

/// Records the five token mints, once: where the water-token mint is already
/// set (not the zero key), the record stays as it is.
pub fn initialize_tokens(
    tokens: &mut Tokens,
    water_token: RecordKey,
    water_capacity_token: RecordKey,
    waste_token: RecordKey,
    wastewater_capacity_token: RecordKey,
    aquacoin: RecordKey,
) -> (initialized: bool)
    ensures
        initialized == old(tokens).wtk.is_zero(),
        initialized ==> *final(tokens) == (Tokens {
            wtk: water_token,
            wst: waste_token,
            watc: water_capacity_token,
            wstc: wastewater_capacity_token,
            aqc: aquacoin,
        }),
        !initialized ==> *final(tokens) == *old(tokens),
{
    let zero = RecordKey::zero();
    if tokens.wtk != zero {
        proof {
            if tokens.wtk.bytes() == zero.bytes() {
                assert(tokens.wtk.0 =~= zero.0);
            }
        }
        return false;
    }
    tokens.wtk = water_token;
    tokens.watc = water_capacity_token;
    tokens.wst = waste_token;
    tokens.wstc = wastewater_capacity_token;
    tokens.aqc = aquacoin;
    true
}

} // verus!
