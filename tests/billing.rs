use aquachain::{
    calculate_total_cost, checked_scaled_product, checked_total_cost, dispose_waste,
    initialize_reservoir, initialize_tariff, pay_for_waste, pay_for_water, redeem_aqc,
    register_consumer, use_water, Balance, Consumer, CustomError, FixedPoint, RecordKey,
    Reservoir, SettlementInstruction, Tariff, TariffType,
};

#[test]
fn test_total_cost_under_cap() {
    let consumer_watc_balance = FixedPoint::from(100000);
    let amount_fp = FixedPoint::from(100000);
    let water_rate_fp = FixedPoint::from(500);
    let block_rate_fp = FixedPoint::from(800);
    let level_max = FixedPoint::from(1000000);
    let level = FixedPoint::from(950000);

    let total_cost = calculate_total_cost(
        consumer_watc_balance,
        amount_fp,
        water_rate_fp,
        TariffType::UniformIBT,
        block_rate_fp,
        level_max,
        level,
    );

    assert_eq!(total_cost, 50000);
}

#[test]
fn test_total_cost_ibt() {
    let consumer_watc_balance = FixedPoint::from(100000);
    let amount_fp = FixedPoint::from(120000);
    let water_rate_fp = FixedPoint::from(500);
    let block_rate_fp = FixedPoint::from(800);
    let level_max = FixedPoint::from(1000000);
    let level = FixedPoint::from(950000);

    let total_cost = calculate_total_cost(
        consumer_watc_balance,
        amount_fp,
        water_rate_fp,
        TariffType::UniformIBT,
        block_rate_fp,
        level_max,
        level,
    );
    assert_eq!(total_cost, 66000);
}

#[test]
fn test_total_cost_seasonal_ibt() {
    let consumer_watc_balance = FixedPoint::from(100000);
    let amount_fp = FixedPoint::from(120000);
    let water_rate_fp = FixedPoint::from(500);
    let block_rate_fp = FixedPoint::from(800);
    let level_max = FixedPoint::from(1000000);
    let level = FixedPoint::from(950000);

    let total_cost = calculate_total_cost(
        consumer_watc_balance,
        amount_fp,
        water_rate_fp,
        TariffType::SeasonalIBT,
        block_rate_fp,
        level_max,
        level,
    );
    assert_eq!(total_cost, 850000);
}

#[test]
fn test_total_cost_seasonal_dbt() {
    let consumer_watc_balance = FixedPoint::from(100000);
    let amount_fp = FixedPoint::from(120000);
    let water_rate_fp = FixedPoint::from(500);
    let block_rate_fp = FixedPoint::from(800);
    let level_max = FixedPoint::from(1000000);
    let level = FixedPoint::from(950000);

    let total_cost = calculate_total_cost(
        consumer_watc_balance,
        amount_fp,
        water_rate_fp,
        TariffType::SeasonalDBT,
        block_rate_fp,
        level_max,
        level,
    );
    assert_eq!(total_cost, 66800);
}

fn key(b: u8) -> RecordKey {
    RecordKey([b; 32])
}

fn tariff(tariff_type: TariffType) -> Tariff {
    initialize_tariff(key(1), 500, 250, tariff_type).unwrap()
}

fn reservoir() -> Reservoir {
    initialize_reservoir(key(2), 950_000, 1_000_000, 10_000, 100_000, 2_000, 5).unwrap()
}

fn consumer() -> Consumer {
    register_consumer(key(1), key(2), 100_000, 40_000, 800).unwrap().0
}

fn credit(balance: Balance, amount: u64) -> SettlementInstruction {
    SettlementInstruction::credit(balance, amount)
}

fn debit(balance: Balance, amount: u64) -> SettlementInstruction {
    SettlementInstruction::debit(balance, amount)
}

#[test]
fn use_water_within_entitlement() {
    let r = use_water(&consumer(), &tariff(TariffType::UniformIBT), &reservoir(), key(1), key(2), 100_000, 100_000);
    assert_eq!(
        r,
        Ok(vec![credit(Balance::WaterToken, 50_000), debit(Balance::WaterCapacityToken, 100_000)])
    );
}

#[test]
fn use_water_tiered_over_entitlement() {
    let r = use_water(&consumer(), &tariff(TariffType::UniformIBT), &reservoir(), key(1), key(2), 120_000, 100_000);
    assert_eq!(
        r,
        Ok(vec![credit(Balance::WaterToken, 66_000), debit(Balance::WaterCapacityToken, 100_000)])
    );
}

#[test]
fn use_water_seasonal_increasing_over_entitlement() {
    let r = use_water(&consumer(), &tariff(TariffType::SeasonalIBT), &reservoir(), key(1), key(2), 120_000, 100_000);
    assert_eq!(
        r,
        Ok(vec![credit(Balance::WaterToken, 850_000), debit(Balance::WaterCapacityToken, 100_000)])
    );
}

#[test]
fn use_water_seasonal_decreasing_over_entitlement() {
    let r = use_water(&consumer(), &tariff(TariffType::SeasonalDBT), &reservoir(), key(1), key(2), 120_000, 100_000);
    assert_eq!(
        r,
        Ok(vec![credit(Balance::WaterToken, 66_800), debit(Balance::WaterCapacityToken, 100_000)])
    );
}

#[test]
fn use_water_with_empty_entitlement_debits_nothing() {
    // all 20.000 units are excess: 20 * 0.8 = 16.000
    let r = use_water(&consumer(), &tariff(TariffType::UniformIBT), &reservoir(), key(1), key(2), 20_000, 0);
    assert_eq!(r, Ok(vec![credit(Balance::WaterToken, 16_000)]));
}

#[test]
fn use_water_rejects_zero_amount() {
    let r = use_water(&consumer(), &tariff(TariffType::UniformIBT), &reservoir(), key(1), key(2), 0, 100);
    assert_eq!(r, Err(CustomError::InvalidAmount));
}

#[test]
fn use_water_rejects_foreign_keys() {
    let t = tariff(TariffType::UniformIBT);
    let res = reservoir();
    let c = consumer();
    assert_eq!(use_water(&c, &t, &res, key(9), key(2), 10, 100), Err(CustomError::Unauthorized));
    assert_eq!(use_water(&c, &t, &res, key(1), key(9), 10, 100), Err(CustomError::Unauthorized));
    let other = initialize_tariff(key(7), 500, 250, TariffType::UniformIBT).unwrap();
    assert_eq!(use_water(&c, &other, &res, key(1), key(2), 10, 100), Err(CustomError::Unauthorized));
}

#[test]
fn use_water_reports_overflow() {
    let c = register_consumer(key(1), key(2), 1, 1, u64::MAX).unwrap().0;
    let t = initialize_tariff(key(1), u64::MAX, 1, TariffType::UniformIBT).unwrap();
    let r = use_water(&c, &t, &reservoir(), key(1), key(2), u64::MAX, 0);
    assert_eq!(r, Err(CustomError::ArithmeticOverflow));
}

#[test]
fn checked_total_cost_matches_formula() {
    let f = FixedPoint::from;
    assert_eq!(
        checked_total_cost(f(100000), f(120000), f(500), TariffType::SeasonalDBT, f(800), f(1000000), f(950000)),
        Some(66800)
    );
    // a level above capacity leaves no room to price seasonal-increasing usage
    assert_eq!(
        checked_total_cost(f(0), f(1000), f(500), TariffType::SeasonalIBT, f(800), f(1000), f(2000)),
        None
    );
    // a zero capacity cannot divide the seasonal-decreasing ratio
    assert_eq!(
        checked_total_cost(f(0), f(1000), f(500), TariffType::SeasonalDBT, f(800), f(0), f(0)),
        None
    );
}

#[test]
fn scaled_product_rescales() {
    assert_eq!(checked_scaled_product(3_000, 2_500), Some(7_500));
    assert_eq!(checked_scaled_product(u64::MAX, u64::MAX), None);
}

#[test]
fn dispose_waste_charges_waste_rate() {
    // 30.000 units at 0.250 = 7.500; the waste entitlement covers all of it
    let r = dispose_waste(&consumer(), &tariff(TariffType::UniformIBT), key(1), 30_000, 40_000);
    assert_eq!(
        r,
        Ok(vec![credit(Balance::WasteToken, 7_500), debit(Balance::WasteCapacityToken, 30_000)])
    );
    // only 10.000 is left of the entitlement
    let r = dispose_waste(&consumer(), &tariff(TariffType::UniformIBT), key(1), 30_000, 10_000);
    assert_eq!(
        r,
        Ok(vec![credit(Balance::WasteToken, 7_500), debit(Balance::WasteCapacityToken, 10_000)])
    );
}

#[test]
fn dispose_waste_errors() {
    let t = tariff(TariffType::UniformIBT);
    assert_eq!(dispose_waste(&consumer(), &t, key(3), 10, 0), Err(CustomError::Unauthorized));
    assert_eq!(dispose_waste(&consumer(), &t, key(1), 0, 0), Err(CustomError::InvalidAmount));
    let costly = initialize_tariff(key(1), 1, u64::MAX, TariffType::UniformIBT).unwrap();
    assert_eq!(dispose_waste(&consumer(), &costly, key(1), u64::MAX, 0), Err(CustomError::ArithmeticOverflow));
}

#[test]
fn pay_for_water_extinguishes_balance() {
    assert_eq!(pay_for_water(&consumer(), key(1), key(2), 500, 500), Ok(vec![debit(Balance::WaterToken, 500)]));
    assert_eq!(pay_for_water(&consumer(), key(1), key(3), 500, 500), Err(CustomError::Unauthorized));
}

#[test]
fn pay_for_water_over_payment() {
    assert_eq!(pay_for_water(&consumer(), key(1), key(2), 501, 500), Err(CustomError::OverPayment));
}

#[test]
fn pay_for_waste_over_payment() {
    assert_eq!(pay_for_waste(&consumer(), key(1), 11, 10), Err(CustomError::OverPayment));
    assert_eq!(pay_for_waste(&consumer(), key(1), 10, 10), Ok(vec![debit(Balance::WasteToken, 10)]));
    assert_eq!(pay_for_waste(&consumer(), key(4), 1, 10), Err(CustomError::Unauthorized));
}

#[test]
fn redeem_converts_whole_waste_entitlement() {
    // 40.000 waste-capacity tokens at a factor of 2.000 give 80.000
    let r = redeem_aqc(&consumer(), &reservoir(), key(1), key(2), 40_000);
    assert_eq!(
        r,
        Ok(vec![debit(Balance::WasteCapacityToken, 40_000), credit(Balance::AquaCoin, 80_000)])
    );
    assert_eq!(redeem_aqc(&consumer(), &reservoir(), key(1), key(5), 40_000), Err(CustomError::Unauthorized));
    let rich = initialize_reservoir(key(2), 1, 1, 1, 1, u64::MAX, 1).unwrap();
    assert_eq!(redeem_aqc(&consumer(), &rich, key(1), key(2), u64::MAX), Err(CustomError::ArithmeticOverflow));
}
