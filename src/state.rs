//! The records that the engine validates and reads: tariffs, reservoirs,
//! consumers and the token mints.

use vstd::prelude::*;
use crate::key::RecordKey;

verus! {

/// How usage beyond the pre-paid entitlement is priced.
#[derive(Copy, Clone, Debug, PartialEq, Eq, Structural)]
pub enum TariffType {
    /// Tiered-increasing: the excess is charged at the consumer's block rate.
    UniformIBT,
    /// Seasonal-increasing: the block rate is scaled by the reservoir's free
    /// room, `capacity - current_level`.
    SeasonalIBT,
    /// Seasonal-decreasing: the block rate is scaled by
    /// `2 - current_level / capacity`.
    SeasonalDBT,
}

/// A rate schedule issued by an agency.
#[derive(Copy, Clone, Debug, PartialEq, Eq)]
pub struct Tariff {
    /// Rate per unit of water within the entitlement.
    pub water_rate: u64,
    /// Rate per unit of waste disposed.
    pub waste_rate: u64,
    /// Pricing of usage beyond the entitlement.
    pub tariff_type: TariffType,
    /// The key that names this tariff.
    pub tariff_key: RecordKey,
}

impl Tariff {
    /// Every rate is positive.
    pub open spec fn wf(self) -> bool {
        self.water_rate > 0 && self.waste_rate > 0
    }
}

/// A shared water reservoir and its incentive factors.
#[derive(Copy, Clone, Debug, PartialEq, Eq)]
pub struct Reservoir {
    /// Water held now; never above `capacity`.
    pub current_level: u64,
    /// Water the reservoir can hold.
    pub capacity: u64,
    /// Waste water the reservoir can process.
    pub max_allowable_waste: u64,
    /// Level that must be kept; never above `capacity`.
    pub min_allowable_level: u64,
    /// Reward tokens per unit of waste-capacity token, scaled.
    pub aqc_conversion_factor: u64,
    /// Discount on tariffs per reward token held.
    pub aqc_discount_factor: u64,
    /// The key that names this reservoir.
    pub reservoir_key: RecordKey,
}

impl Reservoir {
    /// Capacity is positive, both levels lie in `(0, capacity]`, and the
    /// waste bound and both factors are positive.
    pub open spec fn wf(self) -> bool {
        &&& self.capacity > 0
        &&& 0 < self.current_level <= self.capacity
        &&& 0 < self.min_allowable_level <= self.capacity
        &&& self.max_allowable_waste > 0
        &&& self.aqc_conversion_factor > 0
        &&& self.aqc_discount_factor > 0
    }
}

/// A billable consumer with pre-paid entitlements.
#[derive(Copy, Clone, Debug, PartialEq, Eq)]
pub struct Consumer {
    /// Pre-paid water entitlement.
    pub contracted_capacity: u64,
    /// Pre-paid waste entitlement.
    pub contracted_waste_capacity: u64,
    /// Rate for water drawn beyond the entitlement.
    pub block_rate: u64,
    /// Key of the tariff that prices this consumer.
    pub assigned_tariff: RecordKey,
    /// Key of the reservoir that serves this consumer.
    pub assigned_reservoir: RecordKey,
}

impl Consumer {
    /// Both entitlements and the block rate are positive.
    pub open spec fn wf(self) -> bool {
        self.contracted_capacity > 0 && self.contracted_waste_capacity > 0 && self.block_rate > 0
    }
}

/// The mints of the five tokens that settle the engine's instructions.
#[derive(Copy, Clone, Debug, PartialEq, Eq)]
pub struct Tokens {
    /// Water token: accrued usage cost.
    pub wtk: RecordKey,
    /// Waste token: accrued disposal cost.
    pub wst: RecordKey,
    /// Water-capacity token: remaining water entitlement.
    pub watc: RecordKey,
    /// Waste-capacity token: remaining waste entitlement.
    pub wstc: RecordKey,
    /// Reward token.
    pub aqc: RecordKey,
}

} // verus!
