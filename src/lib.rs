//! Metered-utility billing engine: fixed-point rate arithmetic, tariff,
//! reservoir and consumer records with their validation rules, and the cost
//! formulas that turn usage into settlement instructions against token
//! balances held elsewhere.

pub mod billing;
pub mod error;
pub mod fixed_point;
pub mod instructions;
pub mod key;
pub mod settlement;
pub mod state;

pub use billing::{calculate_total_cost, checked_scaled_product, checked_total_cost};
pub use error::CustomError;
pub use fixed_point::{FixedPoint, SCALE};
pub use instructions::{
    dispose_waste, initialize_reservoir, initialize_tariff, initialize_tokens, pay_for_waste,
    pay_for_water, redeem_aqc, register_consumer, update_consumer, update_consumer_block_rate, update_consumer_reservoir,
    update_consumer_tariff, update_reservoir, update_tariff_rates, update_tariff_type, use_water,
};
pub use key::RecordKey;
pub use settlement::{Balance, Direction, SettlementInstruction};
pub use state::{Consumer, Reservoir, Tariff, TariffType, Tokens};
