//! Credits and debits that the engine asks the balance ledger to apply.

use vstd::prelude::*;

verus! {

/// A consumer's token balance.
#[derive(Copy, Clone, Debug, PartialEq, Eq, Structural)]
pub enum Balance {
    /// Accrued cost of water usage.
    WaterToken,
    /// Remaining pre-paid water entitlement.
    WaterCapacityToken,
    /// Accrued cost of waste disposal.
    WasteToken,
    /// Remaining pre-paid waste entitlement.
    WasteCapacityToken,
    /// Reward token.
    AquaCoin,
}

/// Whether a balance grows or shrinks.
#[derive(Copy, Clone, Debug, PartialEq, Eq, Structural)]
pub enum Direction {
    Credit,
    Debit,
}

/// One change to one balance.
#[derive(Copy, Clone, Debug, PartialEq, Eq, Structural)]
pub struct SettlementInstruction {
    pub balance: Balance,
    pub direction: Direction,
    pub amount: u64,
}

/// The instruction that credits `amount` to `balance`.
pub open spec fn credit_of(balance: Balance, amount: u64) -> SettlementInstruction {
    SettlementInstruction { balance, direction: Direction::Credit, amount }
}

/// The instruction that debits `amount` from `balance`.
pub open spec fn debit_of(balance: Balance, amount: u64) -> SettlementInstruction {
    SettlementInstruction { balance, direction: Direction::Debit, amount }
}

/// The debit of a capacity balance that holds `held` for a use of `amount`:
/// never more than is held, and none where nothing is held.
pub open spec fn capacity_debit(balance: Balance, amount: u64, held: u64) -> Seq<SettlementInstruction> {
    if held > 0 {
        seq![debit_of(balance, if held >= amount { amount } else { held })]
    } else {
        seq![]
    }
}

impl SettlementInstruction {
    /// Credits `amount` to `balance`.
    pub fn credit(balance: Balance, amount: u64) -> (r: SettlementInstruction)
        ensures
            r == credit_of(balance, amount),
    {
        SettlementInstruction { balance, direction: Direction::Credit, amount }
    }

    /// Debits `amount` from `balance`.
    pub fn debit(balance: Balance, amount: u64) -> (r: SettlementInstruction)
        ensures
            r == debit_of(balance, amount),
    {
        SettlementInstruction { balance, direction: Direction::Debit, amount }
    }
}

/// Appends to `out` the debit of a capacity balance that holds `held` for a
/// use of `amount`.
pub fn push_capacity_debit(
    out: &mut Vec<SettlementInstruction>,
    balance: Balance,
    amount: u64,
    held: u64,
)
    ensures
        final(out)@ == old(out)@ + capacity_debit(balance, amount, held),
{
    if held > 0 {
        let debited = if held >= amount { amount } else { held };
        out.push(SettlementInstruction::debit(balance, debited));
    }
    assert(final(out)@ =~= old(out)@ + capacity_debit(balance, amount, held));
}

} // verus!
