//! Entering a long position.

use crate::errors::AkashicErrors;
use crate::ledger::Effect;
use crate::state::Vow;
use vstd::prelude::*;

verus! {

/// What a long entry reads: the market.
#[derive(Clone, Copy, Debug, PartialEq, Eq)]
pub struct Long {
    pub vow: Vow,
}

impl Long {
    /// The rule of a long entry. It is accepted strictly before the deadline
    /// and for a positive amount. It then moves `amount` of value into the
    /// vault, mints `amount` long tokens to the participant and mints the
    /// matching `amount` of short tokens into the vault's reserve.
    pub open spec fn decide(self, now: i64, amount: u64) -> Result<Seq<Effect>, AkashicErrors> {
        if !self.vow.trading_open(now) {
            Err(AkashicErrors::DeadlinePassed)
        } else if amount == 0 {
            Err(AkashicErrors::InvalidAmount)
        } else {
            Ok(
                seq![
                    Effect::Deposit { amount },
                    Effect::MintLong { amount },
                    Effect::MintReserve { amount },
                ],
            )
        }
    }

    /// Decides a long entry of `amount` at time `now`.
    pub fn handle(ctx: &Long, now: i64, amount: u64) -> (r: Result<Vec<Effect>, AkashicErrors>)
        ensures
            match r {
                Ok(plan) => ctx.decide(now, amount) == Ok::<Seq<Effect>, AkashicErrors>(plan@),
                Err(e) => ctx.decide(now, amount) == Err::<Seq<Effect>, AkashicErrors>(e),
            },
    {
        if !ctx.vow.is_trading_open(now) {
            return Err(AkashicErrors::DeadlinePassed);
        }
        if amount == 0 {
            return Err(AkashicErrors::InvalidAmount);
        }
        let token_amount: u64 = amount;
        let mut plan: Vec<Effect> = Vec::new();
        plan.push(Effect::Deposit { amount });
        plan.push(Effect::MintLong { amount: token_amount });
        plan.push(Effect::MintReserve { amount: token_amount });
        proof {
            assert(plan@ =~= seq![
                Effect::Deposit { amount },
                Effect::MintLong { amount },
                Effect::MintReserve { amount },
            ]);
        }
        Ok(plan)
    }
}

} // verus!
