//! Selling short tokens back to the vault's reserve.

use crate::errors::AkashicErrors;
use crate::ledger::Effect;
use crate::state::Vow;
use vstd::prelude::*;

verus! {

/// What a short sale reads: the market and the participant's short balance.
#[derive(Clone, Copy, Debug, PartialEq, Eq)]
pub struct SellShort {
    pub vow: Vow,
    pub user_short: u64,
}

impl SellShort {
    /// The rule of a short sale. The tests come in this order: the deadline
    /// has not come, the amount is positive, the participant holds at least
    /// `amount` short tokens. An accepted sale moves `amount` short tokens
    /// from the participant back to the reserve and `amount` of value from
    /// the vault to the participant. Nothing is asked of the reserve but
    /// that it can take the tokens, which the book decides.
    pub open spec fn decide(self, now: i64, amount: u64) -> Result<Seq<Effect>, AkashicErrors> {
        if !self.vow.trading_open(now) {
            Err(AkashicErrors::DeadlinePassed)
        } else if amount == 0 {
            Err(AkashicErrors::InvalidAmount)
        } else if self.user_short < amount {
            Err(AkashicErrors::InsufficientShortTokens)
        } else {
            Ok(seq![Effect::ReturnShort { amount }, Effect::Withdraw { amount }])
        }
    }

    /// Decides a short sale of `amount` at time `now`.
    pub fn handle(ctx: &SellShort, now: i64, amount: u64) -> (r: Result<
        Vec<Effect>,
        AkashicErrors,
    >)
        ensures
            match r {
                Ok(plan) => ctx.decide(now, amount) == Ok::<Seq<Effect>, AkashicErrors>(plan@),
                Err(e) => ctx.decide(now, amount) == Err::<Seq<Effect>, AkashicErrors>(e),
            },
    {
        if !ctx.vow.is_trading_open(now) {
            return Err(AkashicErrors::DeadlinePassed);
        }
        if amount == 0 {
            return Err(AkashicErrors::InvalidAmount);
        }
        if ctx.user_short < amount {
            return Err(AkashicErrors::InsufficientShortTokens);
        }
        let mut plan: Vec<Effect> = Vec::new();
        plan.push(Effect::ReturnShort { amount });
        plan.push(Effect::Withdraw { amount });
        proof {
            assert(plan@ =~= seq![Effect::ReturnShort { amount }, Effect::Withdraw { amount }]);
        }
        Ok(plan)
    }
}

} // verus!
