//! Buying short tokens from the vault's reserve.

use crate::errors::AkashicErrors;
use crate::ledger::Effect;
use crate::state::Vow;
use vstd::prelude::*;

verus! {

/// What a short purchase reads: the market and the vault's short reserve.
#[derive(Clone, Copy, Debug, PartialEq, Eq)]
pub struct BuyShort {
    pub vow: Vow,
    pub vault_short: u64,
}

impl BuyShort {
    /// The rule of a short purchase. The checks come in this order: the
    /// deadline has not come, the amount is positive, the reserve holds at
    /// least `amount`. An accepted purchase moves `amount` of value into the
    /// vault and `amount` short tokens from the reserve to the participant;
    /// nothing is minted.
    pub open spec fn decide(self, now: i64, amount: u64) -> Result<Seq<Effect>, AkashicErrors> {
        if !self.vow.trading_open(now) {
            Err(AkashicErrors::DeadlinePassed)
        } else if amount == 0 {
            Err(AkashicErrors::InvalidAmount)
        } else if self.vault_short < amount {
            Err(AkashicErrors::InsufficientShortTokens)
        } else {
            Ok(seq![Effect::Deposit { amount }, Effect::ReleaseShort { amount }])
        }
    }

    /// Decides a short purchase of `amount` at time `now`.
    pub fn handle(ctx: &BuyShort, now: i64, amount: u64) -> (r: Result<
        Vec<Effect>,
        AkashicErrors,
    >)
        ensures
            match r {
                Ok(plan) => ctx.decide(now, amount) == Ok::<Seq<Effect>, AkashicErrors>(plan@),
                Err(e) => ctx.decide(now, amount) == Err::<Seq<Effect>, AkashicErrors>(e),
            },
    {
        if !ctx.vow.is_trading_open(now) {
            return Err(AkashicErrors::DeadlinePassed);
        }
        if amount == 0 {
            return Err(AkashicErrors::InvalidAmount);
        }
        if ctx.vault_short < amount {
            return Err(AkashicErrors::InsufficientShortTokens);
        }
        let mut plan: Vec<Effect> = Vec::new();
        plan.push(Effect::Deposit { amount });
        plan.push(Effect::ReleaseShort { amount });
        proof {
            assert(plan@ =~= seq![Effect::Deposit { amount }, Effect::ReleaseShort { amount }]);
        }
        Ok(plan)
    }
}

} // verus!
