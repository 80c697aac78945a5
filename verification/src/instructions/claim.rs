//! Redeeming long tokens after a successful outcome.

use crate::errors::AkashicErrors;
use crate::ledger::Effect;
use crate::state::{Vow, VowResult};
use vstd::prelude::*;

verus! {

/// What a claim reads: the market, the long balance the participant
/// presents, and the value the vault holds.
#[derive(Clone, Copy, Debug, PartialEq, Eq)]
pub struct Claim {
    pub vow: Vow,
    pub user_long: u64,
    pub vault_value: u64,
}

impl Claim {
    /// The value paid for `amount` long tokens: twice the amount.
    pub open spec fn payout(amount: u64) -> int {
        2 * amount
    }

    /// The rule of a claim. The tests come in this order: the outcome is a
    /// success, the market is resolved, the presented balance is not zero,
    /// the payout fits in 64 bits, the vault can pay it. So a claim on a
    /// failed or a pending market is always an invalid claim. An accepted
    /// claim burns the whole presented balance and pays out twice that
    /// amount.
    pub open spec fn decide(self) -> Result<Seq<Effect>, AkashicErrors> {
        if self.vow.result != VowResult::Success {
            Err(AkashicErrors::InvalidClaim)
        } else if !self.vow.resolved {
            Err(AkashicErrors::VowNotResolved)
        } else if self.user_long == 0 {
            Err(AkashicErrors::InvalidAmount)
        } else if Self::payout(self.user_long) > u64::MAX {
            Err(AkashicErrors::ArithmeticOverflow)
        } else if self.vault_value < Self::payout(self.user_long) {
            Err(AkashicErrors::InsufficientShortTokens)
        } else {
            Ok(
                seq![
                    Effect::BurnLong { amount: self.user_long },
                    Effect::Withdraw { amount: Self::payout(self.user_long) as u64 },
                ],
            )
        }
    }

    /// Decides a claim: the effects that settle it, or the reason it is
    /// rejected.
    pub fn handle(ctx: &Claim) -> (r: Result<Vec<Effect>, AkashicErrors>)
        ensures
            match r {
                Ok(plan) => ctx.decide() == Ok::<Seq<Effect>, AkashicErrors>(plan@),
                Err(e) => ctx.decide() == Err::<Seq<Effect>, AkashicErrors>(e),
            },
    {
        let amount: u64 = ctx.user_long;
        if ctx.vow.result != VowResult::Success {
            return Err(AkashicErrors::InvalidClaim);
        }
        if !ctx.vow.resolved {
            return Err(AkashicErrors::VowNotResolved);
        }
        if amount == 0 {
            return Err(AkashicErrors::InvalidAmount);
        }
        let value: u64 = match amount.checked_mul(2) {
            Some(v) => v,
            None => {
                return Err(AkashicErrors::ArithmeticOverflow);
            },
        };
        if ctx.vault_value < value {
            return Err(AkashicErrors::InsufficientShortTokens);
        }
        let mut plan: Vec<Effect> = Vec::new();
        plan.push(Effect::BurnLong { amount });
        plan.push(Effect::Withdraw { amount: value });
        proof {
            assert(plan@ =~= seq![Effect::BurnLong { amount }, Effect::Withdraw { amount: value }]);
        }
        Ok(plan)
    }
}

} // verus!
