//! Recording the outcome of a market, once.

use crate::errors::AkashicErrors;
use crate::state::{Vow, VowResult};
use vstd::prelude::*;

verus! {

/// What a submission reads and writes: the market.
#[derive(Clone, Copy, Debug, PartialEq, Eq)]
pub struct SubmitResult {
    pub vow: Vow,
}

impl SubmitResult {
    /// The rule of a submission. The tests come in this order: a market
    /// that is already resolved rejects it, whatever outcome is offered; an
    /// unresolved market rejects it before the deadline; the pending outcome
    /// resolves nothing and is rejected as leaving the market unresolved.
    /// Otherwise the outcome is recorded and the market becomes resolved;
    /// nothing else in the record changes. Any caller may submit.
    pub open spec fn decide(self, now: i64, result: VowResult) -> Result<Vow, AkashicErrors> {
        if self.vow.resolved {
            Err(AkashicErrors::VowAlreadyResolved)
        } else if now < self.vow.deadline {
            Err(AkashicErrors::DeadlinePassed)
        } else if result == VowResult::Pending {
            Err(AkashicErrors::VowNotResolved)
        } else {
            Ok(Vow { result, resolved: true, ..self.vow })
        }
    }

    /// Records `result` at time `now`, or rejects the submission and leaves
    /// the market as it was.
    pub fn handle(ctx: &mut SubmitResult, now: i64, result: VowResult) -> (r: Result<
        (),
        AkashicErrors,
    >)
        ensures
            match r {
                Ok(()) => old(ctx).decide(now, result) == Ok::<Vow, AkashicErrors>(final(ctx).vow),
                Err(e) => old(ctx).decide(now, result) == Err::<Vow, AkashicErrors>(e)
                    && *final(ctx) == *old(ctx),
            },
            r is Ok <==> !old(ctx).vow.resolved && now >= old(ctx).vow.deadline && result
                != VowResult::Pending,
            r is Ok ==> final(ctx).vow.resolved && final(ctx).vow.same_configuration(old(ctx).vow),
            r is Ok ==> final(ctx).vow.well_formed(),
    {
        if ctx.vow.resolved {
            return Err(AkashicErrors::VowAlreadyResolved);
        }
        if now < ctx.vow.deadline {
            return Err(AkashicErrors::DeadlinePassed);
        }
        if result == VowResult::Pending {
            return Err(AkashicErrors::VowNotResolved);
        }
        ctx.vow.result = result;
        ctx.vow.resolved = true;
        Ok(())
    }
}

} // verus!
