//! Creating a market.

use crate::errors::AkashicErrors;
use crate::ledger::Effect;
use crate::state::{Address, Vow, VowResult};
use vstd::prelude::*;

verus! {

/// The derivation bumps of the four addresses that belong to a market.
#[derive(Clone, Copy, Debug, PartialEq, Eq)]
pub struct Bumps {
    pub vow: u8,
    pub vault: u8,
    pub long_mint: u8,
    pub short_mint: u8,
}

/// What creating a market reads and writes: the creator, the addresses
/// derived for the two token classes and the vault, their bumps, and the slot
/// of the market's record, which is empty until the market exists.
#[derive(Clone, Copy, Debug, PartialEq, Eq)]
pub struct Initialise {
    pub authority: Address,
    pub long_mint: Address,
    pub short_mint: Address,
    pub vault: Address,
    pub bumps: Bumps,
    pub vow: Option<Vow>,
}

impl Initialise {
    /// The record of a market just created for `seed` and `deadline`: open,
    /// with a pending outcome.
    pub open spec fn fresh_vow(self, seed: u64, deadline: i64) -> Vow {
        Vow {
            authority: self.authority,
            seeds: seed,
            deadline,
            long_mint: self.long_mint,
            short_mint: self.short_mint,
            vault: self.vault,
            result: VowResult::Pending,
            resolved: false,
            vow_bump: self.bumps.vow,
            vault_bump: self.bumps.vault,
            long_mint_bump: self.bumps.long_mint,
            short_mint_bump: self.bumps.short_mint,
        }
    }

    /// Everything but the record's slot is the same in both.
    pub open spec fn same_accounts(self, other: Initialise) -> bool {
        &&& self.authority == other.authority
        &&& self.long_mint == other.long_mint
        &&& self.short_mint == other.short_mint
        &&& self.vault == other.vault
        &&& self.bumps == other.bumps
    }

    /// Creates the market's record and says what the creator pays: `rent`,
    /// the value that keeps the vault alive, moves from the creator into the
    /// vault. A slot that already holds a record is left alone and the call
    /// is rejected; no deadline is rejected.
    pub fn handle(ctx: &mut Initialise, seed: u64, deadline: i64, rent: u64) -> (r: Result<
        Vec<Effect>,
        AkashicErrors,
    >)
        ensures
            match r {
                Ok(plan) => old(ctx).vow is None && final(ctx).vow == Some(
                    old(ctx).fresh_vow(seed, deadline),
                ) && final(ctx).same_accounts(*old(ctx)) && plan@ == seq![
                    Effect::Deposit { amount: rent },
                ],
                Err(e) => old(ctx).vow is Some && e == AkashicErrors::VowAlreadyInitialised
                    && *final(ctx) == *old(ctx),
            },
            old(ctx).fresh_vow(seed, deadline).well_formed(),
    {
        if ctx.vow.is_some() {
            return Err(AkashicErrors::VowAlreadyInitialised);
        }
        ctx.vow = Some(
            Vow {
                authority: ctx.authority,
                seeds: seed,
                deadline,
                long_mint: ctx.long_mint,
                short_mint: ctx.short_mint,
                vault: ctx.vault,
                result: VowResult::Pending,
                resolved: false,
                vow_bump: ctx.bumps.vow,
                vault_bump: ctx.bumps.vault,
                long_mint_bump: ctx.bumps.long_mint,
                short_mint_bump: ctx.bumps.short_mint,
            },
        );
        let mut plan: Vec<Effect> = Vec::new();
        plan.push(Effect::Deposit { amount: rent });
        proof {
            assert(plan@ =~= seq![Effect::Deposit { amount: rent }]);
        }
        Ok(plan)
    }
}

} // verus!
