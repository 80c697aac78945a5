//! The records a market keeps: the vow itself and the admin configuration.

use vstd::bytes::{spec_u64_to_le_bytes, u64_to_le_bytes};
use vstd::prelude::*;

verus! {

/// Decimal places of both position-token classes.
pub const TOKEN_DECIMALS: u8 = 9;

/// The label under which a market's own address is derived: the bytes of
/// `vow`.
pub open spec fn vow_label() -> Seq<u8> {
    seq![118u8, 111u8, 119u8]
}

/// A 32-byte account address.
#[derive(Clone, Copy, Debug, PartialEq, Eq)]
pub struct Address {
    pub bytes: [u8; 32],
}

/// The outcome recorded for a market.
#[derive(Clone, Copy, Debug, PartialEq, Eq, Structural)]
pub enum VowResult {
    Pending,
    Success,
    Failure,
}

/// One market: its fixed configuration and its resolution state.
#[derive(Clone, Copy, Debug, PartialEq, Eq)]
pub struct Vow {
    pub authority: Address,
    pub seeds: u64,
    pub deadline: i64,
    pub long_mint: Address,
    pub short_mint: Address,
    pub vault: Address,
    pub result: VowResult,
    pub resolved: bool,
    pub vow_bump: u8,
    pub vault_bump: u8,
    pub long_mint_bump: u8,
    pub short_mint_bump: u8,
}

impl Address {
    /// The address as a byte vector.
    pub fn to_vec(&self) -> (v: Vec<u8>)
        ensures
            v@ == self.bytes@,
    {
        let mut v: Vec<u8> = Vec::new();
        let mut i: usize = 0;
        while i < 32
            invariant
                i <= 32,
                v@ == self.bytes@.subrange(0, i as int),
            decreases 32 - i,
        {
            v.push(self.bytes[i]);
            proof {
                assert(v@ =~= self.bytes@.subrange(0, i + 1));
            }
            i = i + 1;
        }
        proof {
            assert(self.bytes@.subrange(0, 32) =~= self.bytes@);
        }
        v
    }
}

impl Vow {
    /// The four seeds from which the market's own address is derived, and
    /// with which it authorises movements out of its vault and token
    /// accounts: the label, the creator's seed as eight little-endian bytes,
    /// the creator's address, and the bump.
    pub open spec fn signer_seeds_spec(self) -> Seq<Seq<u8>> {
        seq![
            vow_label(),
            spec_u64_to_le_bytes(self.seeds),
            self.authority.bytes@,
            seq![self.vow_bump],
        ]
    }

    /// The seeds of the market's own address, each as a byte vector.
    pub fn signer_seeds(&self) -> (seeds: Vec<Vec<u8>>)
        ensures
            seeds@.len() == 4,
            forall|i: int| 0 <= i < 4 ==> (#[trigger] seeds@[i])@ == self.signer_seeds_spec()[i],
    {
        let mut label: Vec<u8> = Vec::new();
        label.push(118u8);
        label.push(111u8);
        label.push(119u8);
        let mut bump: Vec<u8> = Vec::new();
        bump.push(self.vow_bump);
        proof {
            assert(label@ =~= vow_label());
            assert(bump@ =~= seq![self.vow_bump]);
        }
        let mut seeds: Vec<Vec<u8>> = Vec::new();
        seeds.push(label);
        seeds.push(u64_to_le_bytes(self.seeds));
        seeds.push(self.authority.to_vec());
        seeds.push(bump);
        seeds
    }

    /// The resolution flag and the recorded outcome agree: the market is
    /// resolved exactly when its outcome is no longer pending.
    pub open spec fn well_formed(self) -> bool {
        self.resolved <==> self.result != VowResult::Pending
    }

    /// Entries and exits are accepted strictly before the deadline.
    pub open spec fn trading_open(self, now: i64) -> bool {
        now < self.deadline
    }

    /// Everything that is fixed at creation is the same in both records.
    pub open spec fn same_configuration(self, other: Vow) -> bool {
        &&& self.authority == other.authority
        &&& self.seeds == other.seeds
        &&& self.deadline == other.deadline
        &&& self.long_mint == other.long_mint
        &&& self.short_mint == other.short_mint
        &&& self.vault == other.vault
        &&& self.vow_bump == other.vow_bump
        &&& self.vault_bump == other.vault_bump
        &&& self.long_mint_bump == other.long_mint_bump
        &&& self.short_mint_bump == other.short_mint_bump
    }

    /// Whether `now` lies strictly before the deadline.
    pub fn is_trading_open(&self, now: i64) -> (open: bool)
        ensures
            open == self.trading_open(now),
    {
        now < self.deadline
    }
}

/// The admin-scoped configuration record. The fee is recorded only; no
/// instruction charges it.
#[derive(Clone, Copy, Debug, PartialEq, Eq)]
pub struct Config {
    pub admin: Address,
    pub fee: u64,
}

} // verus!
