//! The book of value and position-token balances that one market's
//! instructions act on, and the effects that change it.

use vstd::prelude::*;

verus! {

/// One change to the book. An instruction that is accepted yields a list of
/// these, to be carried out in order and as a whole.
#[derive(Clone, Copy, Debug, PartialEq, Eq, Structural)]
pub enum Effect {
    /// Value moves from the participant into the vault.
    Deposit { amount: u64 },
    /// Value moves from the vault to the participant.
    Withdraw { amount: u64 },
    /// New long tokens are minted to the participant.
    MintLong { amount: u64 },
    /// New short tokens are minted into the vault's reserve.
    MintReserve { amount: u64 },
    /// Long tokens of the participant are burned.
    BurnLong { amount: u64 },
    /// Short tokens move from the vault's reserve to the participant.
    ReleaseShort { amount: u64 },
    /// Short tokens move from the participant back to the vault's reserve.
    ReturnShort { amount: u64 },
}

/// Why the book refused an effect.
#[derive(Clone, Copy, Debug, PartialEq, Eq, Structural)]
pub enum LedgerError {
    /// The paying side holds less value than is to be moved.
    InsufficientValue,
    /// The giving side holds fewer tokens than are to be moved or burned.
    InsufficientTokens,
    /// A balance or a supply would pass the 64-bit range.
    Overflow,
}

/// The balances that concern one participant and one market.
///
/// Supplies count every holder's tokens, so each is at least what the
/// participant and the vault hold of that class.
#[derive(Clone, Copy, Debug, PartialEq, Eq, Structural)]
pub struct Ledger {
    /// Value held by the participant.
    pub user_value: u64,
    /// Value held in the market's vault.
    pub vault_value: u64,
    /// Long tokens held by the participant.
    pub user_long: u64,
    /// Long tokens in existence.
    pub long_supply: u64,
    /// Short tokens held by the participant.
    pub user_short: u64,
    /// Short tokens held in the vault's reserve.
    pub vault_short: u64,
    /// Short tokens in existence.
    pub short_supply: u64,
}

impl Ledger {
    /// No holder has more tokens than exist.
    pub open spec fn well_formed(self) -> bool {
        &&& self.user_long <= self.long_supply
        &&& self.user_short + self.vault_short <= self.short_supply
    }

    /// The reason for which the book refuses `effect`, if it does.
    pub open spec fn refusal(self, effect: Effect) -> Option<LedgerError> {
        match effect {
            Effect::Deposit { amount } => if self.user_value < amount {
                Some(LedgerError::InsufficientValue)
            } else if self.vault_value + amount > u64::MAX {
                Some(LedgerError::Overflow)
            } else {
                None
            },
            Effect::Withdraw { amount } => if self.vault_value < amount {
                Some(LedgerError::InsufficientValue)
            } else if self.user_value + amount > u64::MAX {
                Some(LedgerError::Overflow)
            } else {
                None
            },
            Effect::MintLong { amount } => if self.long_supply + amount > u64::MAX
                || self.user_long + amount > u64::MAX {
                Some(LedgerError::Overflow)
            } else {
                None
            },
            Effect::MintReserve { amount } => if self.short_supply + amount > u64::MAX
                || self.vault_short + amount > u64::MAX {
                Some(LedgerError::Overflow)
            } else {
                None
            },
            Effect::BurnLong { amount } => if self.user_long < amount || self.long_supply
                < amount {
                Some(LedgerError::InsufficientTokens)
            } else {
                None
            },
            Effect::ReleaseShort { amount } => if self.vault_short < amount {
                Some(LedgerError::InsufficientTokens)
            } else if self.user_short + amount > u64::MAX {
                Some(LedgerError::Overflow)
            } else {
                None
            },
            Effect::ReturnShort { amount } => if self.user_short < amount {
                Some(LedgerError::InsufficientTokens)
            } else if self.vault_short + amount > u64::MAX {
                Some(LedgerError::Overflow)
            } else {
                None
            },
        }
    }

    /// The book after `effect`, where it is not refused.
    pub open spec fn after(self, effect: Effect) -> Ledger
        recommends
            self.refusal(effect) is None,
    {
        match effect {
            Effect::Deposit { amount } => Ledger {
                user_value: (self.user_value - amount) as u64,
                vault_value: (self.vault_value + amount) as u64,
                ..self
            },
            Effect::Withdraw { amount } => Ledger {
                user_value: (self.user_value + amount) as u64,
                vault_value: (self.vault_value - amount) as u64,
                ..self
            },
            Effect::MintLong { amount } => Ledger {
                user_long: (self.user_long + amount) as u64,
                long_supply: (self.long_supply + amount) as u64,
                ..self
            },
            Effect::MintReserve { amount } => Ledger {
                vault_short: (self.vault_short + amount) as u64,
                short_supply: (self.short_supply + amount) as u64,
                ..self
            },
            Effect::BurnLong { amount } => Ledger {
                user_long: (self.user_long - amount) as u64,
                long_supply: (self.long_supply - amount) as u64,
                ..self
            },
            Effect::ReleaseShort { amount } => Ledger {
                vault_short: (self.vault_short - amount) as u64,
                user_short: (self.user_short + amount) as u64,
                ..self
            },
            Effect::ReturnShort { amount } => Ledger {
                user_short: (self.user_short - amount) as u64,
                vault_short: (self.vault_short + amount) as u64,
                ..self
            },
        }
    }

    /// The book after all of `effects` in order, or the refusal of the first
    /// effect that cannot be carried out.
    pub open spec fn run(self, effects: Seq<Effect>) -> Result<Ledger, LedgerError>
        decreases effects.len(),
    {
        if effects.len() == 0 {
            Ok(self)
        } else {
            match self.refusal(effects[0]) {
                Some(e) => Err(e),
                None => self.after(effects[0]).run(effects.skip(1)),
            }
        }
    }

    /// A book in which the participant holds `user_value` and nothing else
    /// exists yet.
    pub fn new(user_value: u64) -> (book: Ledger)
        ensures
            book == (Ledger {
                user_value,
                vault_value: 0,
                user_long: 0,
                long_supply: 0,
                user_short: 0,
                vault_short: 0,
                short_supply: 0,
            }),
            book.well_formed(),
    {
        Ledger {
            user_value,
            vault_value: 0,
            user_long: 0,
            long_supply: 0,
            user_short: 0,
            vault_short: 0,
            short_supply: 0,
        }
    }

    /// Carries out one effect, or refuses it and leaves the book as it was.
    pub fn apply(&mut self, effect: Effect) -> (r: Result<(), LedgerError>)
        ensures
            match r {
                Ok(()) => old(self).refusal(effect) is None
                    && *final(self) == old(self).after(effect),
                Err(e) => old(self).refusal(effect) == Some(e) && *final(self) == *old(self),
            },
            old(self).well_formed() ==> final(self).well_formed(),
    {
        match effect {
            Effect::Deposit { amount } => {
                if self.user_value < amount {
                    return Err(LedgerError::InsufficientValue);
                }
                if amount > u64::MAX - self.vault_value {
                    return Err(LedgerError::Overflow);
                }
                self.user_value = self.user_value - amount;
                self.vault_value = self.vault_value + amount;
            },
            Effect::Withdraw { amount } => {
                if self.vault_value < amount {
                    return Err(LedgerError::InsufficientValue);
                }
                if amount > u64::MAX - self.user_value {
                    return Err(LedgerError::Overflow);
                }
                self.vault_value = self.vault_value - amount;
                self.user_value = self.user_value + amount;
            },
            Effect::MintLong { amount } => {
                if amount > u64::MAX - self.long_supply || amount > u64::MAX - self.user_long {
                    return Err(LedgerError::Overflow);
                }
                self.long_supply = self.long_supply + amount;
                self.user_long = self.user_long + amount;
            },
            Effect::MintReserve { amount } => {
                if amount > u64::MAX - self.short_supply || amount > u64::MAX
                    - self.vault_short {
                    return Err(LedgerError::Overflow);
                }
                self.short_supply = self.short_supply + amount;
                self.vault_short = self.vault_short + amount;
            },
            Effect::BurnLong { amount } => {
                if self.user_long < amount || self.long_supply < amount {
                    return Err(LedgerError::InsufficientTokens);
                }
                self.user_long = self.user_long - amount;
                self.long_supply = self.long_supply - amount;
            },
            Effect::ReleaseShort { amount } => {
                if self.vault_short < amount {
                    return Err(LedgerError::InsufficientTokens);
                }
                if amount > u64::MAX - self.user_short {
                    return Err(LedgerError::Overflow);
                }
                self.vault_short = self.vault_short - amount;
                self.user_short = self.user_short + amount;
            },
            Effect::ReturnShort { amount } => {
                if self.user_short < amount {
                    return Err(LedgerError::InsufficientTokens);
                }
                if amount > u64::MAX - self.vault_short {
                    return Err(LedgerError::Overflow);
                }
                self.user_short = self.user_short - amount;
                self.vault_short = self.vault_short + amount;
            },
        }
        Ok(())
    }

    /// Carries out a list of effects as one unit: either every effect is
    /// applied in order, or the first refusal is returned and the book is
    /// left exactly as it was.
    pub fn apply_all(&mut self, effects: &Vec<Effect>) -> (r: Result<(), LedgerError>)
        ensures
            match r {
                Ok(()) => old(self).run(effects@) == Ok::<Ledger, LedgerError>(*final(self)),
                Err(e) => old(self).run(effects@) == Err::<Ledger, LedgerError>(e)
                    && *final(self) == *old(self),
            },
            old(self).well_formed() ==> final(self).well_formed(),
    {
        let mut book: Ledger = *self;
        let mut i: usize = 0;
        proof {
            assert(effects@.skip(0) =~= effects@);
        }
        while i < effects.len()
            invariant
                i <= effects.len(),
                old(self).run(effects@) == book.run(effects@.skip(i as int)),
                *self == *old(self),
                old(self).well_formed() ==> book.well_formed(),
            decreases effects.len() - i,
        {
            proof {
                assert(effects@.skip(i as int)[0] == effects@[i as int]);
                assert(effects@.skip(i as int).skip(1) =~= effects@.skip(i + 1));
            }
            match book.apply(effects[i]) {
                Ok(()) => {},
                Err(e) => {
                    return Err(e);
                },
            }
            i = i + 1;
        }
        *self = book;
        Ok(())
    }
}

/// Running a single effect is applying it.
pub proof fn lemma_run_one(book: Ledger, a: Effect)
    ensures
        book.run(seq![a]) == match book.refusal(a) {
            Some(e) => Err::<Ledger, LedgerError>(e),
            None => Ok(book.after(a)),
        },
{
    reveal_with_fuel(Ledger::run, 2);
    assert(seq![a][0] == a);
    assert(seq![a].skip(1).len() == 0);
}

/// Running two effects is applying the first and then, unless it is refused,
/// the second.
pub proof fn lemma_run_two(book: Ledger, a: Effect, b: Effect)
    ensures
        book.run(seq![a, b]) == match book.refusal(a) {
            Some(e) => Err::<Ledger, LedgerError>(e),
            None => book.after(a).run(seq![b]),
        },
{
    assert(seq![a, b][0] == a);
    assert(seq![a, b].skip(1) =~= seq![b]);
}

/// Running three effects is applying the first and then, unless it is
/// refused, running the other two.
pub proof fn lemma_run_three(book: Ledger, a: Effect, b: Effect, c: Effect)
    ensures
        book.run(seq![a, b, c]) == match book.refusal(a) {
            Some(e) => Err::<Ledger, LedgerError>(e),
            None => book.after(a).run(seq![b, c]),
        },
{
    assert(seq![a, b, c][0] == a);
    assert(seq![a, b, c].skip(1) =~= seq![b, c]);
}

/// Running any list of effects on a well-formed book gives a well-formed
/// book.
pub proof fn lemma_run_keeps_well_formed(book: Ledger, effects: Seq<Effect>)
    requires
        book.well_formed(),
    ensures
        book.run(effects) matches Ok(next) ==> next.well_formed(),
    decreases effects.len(),
{
    if effects.len() > 0 && book.refusal(effects[0]) is None {
        lemma_run_keeps_well_formed(book.after(effects[0]), effects.skip(1));
    }
}

} // verus!
