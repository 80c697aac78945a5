//! A market together with its book: the instructions carried out as whole
//! units of work.

use crate::errors::AkashicErrors;
use crate::instructions::admin_init::AdminInit;
use crate::instructions::buy_short::BuyShort;
use crate::instructions::claim::Claim;
use crate::instructions::initialise::Initialise;
use crate::instructions::long::Long;
use crate::instructions::sell_short::SellShort;
use crate::instructions::submit_result::SubmitResult;
use crate::ledger::{Effect, Ledger, LedgerError};
use crate::state::{Address, Config, Vow, VowResult};
use vstd::prelude::*;

verus! {

/// Why an instruction failed as a whole.
#[derive(Clone, Copy, Debug, PartialEq, Eq, Structural)]
pub enum Failure {
    /// The market's rules rejected it; nothing was attempted.
    Rule(AkashicErrors),
    /// The rules accepted it, and the book refused one of its effects.
    Ledger(LedgerError),
}

/// A market and the balances it concerns.
#[derive(Clone, Copy, Debug, PartialEq, Eq)]
pub struct Market {
    pub vow: Vow,
    pub ledger: Ledger,
}

/// A verdict with its plan taken as a sequence.
pub open spec fn verdict_view(verdict: Result<Vec<Effect>, AkashicErrors>) -> Result<
    Seq<Effect>,
    AkashicErrors,
> {
    match verdict {
        Ok(plan) => Ok(plan@),
        Err(e) => Err(e),
    }
}

impl Market {
    /// The record and the book are each well formed.
    pub open spec fn well_formed(self) -> bool {
        self.vow.well_formed() && self.ledger.well_formed()
    }

    /// Every short token was minted together with a long token, and only
    /// long tokens are ever burned: the short supply is at least the long
    /// supply.
    pub open spec fn short_covers_long(self) -> bool {
        self.ledger.long_supply <= self.ledger.short_supply
    }

    /// What a verdict leads to: a rejection stands as it is; an accepted plan
    /// is run on the book, and either changes the book or is refused by it.
    /// The record is not touched.
    pub open spec fn outcome(self, verdict: Result<Seq<Effect>, AkashicErrors>) -> Result<
        Market,
        Failure,
    > {
        match verdict {
            Err(e) => Err(Failure::Rule(e)),
            Ok(plan) => match self.ledger.run(plan) {
                Ok(book) => Ok(Market { vow: self.vow, ledger: book }),
                Err(e) => Err(Failure::Ledger(e)),
            },
        }
    }

    /// The market after a long entry, or why it fails.
    pub open spec fn after_long(self, now: i64, amount: u64) -> Result<Market, Failure> {
        self.outcome((Long { vow: self.vow }).decide(now, amount))
    }

    /// The market after a short purchase, or why it fails.
    pub open spec fn after_buy_short(self, now: i64, amount: u64) -> Result<Market, Failure> {
        self.outcome(
            (BuyShort { vow: self.vow, vault_short: self.ledger.vault_short }).decide(now, amount),
        )
    }

    /// The market after a short sale, or why it fails.
    pub open spec fn after_sell_short(self, now: i64, amount: u64) -> Result<Market, Failure> {
        self.outcome(
            (SellShort { vow: self.vow, user_short: self.ledger.user_short }).decide(now, amount),
        )
    }

    /// The market after a submission of `result`, or why it fails.
    pub open spec fn after_submit_result(self, now: i64, result: VowResult) -> Result<
        Market,
        Failure,
    > {
        match (SubmitResult { vow: self.vow }).decide(now, result) {
            Ok(vow) => Ok(Market { vow, ledger: self.ledger }),
            Err(e) => Err(Failure::Rule(e)),
        }
    }

    /// The market after a claim, or why it fails.
    pub open spec fn after_claim(self) -> Result<Market, Failure> {
        self.outcome(
            (Claim {
                vow: self.vow,
                user_long: self.ledger.user_long,
                vault_value: self.ledger.vault_value,
            }).decide(),
        )
    }

    /// A long entry of `amount` at `now` goes through: it comes before the
    /// deadline with a positive amount, the participant can pay it, and no
    /// balance or supply would overflow.
    pub open spec fn admits_long(self, now: i64, amount: u64) -> bool {
        &&& now < self.vow.deadline
        &&& amount > 0
        &&& self.ledger.user_value >= amount
        &&& self.ledger.vault_value + amount <= u64::MAX
        &&& self.ledger.long_supply + amount <= u64::MAX
        &&& self.ledger.user_long + amount <= u64::MAX
        &&& self.ledger.short_supply + amount <= u64::MAX
        &&& self.ledger.vault_short + amount <= u64::MAX
    }

    /// A short purchase of `amount` at `now` goes through: it comes before
    /// the deadline with a positive amount that the reserve holds, the
    /// participant can pay it, and no balance would overflow.
    pub open spec fn admits_buy_short(self, now: i64, amount: u64) -> bool {
        &&& now < self.vow.deadline
        &&& amount > 0
        &&& self.ledger.vault_short >= amount
        &&& self.ledger.user_value >= amount
        &&& self.ledger.vault_value + amount <= u64::MAX
        &&& self.ledger.user_short + amount <= u64::MAX
    }

    /// A short sale of `amount` at `now` goes through: it comes before the
    /// deadline with a positive amount that the participant holds, the
    /// reserve can take the tokens, the vault can pay, and no balance would
    /// overflow.
    pub open spec fn admits_sell_short(self, now: i64, amount: u64) -> bool {
        &&& now < self.vow.deadline
        &&& amount > 0
        &&& self.ledger.user_short >= amount
        &&& self.ledger.vault_short + amount <= u64::MAX
        &&& self.ledger.vault_value >= amount
        &&& self.ledger.user_value + amount <= u64::MAX
    }

    /// A claim goes through: the market is resolved as a success, the
    /// participant's long balance is positive and within the supply, the
    /// vault holds twice that balance, and the payout overflows nothing.
    pub open spec fn admits_claim(self) -> bool {
        &&& self.vow.resolved
        &&& self.vow.result == VowResult::Success
        &&& self.ledger.user_long > 0
        &&& self.ledger.user_long <= self.ledger.long_supply
        &&& self.ledger.vault_value >= 2 * self.ledger.user_long
        &&& self.ledger.user_value + 2 * self.ledger.user_long <= u64::MAX
    }

    /// Carries a verdict out on the book, all or nothing.
    fn settle(&mut self, verdict: Result<Vec<Effect>, AkashicErrors>) -> (r: Result<(), Failure>)
        ensures
            match r {
                Ok(()) => old(self).outcome(verdict_view(verdict)) == Ok::<Market, Failure>(
                    *final(self),
                ),
                Err(f) => old(self).outcome(verdict_view(verdict)) == Err::<Market, Failure>(f)
                    && *final(self) == *old(self),
            },
            old(self).well_formed() ==> final(self).well_formed(),
    {
        match verdict {
            Err(e) => Err(Failure::Rule(e)),
            Ok(plan) => match self.ledger.apply_all(&plan) {
                Ok(()) => Ok(()),
                Err(e) => Err(Failure::Ledger(e)),
            },
        }
    }
}

/// Creates a market. The creator holds `funds` and pays `rent` into the
/// vault; the market starts open, with a pending outcome and no tokens of
/// either class, and its record fills the slot in `accounts`.
///
/// It is rejected where the slot already holds a record, and fails where the
/// creator cannot pay the rent; either way the slot stays as it was.
pub fn initialize(
    accounts: &mut Initialise,
    seed: u64,
    deadline: i64,
    rent: u64,
    funds: u64,
) -> (r: Result<Market, Failure>)
    ensures
        match r {
            Ok(m) => {
                &&& old(accounts).vow is None
                &&& rent <= funds
                &&& m.vow == old(accounts).fresh_vow(seed, deadline)
                &&& final(accounts).vow == Some(m.vow)
                &&& final(accounts).same_accounts(*old(accounts))
                &&& m.ledger == (Ledger {
                    user_value: (funds - rent) as u64,
                    vault_value: rent,
                    user_long: 0,
                    long_supply: 0,
                    user_short: 0,
                    vault_short: 0,
                    short_supply: 0,
                })
                &&& m.well_formed()
            },
            Err(f) => {
                &&& *final(accounts) == *old(accounts)
                &&& (old(accounts).vow is Some || funds < rent)
                &&& f == (if old(accounts).vow is Some {
                    Failure::Rule(AkashicErrors::VowAlreadyInitialised)
                } else {
                    Failure::Ledger(LedgerError::InsufficientValue)
                })
            },
        },
{
    let mut trial: Initialise = *accounts;
    let plan = match Initialise::handle(&mut trial, seed, deadline, rent) {
        Ok(plan) => plan,
        Err(e) => {
            return Err(Failure::Rule(e));
        },
    };
    let vow = match trial.vow {
        Some(vow) => vow,
        None => {
            return Err(Failure::Rule(AkashicErrors::VowAlreadyInitialised));
        },
    };
    let mut market = Market { vow, ledger: Ledger::new(funds) };
    proof {
        crate::ledger::lemma_run_one(market.ledger, Effect::Deposit { amount: rent });
    }
    match market.settle(Ok(plan)) {
        Ok(()) => {
            *accounts = trial;
            Ok(market)
        },
        Err(f) => Err(f),
    }
}

/// Enters a long position of `amount` at time `now`.
///
/// It succeeds exactly when `now` is before the deadline, `amount` is
/// positive, the participant holds `amount` of value and no balance or
/// supply would overflow. The long supply, the participant's long balance,
/// the vault's value and the short reserve with its supply each grow by
/// exactly `amount`. On failure nothing changes.
pub fn long(market: &mut Market, now: i64, amount: u64) -> (r: Result<(), Failure>)
    ensures
        match r {
            Ok(()) => old(market).after_long(now, amount) == Ok::<Market, Failure>(*final(market)),
            Err(f) => old(market).after_long(now, amount) == Err::<Market, Failure>(f)
                && *final(market) == *old(market),
        },
        r is Ok <==> old(market).admits_long(now, amount),
        r is Ok ==> final(market).ledger.long_supply == old(market).ledger.long_supply + amount
            && final(market).ledger.vault_value == old(market).ledger.vault_value + amount
            && final(market).ledger.user_long == old(market).ledger.user_long + amount
            && final(market).ledger.user_value == old(market).ledger.user_value - amount
            && final(market).ledger.vault_short == old(market).ledger.vault_short + amount
            && final(market).ledger.short_supply == old(market).ledger.short_supply + amount
            && final(market).ledger.user_short == old(market).ledger.user_short,
        now >= old(market).vow.deadline ==> r == Err::<(), Failure>(
            Failure::Rule(AkashicErrors::DeadlinePassed),
        ),
        old(market).well_formed() ==> final(market).well_formed(),
{
    let accounts = Long { vow: market.vow };
    proof {
        lemma_long_adds_amount(*market, now, amount);
    }
    market.settle(Long::handle(&accounts, now, amount))
}

/// Buys `amount` short tokens from the vault's reserve at time `now`.
///
/// The participant pays `amount` of value into the vault and receives
/// `amount` short tokens from the reserve; the short supply is unchanged. On
/// failure nothing changes.
pub fn buy_short(market: &mut Market, now: i64, amount: u64) -> (r: Result<(), Failure>)
    ensures
        match r {
            Ok(()) => old(market).after_buy_short(now, amount) == Ok::<Market, Failure>(
                *final(market),
            ),
            Err(f) => old(market).after_buy_short(now, amount) == Err::<Market, Failure>(f)
                && *final(market) == *old(market),
        },
        r is Ok <==> old(market).admits_buy_short(now, amount),
        r is Ok ==> final(market).ledger.user_short == old(market).ledger.user_short + amount
            && final(market).ledger.vault_short == old(market).ledger.vault_short - amount
            && final(market).ledger.vault_value == old(market).ledger.vault_value + amount
            && final(market).ledger.user_value == old(market).ledger.user_value - amount
            && final(market).ledger.short_supply == old(market).ledger.short_supply
            && final(market).ledger.user_long == old(market).ledger.user_long
            && final(market).ledger.long_supply == old(market).ledger.long_supply,
        now >= old(market).vow.deadline ==> r == Err::<(), Failure>(
            Failure::Rule(AkashicErrors::DeadlinePassed),
        ),
        old(market).well_formed() ==> final(market).well_formed(),
{
    let accounts = BuyShort { vow: market.vow, vault_short: market.ledger.vault_short };
    proof {
        lemma_buy_short_moves_amount(*market, now, amount);
    }
    market.settle(BuyShort::handle(&accounts, now, amount))
}

/// Sells `amount` short tokens back to the vault's reserve at time `now`.
///
/// The participant returns `amount` short tokens to the reserve and receives
/// `amount` of value from the vault; the short supply is unchanged. On
/// failure nothing changes.
pub fn sell_short(market: &mut Market, now: i64, amount: u64) -> (r: Result<(), Failure>)
    ensures
        match r {
            Ok(()) => old(market).after_sell_short(now, amount) == Ok::<Market, Failure>(
                *final(market),
            ),
            Err(f) => old(market).after_sell_short(now, amount) == Err::<Market, Failure>(f)
                && *final(market) == *old(market),
        },
        r is Ok <==> old(market).admits_sell_short(now, amount),
        r is Ok ==> final(market).ledger.user_short == old(market).ledger.user_short - amount
            && final(market).ledger.vault_short == old(market).ledger.vault_short + amount
            && final(market).ledger.vault_value == old(market).ledger.vault_value - amount
            && final(market).ledger.user_value == old(market).ledger.user_value + amount
            && final(market).ledger.short_supply == old(market).ledger.short_supply
            && final(market).ledger.user_long == old(market).ledger.user_long
            && final(market).ledger.long_supply == old(market).ledger.long_supply,
        now >= old(market).vow.deadline ==> r == Err::<(), Failure>(
            Failure::Rule(AkashicErrors::DeadlinePassed),
        ),
        old(market).well_formed() ==> final(market).well_formed(),
{
    let accounts = SellShort { vow: market.vow, user_short: market.ledger.user_short };
    proof {
        lemma_sell_short_moves_amount(*market, now, amount);
    }
    market.settle(SellShort::handle(&accounts, now, amount))
}

/// Records the outcome `result` at time `now`.
///
/// It succeeds exactly when the market is unresolved, `now` is at or after
/// the deadline, and `result` is a success or a failure. The outcome is
/// stored, the market becomes resolved, and neither the fixed configuration
/// nor the book changes. A market that is already resolved rejects every
/// submission; the pending outcome is never recorded.
pub fn submit_result(market: &mut Market, now: i64, result: VowResult) -> (r: Result<(), Failure>)
    ensures
        match r {
            Ok(()) => old(market).after_submit_result(now, result) == Ok::<Market, Failure>(
                *final(market),
            ),
            Err(f) => old(market).after_submit_result(now, result) == Err::<Market, Failure>(f)
                && *final(market) == *old(market),
        },
        r is Ok <==> !old(market).vow.resolved && now >= old(market).vow.deadline && result
            != VowResult::Pending,
        old(market).vow.resolved ==> r == Err::<(), Failure>(
            Failure::Rule(AkashicErrors::VowAlreadyResolved),
        ),
        r is Ok ==> final(market).vow.resolved && final(market).vow.result == result
            && final(market).vow.same_configuration(old(market).vow),
        r is Ok ==> final(market).vow.well_formed(),
        r is Ok && old(market).ledger.well_formed() ==> final(market).well_formed(),
{
    let mut accounts = SubmitResult { vow: market.vow };
    match SubmitResult::handle(&mut accounts, now, result) {
        Ok(()) => {
            market.vow = accounts.vow;
            Ok(())
        },
        Err(e) => Err(Failure::Rule(e)),
    }
}

/// Redeems the participant's whole long balance.
///
/// After a successful outcome it burns the balance and pays out exactly
/// twice that amount from the vault, which must hold that much before the
/// payment. On failure nothing changes.
pub fn claim(market: &mut Market) -> (r: Result<(), Failure>)
    ensures
        match r {
            Ok(()) => old(market).after_claim() == Ok::<Market, Failure>(*final(market)),
            Err(f) => old(market).after_claim() == Err::<Market, Failure>(f) && *final(market)
                == *old(market),
        },
        r is Ok <==> old(market).admits_claim(),
        r is Ok ==> final(market).ledger.user_long == 0
            && final(market).ledger.long_supply == old(market).ledger.long_supply
            - old(market).ledger.user_long
            && final(market).ledger.user_value == old(market).ledger.user_value
            + 2 * old(market).ledger.user_long
            && final(market).ledger.vault_value == old(market).ledger.vault_value
            - 2 * old(market).ledger.user_long
            && final(market).ledger.user_short == old(market).ledger.user_short
            && final(market).ledger.vault_short == old(market).ledger.vault_short
            && final(market).ledger.short_supply == old(market).ledger.short_supply,
        old(market).well_formed() ==> final(market).well_formed(),
{
    let accounts = Claim {
        vow: market.vow,
        user_long: market.ledger.user_long,
        vault_value: market.ledger.vault_value,
    };
    proof {
        lemma_claim_pays_double(*market);
    }
    market.settle(Claim::handle(&accounts))
}

/// Records the admin configuration: `admin` and the fee, which no instruction
/// charges.
pub fn admin_init(admin: Address, fee: u64) -> (config: Config)
    ensures
        config == (Config { admin, fee }),
{
    let accounts = AdminInit { admin };
    AdminInit::handle(&accounts, fee)
}

/// A long entry succeeds exactly when it comes before the deadline with a
/// positive amount that the participant can pay and that overflows nothing;
/// it then adds exactly `amount` to the long supply, to the participant's
/// long balance, to the vault's value, and to the short reserve and supply.
pub proof fn lemma_long_adds_amount(m: Market, now: i64, amount: u64)
    ensures
        m.after_long(now, amount) is Ok <==> m.admits_long(now, amount),
        m.after_long(now, amount) matches Ok(n) ==> {
            &&& n.vow == m.vow
            &&& n.ledger.long_supply == m.ledger.long_supply + amount
            &&& n.ledger.vault_value == m.ledger.vault_value + amount
            &&& n.ledger.user_long == m.ledger.user_long + amount
            &&& n.ledger.user_value == m.ledger.user_value - amount
            &&& n.ledger.vault_short == m.ledger.vault_short + amount
            &&& n.ledger.short_supply == m.ledger.short_supply + amount
            &&& n.ledger.user_short == m.ledger.user_short
        },
{
    let a = Effect::Deposit { amount };
    let b = Effect::MintLong { amount };
    let c = Effect::MintReserve { amount };
    crate::ledger::lemma_run_three(m.ledger, a, b, c);
    if m.ledger.refusal(a) is None {
        crate::ledger::lemma_run_two(m.ledger.after(a), b, c);
        if m.ledger.after(a).refusal(b) is None {
            crate::ledger::lemma_run_one(m.ledger.after(a).after(b), c);
        }
    }
}

/// A short purchase succeeds exactly when it comes before the deadline with
/// a positive amount that the reserve holds, that the participant can pay and
/// that overflows nothing; it then moves exactly `amount` of value into the
/// vault and `amount` short tokens to the participant.
pub proof fn lemma_buy_short_moves_amount(m: Market, now: i64, amount: u64)
    ensures
        m.after_buy_short(now, amount) is Ok <==> m.admits_buy_short(now, amount),
        m.after_buy_short(now, amount) matches Ok(n) ==> n == (Market {
            vow: m.vow,
            ledger: Ledger {
                user_value: (m.ledger.user_value - amount) as u64,
                vault_value: (m.ledger.vault_value + amount) as u64,
                user_short: (m.ledger.user_short + amount) as u64,
                vault_short: (m.ledger.vault_short - amount) as u64,
                ..m.ledger
            },
        }),
{
    let a = Effect::Deposit { amount };
    let b = Effect::ReleaseShort { amount };
    crate::ledger::lemma_run_two(m.ledger, a, b);
    if m.ledger.refusal(a) is None {
        crate::ledger::lemma_run_one(m.ledger.after(a), b);
    }
}

/// A short sale succeeds exactly when it comes before the deadline with a
/// positive amount that the participant holds, the vault can pay and nothing
/// overflows; it then moves exactly `amount` short tokens to the reserve and
/// `amount` of value to the participant.
pub proof fn lemma_sell_short_moves_amount(m: Market, now: i64, amount: u64)
    ensures
        m.after_sell_short(now, amount) is Ok <==> m.admits_sell_short(now, amount),
        m.after_sell_short(now, amount) matches Ok(n) ==> n == (Market {
            vow: m.vow,
            ledger: Ledger {
                user_value: (m.ledger.user_value + amount) as u64,
                vault_value: (m.ledger.vault_value - amount) as u64,
                user_short: (m.ledger.user_short - amount) as u64,
                vault_short: (m.ledger.vault_short + amount) as u64,
                ..m.ledger
            },
        }),
{
    let a = Effect::ReturnShort { amount };
    let b = Effect::Withdraw { amount };
    crate::ledger::lemma_run_two(m.ledger, a, b);
    if m.ledger.refusal(a) is None {
        crate::ledger::lemma_run_one(m.ledger.after(a), b);
    }
}

/// Round trip: after a short purchase that succeeds, a short sale of the same
/// amount before the deadline succeeds too and leaves the market exactly as
/// it was before the purchase; in particular the participant's short balance
/// and the vault's value are restored.
pub proof fn lemma_short_round_trip(m: Market, bought_at: i64, sold_at: i64, amount: u64)
    ensures
        m.after_buy_short(bought_at, amount) matches Ok(n) ==> (sold_at < m.vow.deadline
            ==> n.after_sell_short(sold_at, amount) == Ok::<Market, Failure>(m)),
{
    lemma_buy_short_moves_amount(m, bought_at, amount);
    if let Ok(n) = m.after_buy_short(bought_at, amount) {
        lemma_sell_short_moves_amount(n, sold_at, amount);
    }
}

/// Resolution happens once: after any successful submission, every further
/// submission is rejected as already resolved, whatever its time and
/// outcome.
pub proof fn lemma_resolution_is_final(
    m: Market,
    first_at: i64,
    first: VowResult,
    second_at: i64,
    second: VowResult,
)
    ensures
        m.vow.resolved ==> m.after_submit_result(second_at, second) == Err::<Market, Failure>(
            Failure::Rule(AkashicErrors::VowAlreadyResolved),
        ),
        m.after_submit_result(first_at, first) matches Ok(n) ==> n.after_submit_result(
            second_at,
            second,
        ) == Err::<Market, Failure>(Failure::Rule(AkashicErrors::VowAlreadyResolved)),
{
}

/// A claim that succeeds pays exactly twice the presented long balance out
/// of the vault, which held at least that much, and burns the whole balance.
/// It succeeds exactly when the market is resolved as a success, the balance
/// is positive and within the supply, the vault holds the payout, and the
/// payout overflows neither 64 bits nor the participant's value.
pub proof fn lemma_claim_pays_double(m: Market)
    ensures
        m.after_claim() is Ok <==> m.admits_claim(),
        m.after_claim() matches Ok(n) ==> n == (Market {
            vow: m.vow,
            ledger: Ledger {
                user_long: 0,
                long_supply: (m.ledger.long_supply - m.ledger.user_long) as u64,
                user_value: (m.ledger.user_value + 2 * m.ledger.user_long) as u64,
                vault_value: (m.ledger.vault_value - 2 * m.ledger.user_long) as u64,
                ..m.ledger
            },
        }),
{
    let amount = m.ledger.user_long;
    let a = Effect::BurnLong { amount };
    let b = Effect::Withdraw { amount: (2 * amount) as u64 };
    crate::ledger::lemma_run_two(m.ledger, a, b);
    if m.ledger.refusal(a) is None {
        crate::ledger::lemma_run_one(m.ledger.after(a), b);
    }
}

/// A claim on a market whose outcome is a failure, or is pending, is always
/// rejected as an invalid claim, whatever the balances. With a successful
/// outcome, a claim with no long balance is rejected as an invalid amount.
pub proof fn lemma_claim_needs_success(m: Market)
    ensures
        m.vow.result != VowResult::Success ==> m.after_claim() == Err::<Market, Failure>(
            Failure::Rule(AkashicErrors::InvalidClaim),
        ),
        m.vow.well_formed() && m.vow.result == VowResult::Success && m.ledger.user_long == 0
            ==> m.after_claim() == Err::<Market, Failure>(
            Failure::Rule(AkashicErrors::InvalidAmount),
        ),
{
}

/// No trade at or after the deadline: a long entry, a short purchase and a
/// short sale are each rejected with the deadline failure, whatever the
/// amount and the balances.
pub proof fn lemma_no_entry_after_deadline(m: Market, now: i64, amount: u64)
    requires
        now >= m.vow.deadline,
    ensures
        m.after_long(now, amount) == Err::<Market, Failure>(
            Failure::Rule(AkashicErrors::DeadlinePassed),
        ),
        m.after_buy_short(now, amount) == Err::<Market, Failure>(
            Failure::Rule(AkashicErrors::DeadlinePassed),
        ),
        m.after_sell_short(now, amount) == Err::<Market, Failure>(
            Failure::Rule(AkashicErrors::DeadlinePassed),
        ),
{
}

/// Short trades move short tokens between the reserve and the participant
/// and never mint or burn them: across a purchase or a sale the short supply,
/// and what the two hold together, stay the same.
pub proof fn lemma_short_trades_conserve_supply(m: Market, now: i64, amount: u64)
    ensures
        m.after_buy_short(now, amount) matches Ok(n) ==> n.ledger.short_supply
            == m.ledger.short_supply && n.ledger.user_short + n.ledger.vault_short
            == m.ledger.user_short + m.ledger.vault_short,
        m.after_sell_short(now, amount) matches Ok(n) ==> n.ledger.short_supply
            == m.ledger.short_supply && n.ledger.user_short + n.ledger.vault_short
            == m.ledger.user_short + m.ledger.vault_short,
{
    lemma_buy_short_moves_amount(m, now, amount);
    lemma_sell_short_moves_amount(m, now, amount);
}

/// What is fixed at creation stays fixed, and a resolved market stays
/// resolved: entries, exits and claims leave the record untouched, and a
/// submission changes only the outcome and the resolution flag.
pub proof fn lemma_configuration_is_fixed(m: Market, now: i64, amount: u64, result: VowResult)
    ensures
        m.after_long(now, amount) matches Ok(n) ==> n.vow == m.vow,
        m.after_buy_short(now, amount) matches Ok(n) ==> n.vow == m.vow,
        m.after_sell_short(now, amount) matches Ok(n) ==> n.vow == m.vow,
        m.after_claim() matches Ok(n) ==> n.vow == m.vow,
        m.after_submit_result(now, result) matches Ok(n) ==> n.vow.same_configuration(m.vow)
            && n.vow.resolved && n.vow.result == result && result != VowResult::Pending
            && n.ledger == m.ledger && !m.vow.resolved && now >= m.vow.deadline,
{
}

/// A well-formed market stays well formed: no instruction lets a holder have
/// more tokens than exist, and the resolution flag keeps agreeing with the
/// outcome.
pub proof fn lemma_operations_keep_well_formed(m: Market, now: i64, amount: u64, result: VowResult)
    requires
        m.well_formed(),
    ensures
        m.after_long(now, amount) matches Ok(n) ==> n.well_formed(),
        m.after_buy_short(now, amount) matches Ok(n) ==> n.well_formed(),
        m.after_sell_short(now, amount) matches Ok(n) ==> n.well_formed(),
        m.after_claim() matches Ok(n) ==> n.well_formed(),
        m.after_submit_result(now, result) matches Ok(n) ==> n.well_formed(),
{
    if let Ok(plan) = (Long { vow: m.vow }).decide(now, amount) {
        crate::ledger::lemma_run_keeps_well_formed(m.ledger, plan);
    }
    if let Ok(plan) = (BuyShort { vow: m.vow, vault_short: m.ledger.vault_short }).decide(
        now,
        amount,
    ) {
        crate::ledger::lemma_run_keeps_well_formed(m.ledger, plan);
    }
    if let Ok(plan) = (SellShort { vow: m.vow, user_short: m.ledger.user_short }).decide(
        now,
        amount,
    ) {
        crate::ledger::lemma_run_keeps_well_formed(m.ledger, plan);
    }
    if let Ok(plan) = (Claim {
        vow: m.vow,
        user_long: m.ledger.user_long,
        vault_value: m.ledger.vault_value,
    }).decide() {
        crate::ledger::lemma_run_keeps_well_formed(m.ledger, plan);
    }
}

/// The short supply keeps covering the long supply: where it does before an
/// instruction, it does after it. A long entry mints both classes alike,
/// short trades mint neither, and a claim burns long tokens only.
pub proof fn lemma_short_supply_covers_long(m: Market, now: i64, amount: u64, result: VowResult)
    requires
        m.short_covers_long(),
    ensures
        m.after_long(now, amount) matches Ok(n) ==> n.short_covers_long(),
        m.after_buy_short(now, amount) matches Ok(n) ==> n.short_covers_long(),
        m.after_sell_short(now, amount) matches Ok(n) ==> n.short_covers_long(),
        m.after_claim() matches Ok(n) ==> n.short_covers_long(),
        m.after_submit_result(now, result) matches Ok(n) ==> n.short_covers_long(),
{
    lemma_long_adds_amount(m, now, amount);
    lemma_buy_short_moves_amount(m, now, amount);
    lemma_sell_short_moves_amount(m, now, amount);
    lemma_claim_pays_double(m);
}

} // verus!
