use akashic::state::TOKEN_DECIMALS;
use akashic::{
    Address, AdminInit, AkashicErrors, Bumps, BuyShort, Claim, Config, Effect, Initialise, Ledger,
    LedgerError, Long, SellShort, SubmitResult, Vow, VowResult,
};

fn addr(b: u8) -> Address {
    Address { bytes: [b; 32] }
}

fn vow(deadline: i64, result: VowResult, resolved: bool) -> Vow {
    Vow {
        authority: addr(1),
        seeds: 0x0102_0304_0506_0708,
        deadline,
        long_mint: addr(2),
        short_mint: addr(3),
        vault: addr(4),
        result,
        resolved,
        vow_bump: 251,
        vault_bump: 1,
        long_mint_bump: 2,
        short_mint_bump: 3,
    }
}

fn open_vow(deadline: i64) -> Vow {
    vow(deadline, VowResult::Pending, false)
}

#[test]
fn long_plan_is_deposit_and_two_mints() {
    let ctx = Long { vow: open_vow(10) };
    assert_eq!(
        Long::handle(&ctx, 9, 1000),
        Ok(vec![
            Effect::Deposit { amount: 1000 },
            Effect::MintLong { amount: 1000 },
            Effect::MintReserve { amount: 1000 },
        ])
    );
    assert_eq!(Long::handle(&ctx, 10, 1000), Err(AkashicErrors::DeadlinePassed));
    assert_eq!(Long::handle(&ctx, 9, 0), Err(AkashicErrors::InvalidAmount));
    assert_eq!(Long::handle(&ctx, i64::MIN, u64::MAX).map(|p| p.len()), Ok(3));
}

#[test]
fn buy_short_plan_is_deposit_and_release() {
    let ctx = BuyShort { vow: open_vow(10), vault_short: 400 };
    assert_eq!(
        BuyShort::handle(&ctx, 9, 400),
        Ok(vec![Effect::Deposit { amount: 400 }, Effect::ReleaseShort { amount: 400 }])
    );
    assert_eq!(BuyShort::handle(&ctx, 9, 401), Err(AkashicErrors::InsufficientShortTokens));
    assert_eq!(BuyShort::handle(&ctx, 9, 0), Err(AkashicErrors::InvalidAmount));
    assert_eq!(BuyShort::handle(&ctx, 10, 401), Err(AkashicErrors::DeadlinePassed));
}

#[test]
fn sell_short_plan_is_return_and_withdraw() {
    let ctx = SellShort { vow: open_vow(10), user_short: 300 };
    assert_eq!(
        SellShort::handle(&ctx, 9, 300),
        Ok(vec![Effect::ReturnShort { amount: 300 }, Effect::Withdraw { amount: 300 }])
    );
    assert_eq!(
        SellShort::handle(&ctx, 9, 1),
        Ok(vec![Effect::ReturnShort { amount: 1 }, Effect::Withdraw { amount: 1 }])
    );
}

#[test]
fn sell_short_rejections_in_order() {
    let ctx = SellShort { vow: open_vow(10), user_short: 300 };
    assert_eq!(SellShort::handle(&ctx, 10, 0), Err(AkashicErrors::DeadlinePassed));
    assert_eq!(SellShort::handle(&ctx, 10, 301), Err(AkashicErrors::DeadlinePassed));
    assert_eq!(SellShort::handle(&ctx, 11, 300), Err(AkashicErrors::DeadlinePassed));
    assert_eq!(SellShort::handle(&ctx, 9, 0), Err(AkashicErrors::InvalidAmount));
    assert_eq!(SellShort::handle(&ctx, 9, 301), Err(AkashicErrors::InsufficientShortTokens));
    let empty = SellShort { vow: open_vow(10), user_short: 0 };
    assert_eq!(SellShort::handle(&empty, 9, 0), Err(AkashicErrors::InvalidAmount));
    assert_eq!(SellShort::handle(&empty, 9, 1), Err(AkashicErrors::InsufficientShortTokens));
}

#[test]
fn claim_plan_is_burn_and_double_withdraw() {
    let ctx = Claim { vow: vow(10, VowResult::Success, true), user_long: 1000, vault_value: 2000 };
    assert_eq!(
        Claim::handle(&ctx),
        Ok(vec![Effect::BurnLong { amount: 1000 }, Effect::Withdraw { amount: 2000 }])
    );
}

#[test]
fn claim_rejections_in_order() {
    let success = vow(10, VowResult::Success, true);
    let pending = Claim { vow: open_vow(10), user_long: 1000, vault_value: 2000 };
    assert_eq!(Claim::handle(&pending), Err(AkashicErrors::InvalidClaim));
    let pending_empty = Claim { vow: open_vow(10), user_long: 0, vault_value: 0 };
    assert_eq!(Claim::handle(&pending_empty), Err(AkashicErrors::InvalidClaim));
    let failed = Claim { vow: vow(10, VowResult::Failure, true), user_long: 0, vault_value: 0 };
    assert_eq!(Claim::handle(&failed), Err(AkashicErrors::InvalidClaim));
    let failed_full = Claim { vow: vow(10, VowResult::Failure, true), user_long: 5, vault_value: 10 };
    assert_eq!(Claim::handle(&failed_full), Err(AkashicErrors::InvalidClaim));
    let flagged = Claim { vow: vow(10, VowResult::Pending, true), user_long: 5, vault_value: 10 };
    assert_eq!(Claim::handle(&flagged), Err(AkashicErrors::InvalidClaim));
    // A record that names a success without being resolved has nothing to pay.
    let unflagged = Claim { vow: vow(10, VowResult::Success, false), user_long: 5, vault_value: 10 };
    assert_eq!(Claim::handle(&unflagged), Err(AkashicErrors::VowNotResolved));
    let empty = Claim { vow: success, user_long: 0, vault_value: 0 };
    assert_eq!(Claim::handle(&empty), Err(AkashicErrors::InvalidAmount));
    let huge = Claim { vow: success, user_long: 1 << 63, vault_value: u64::MAX };
    assert_eq!(Claim::handle(&huge), Err(AkashicErrors::ArithmeticOverflow));
    let poor = Claim { vow: success, user_long: 1000, vault_value: 1999 };
    assert_eq!(Claim::handle(&poor), Err(AkashicErrors::InsufficientShortTokens));
    let largest = Claim { vow: success, user_long: u64::MAX / 2, vault_value: u64::MAX };
    assert_eq!(
        Claim::handle(&largest),
        Ok(vec![
            Effect::BurnLong { amount: u64::MAX / 2 },
            Effect::Withdraw { amount: u64::MAX - 1 },
        ])
    );
}

#[test]
fn submit_result_never_records_pending() {
    let mut ctx = SubmitResult { vow: open_vow(10) };
    assert_eq!(SubmitResult::handle(&mut ctx, 9, VowResult::Pending), Err(AkashicErrors::DeadlinePassed));
    assert_eq!(SubmitResult::handle(&mut ctx, 10, VowResult::Pending), Err(AkashicErrors::VowNotResolved));
    assert_eq!(SubmitResult::handle(&mut ctx, i64::MAX, VowResult::Pending), Err(AkashicErrors::VowNotResolved));
    assert_eq!(ctx.vow, open_vow(10));
    assert_eq!(SubmitResult::handle(&mut ctx, 10, VowResult::Failure), Ok(()));
    assert_eq!(ctx.vow, vow(10, VowResult::Failure, true));
    assert_eq!(
        SubmitResult::handle(&mut ctx, 10, VowResult::Pending),
        Err(AkashicErrors::VowAlreadyResolved)
    );
}

#[test]
fn submit_result_sets_outcome_once() {
    let mut ctx = SubmitResult { vow: open_vow(10) };
    assert_eq!(SubmitResult::handle(&mut ctx, 9, VowResult::Success), Err(AkashicErrors::DeadlinePassed));
    assert_eq!(ctx.vow, open_vow(10));
    assert_eq!(SubmitResult::handle(&mut ctx, 10, VowResult::Success), Ok(()));
    assert_eq!(ctx.vow, vow(10, VowResult::Success, true));
    assert_eq!(
        SubmitResult::handle(&mut ctx, 11, VowResult::Failure),
        Err(AkashicErrors::VowAlreadyResolved)
    );
    assert_eq!(ctx.vow, vow(10, VowResult::Success, true));
}

#[test]
fn initialise_fills_the_slot_and_charges_rent() {
    let mut ctx = Initialise {
        authority: addr(1),
        long_mint: addr(2),
        short_mint: addr(3),
        vault: addr(4),
        bumps: Bumps { vow: 251, vault: 1, long_mint: 2, short_mint: 3 },
        vow: None,
    };
    assert_eq!(
        Initialise::handle(&mut ctx, 0x0102_0304_0506_0708, 10, 890_880),
        Ok(vec![Effect::Deposit { amount: 890_880 }])
    );
    assert_eq!(ctx.vow, Some(open_vow(10)));
    let filled = ctx;
    assert_eq!(Initialise::handle(&mut ctx, 1, 2, 3), Err(AkashicErrors::VowAlreadyInitialised));
    assert_eq!(ctx, filled);
}

#[test]
fn admin_init_handle_builds_config() {
    let ctx = AdminInit { admin: addr(8) };
    assert_eq!(AdminInit::handle(&ctx, u64::MAX), Config { admin: addr(8), fee: u64::MAX });
}

#[test]
fn signer_seeds_are_label_seed_authority_bump() {
    let v = open_vow(10);
    let seeds = v.signer_seeds();
    assert_eq!(
        seeds,
        vec![
            b"vow".to_vec(),
            vec![0x08, 0x07, 0x06, 0x05, 0x04, 0x03, 0x02, 0x01],
            vec![1u8; 32],
            vec![251u8],
        ]
    );
}

#[test]
fn address_to_vec_keeps_every_byte() {
    let mut bytes = [0u8; 32];
    for i in 0..32 {
        bytes[i] = (i * 3) as u8;
    }
    let a = Address { bytes };
    assert_eq!(a.to_vec(), bytes.to_vec());
}

#[test]
fn trading_is_open_strictly_before_deadline() {
    let v = open_vow(10);
    assert!(v.is_trading_open(9));
    assert!(!v.is_trading_open(10));
    assert!(!v.is_trading_open(11));
    assert_eq!(TOKEN_DECIMALS, 9);
}

#[test]
fn error_codes_follow_declaration_order() {
    assert_eq!(AkashicErrors::VowAlreadyInitialised.code(), 6000);
    assert_eq!(AkashicErrors::DeadlinePassed.code(), 6001);
    assert_eq!(AkashicErrors::VowNotResolved.code(), 6002);
    assert_eq!(AkashicErrors::VowAlreadyResolved.code(), 6003);
    assert_eq!(AkashicErrors::InvalidAmount.code(), 6004);
    assert_eq!(AkashicErrors::InsufficientShortTokens.code(), 6005);
    assert_eq!(AkashicErrors::InvalidClaim.code(), 6006);
    assert_eq!(AkashicErrors::ArithmeticOverflow.code(), 6007);
}

#[test]
fn error_messages() {
    assert_eq!(AkashicErrors::VowAlreadyInitialised.message(), "Vow is already initialised");
    assert_eq!(AkashicErrors::DeadlinePassed.message(), "Deadline has passed");
    assert_eq!(AkashicErrors::VowNotResolved.message(), "Vow is not yet resolved");
    assert_eq!(AkashicErrors::VowAlreadyResolved.message(), "Vow is already resolved");
    assert_eq!(AkashicErrors::InvalidAmount.message(), "Invalid amount");
    assert_eq!(
        AkashicErrors::InsufficientShortTokens.message(),
        "Insufficient short tokens in vault"
    );
    assert_eq!(AkashicErrors::InvalidClaim.message(), "Cannot claim - wrong outcome");
    assert_eq!(AkashicErrors::ArithmeticOverflow.message(), "Arithmetic overflow");
}

fn book() -> Ledger {
    Ledger {
        user_value: 100,
        vault_value: 50,
        user_long: 10,
        long_supply: 30,
        user_short: 5,
        vault_short: 20,
        short_supply: 40,
    }
}

#[test]
fn ledger_applies_each_effect() {
    let mut b = book();
    assert_eq!(b.apply(Effect::Deposit { amount: 100 }), Ok(()));
    assert_eq!((b.user_value, b.vault_value), (0, 150));
    assert_eq!(b.apply(Effect::Withdraw { amount: 150 }), Ok(()));
    assert_eq!((b.user_value, b.vault_value), (150, 0));
    assert_eq!(b.apply(Effect::MintLong { amount: 4 }), Ok(()));
    assert_eq!((b.user_long, b.long_supply), (14, 34));
    assert_eq!(b.apply(Effect::MintReserve { amount: 6 }), Ok(()));
    assert_eq!((b.vault_short, b.short_supply), (26, 46));
    assert_eq!(b.apply(Effect::BurnLong { amount: 14 }), Ok(()));
    assert_eq!((b.user_long, b.long_supply), (0, 20));
    assert_eq!(b.apply(Effect::ReleaseShort { amount: 26 }), Ok(()));
    assert_eq!((b.user_short, b.vault_short, b.short_supply), (31, 0, 46));
    assert_eq!(b.apply(Effect::ReturnShort { amount: 31 }), Ok(()));
    assert_eq!((b.user_short, b.vault_short, b.short_supply), (0, 31, 46));
}

#[test]
fn ledger_refuses_what_it_cannot_carry_out() {
    let mut b = book();
    assert_eq!(b.apply(Effect::Deposit { amount: 101 }), Err(LedgerError::InsufficientValue));
    assert_eq!(b.apply(Effect::Withdraw { amount: 51 }), Err(LedgerError::InsufficientValue));
    assert_eq!(b.apply(Effect::BurnLong { amount: 11 }), Err(LedgerError::InsufficientTokens));
    assert_eq!(b.apply(Effect::ReleaseShort { amount: 21 }), Err(LedgerError::InsufficientTokens));
    assert_eq!(b.apply(Effect::ReturnShort { amount: 6 }), Err(LedgerError::InsufficientTokens));
    assert_eq!(b.apply(Effect::MintLong { amount: u64::MAX - 29 }), Err(LedgerError::Overflow));
    assert_eq!(b.apply(Effect::MintReserve { amount: u64::MAX - 39 }), Err(LedgerError::Overflow));
    assert_eq!(b, book());
    b.vault_value = u64::MAX;
    assert_eq!(b.apply(Effect::Deposit { amount: 1 }), Err(LedgerError::Overflow));
}

#[test]
fn ledger_apply_all_is_all_or_nothing() {
    let mut b = book();
    let plan = vec![
        Effect::Deposit { amount: 10 },
        Effect::MintLong { amount: 10 },
        Effect::BurnLong { amount: 21 },
    ];
    assert_eq!(b.apply_all(&plan), Err(LedgerError::InsufficientTokens));
    assert_eq!(b, book());
    let plan = vec![Effect::Deposit { amount: 10 }, Effect::MintLong { amount: 10 }];
    assert_eq!(b.apply_all(&plan), Ok(()));
    assert_eq!((b.user_value, b.vault_value, b.user_long, b.long_supply), (90, 60, 20, 40));
    assert_eq!(b.apply_all(&Vec::new()), Ok(()));
    assert_eq!(Ledger::new(77).user_value, 77);
}
