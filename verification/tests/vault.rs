use solignition::{
    deposit, withdraw, Deposit, DepositOutcome, Deposited, DepositorRecord, ErrorCode, Identity,
    ProtocolConfig, Transfer, Withdraw, WithdrawOutcome, Withdrawn,
};

fn vault_id(n: u8) -> Identity {
    Identity::new([n; 32])
}

fn vault_config(total_deposits: u64, total_loans_outstanding: u64) -> ProtocolConfig {
    ProtocolConfig {
        admin: vault_id(1),
        treasury: vault_id(2),
        deployer: vault_id(3),
        admin_fee_split_bps: 5000,
        default_interest_rate_bps: 500,
        default_admin_fee_bps: 100,
        total_deposits,
        total_loans_outstanding,
        total_yield_distributed: 0,
        loan_counter: 0,
        is_paused: false,
    }
}

fn record_of(owner: Identity, amount: u64) -> DepositorRecord {
    DepositorRecord { owner, deposited_amount: amount, share_amount: amount, last_update_ts: 5 }
}

fn deposit_ctx(record: DepositorRecord, config: ProtocolConfig) -> Deposit {
    Deposit { depositor: vault_id(40), depositor_record: record, protocol_config: config, vault: vault_id(10) }
}

fn withdraw_ctx(record: DepositorRecord, config: ProtocolConfig) -> Withdraw {
    Withdraw { depositor: vault_id(40), depositor_record: record, protocol_config: config, vault: vault_id(10) }
}

#[test]
fn first_deposit_creates_the_record() {
    let mut ctx = deposit_ctx(DepositorRecord::vacant(), vault_config(0, 0));
    let outcome = deposit(&mut ctx, 500, 1_700_000_000);
    assert_eq!(
        outcome,
        Ok(DepositOutcome {
            transfer: Transfer { from: vault_id(40), to: vault_id(10), amount: 500 },
            event: Deposited { depositor: vault_id(40), amount: 500, total_deposits: 500 },
        })
    );
    assert_eq!(
        ctx.depositor_record,
        DepositorRecord {
            owner: vault_id(40),
            deposited_amount: 500,
            share_amount: 500,
            last_update_ts: 1_700_000_000,
        }
    );
    assert_eq!(ctx.protocol_config, vault_config(500, 0));
}

#[test]
fn later_deposits_add_up() {
    let mut ctx = deposit_ctx(record_of(vault_id(40), 300), vault_config(1000, 400));
    let outcome = deposit(&mut ctx, 25, 99).unwrap();
    assert_eq!(outcome.event.total_deposits, 1025);
    assert_eq!(ctx.depositor_record.deposited_amount, 325);
    assert_eq!(ctx.depositor_record.share_amount, 325);
    assert_eq!(ctx.depositor_record.last_update_ts, 99);
    assert_eq!(ctx.protocol_config, vault_config(1025, 400));
}

#[test]
fn deposit_of_nothing_is_rejected() {
    let mut ctx = deposit_ctx(record_of(vault_id(40), 300), vault_config(1000, 400));
    let before = ctx;
    assert_eq!(deposit(&mut ctx, 0, 99), Err(ErrorCode::InvalidAmount));
    assert_eq!(ctx, before);
}

#[test]
fn deposit_while_paused_is_rejected() {
    let mut config = vault_config(1000, 400);
    config.is_paused = true;
    let mut ctx = deposit_ctx(record_of(vault_id(40), 300), config);
    let before = ctx;
    assert_eq!(deposit(&mut ctx, 10, 99), Err(ErrorCode::ProtocolPaused));
    assert_eq!(ctx, before);
    assert_eq!(deposit(&mut ctx, 0, 99), Err(ErrorCode::ProtocolPaused));
    assert_eq!(ctx, before);
}

#[test]
fn deposit_can_fill_the_counters_to_the_brim() {
    let mut ctx = deposit_ctx(record_of(vault_id(40), u64::MAX - 7), vault_config(u64::MAX - 7, 0));
    deposit(&mut ctx, 7, 1).unwrap();
    assert_eq!(ctx.depositor_record.share_amount, u64::MAX);
    assert_eq!(ctx.depositor_record.deposited_amount, u64::MAX);
    assert_eq!(ctx.protocol_config.total_deposits, u64::MAX);
}

#[test]
fn withdraw_pays_out_and_shrinks_the_record() {
    let mut ctx = withdraw_ctx(record_of(vault_id(40), 300), vault_config(1000, 400));
    let outcome = withdraw(&mut ctx, 120, 77);
    assert_eq!(
        outcome,
        Ok(WithdrawOutcome {
            transfer: Transfer { from: vault_id(10), to: vault_id(40), amount: 120 },
            event: Withdrawn { depositor: vault_id(40), amount: 120, remaining_balance: 180 },
        })
    );
    assert_eq!(
        ctx.depositor_record,
        DepositorRecord { owner: vault_id(40), deposited_amount: 180, share_amount: 180, last_update_ts: 77 }
    );
    assert_eq!(ctx.protocol_config, vault_config(880, 400));
}

#[test]
fn withdraw_floors_the_deposited_amount_at_zero() {
    let record = DepositorRecord { owner: vault_id(40), deposited_amount: 50, share_amount: 300, last_update_ts: 5 };
    let mut ctx = withdraw_ctx(record, vault_config(1000, 0));
    withdraw(&mut ctx, 200, 77).unwrap();
    assert_eq!(ctx.depositor_record.deposited_amount, 0);
    assert_eq!(ctx.depositor_record.share_amount, 100);
    assert_eq!(ctx.protocol_config.total_deposits, 800);
}

#[test]
fn withdraw_of_nothing_is_granted() {
    let mut ctx = withdraw_ctx(record_of(vault_id(40), 300), vault_config(1000, 1000));
    let outcome = withdraw(&mut ctx, 0, 77).unwrap();
    assert_eq!(outcome.transfer.amount, 0);
    assert_eq!(outcome.event.remaining_balance, 300);
    assert_eq!(ctx.depositor_record.share_amount, 300);
    assert_eq!(ctx.depositor_record.last_update_ts, 77);
    assert_eq!(ctx.protocol_config, vault_config(1000, 1000));
}

#[test]
fn withdraw_by_a_stranger_is_rejected() {
    let mut ctx = withdraw_ctx(record_of(vault_id(41), 300), vault_config(1000, 400));
    let before = ctx;
    assert_eq!(withdraw(&mut ctx, 120, 77), Err(ErrorCode::UnauthorizedDepositor));
    assert_eq!(ctx, before);
}

#[test]
fn withdraw_while_paused_is_rejected() {
    let mut config = vault_config(1000, 400);
    config.is_paused = true;
    let mut ctx = withdraw_ctx(record_of(vault_id(40), 300), config);
    let before = ctx;
    assert_eq!(withdraw(&mut ctx, 120, 77), Err(ErrorCode::ProtocolPaused));
    assert_eq!(ctx, before);
}

#[test]
fn withdraw_beyond_the_share_is_rejected() {
    let mut ctx = withdraw_ctx(record_of(vault_id(40), 300), vault_config(1000, 400));
    let before = ctx;
    assert_eq!(withdraw(&mut ctx, 301, 77), Err(ErrorCode::InsufficientBalance));
    assert_eq!(ctx, before);
    assert!(withdraw(&mut ctx, 300, 77).is_ok());
}

#[test]
fn withdraw_beyond_the_liquidity_is_rejected() {
    let mut ctx = withdraw_ctx(record_of(vault_id(40), 800), vault_config(1000, 400));
    let before = ctx;
    assert_eq!(withdraw(&mut ctx, 601, 77), Err(ErrorCode::InsufficientLiquidity));
    assert_eq!(ctx, before);
    assert!(withdraw(&mut ctx, 600, 77).is_ok());
    assert_eq!(ctx.protocol_config.total_deposits, 400);
    assert_eq!(ctx.protocol_config.available_liquidity(), 0);
}

#[test]
fn withdraw_rejections_come_in_order() {
    // A stranger, paused, beyond share and liquidity: the stranger is named.
    let mut config = vault_config(100, 100);
    config.is_paused = true;
    let mut ctx = withdraw_ctx(record_of(vault_id(41), 10), config);
    assert_eq!(withdraw(&mut ctx, 50, 1), Err(ErrorCode::UnauthorizedDepositor));
    // The owner, paused: the pause is named.
    ctx.depositor_record.owner = vault_id(40);
    assert_eq!(withdraw(&mut ctx, 50, 1), Err(ErrorCode::ProtocolPaused));
    // Running, beyond share and liquidity: the share is named.
    ctx.protocol_config.is_paused = false;
    assert_eq!(withdraw(&mut ctx, 50, 1), Err(ErrorCode::InsufficientBalance));
    // Within the share, beyond the liquidity.
    ctx.depositor_record.share_amount = 50;
    assert_eq!(withdraw(&mut ctx, 50, 1), Err(ErrorCode::InsufficientLiquidity));
}

#[test]
fn deposit_then_withdraw_round_trip() {
    let mut d = deposit_ctx(DepositorRecord::vacant(), vault_config(4200, 1200));
    deposit(&mut d, 1000, 10).unwrap();
    assert_eq!(d.protocol_config.total_deposits, 5200);
    let mut w = withdraw_ctx(d.depositor_record, d.protocol_config);
    withdraw(&mut w, 1000, 20).unwrap();
    assert_eq!(w.depositor_record.deposited_amount, 0);
    assert_eq!(w.depositor_record.share_amount, 0);
    assert_eq!(w.depositor_record.owner, vault_id(40));
    assert_eq!(w.protocol_config.total_deposits, 4200);
    assert_eq!(w.protocol_config, vault_config(4200, 1200));
}

#[test]
fn round_trip_when_everything_else_is_lent_out() {
    let mut d = deposit_ctx(record_of(vault_id(40), 700), vault_config(700, 700));
    deposit(&mut d, 1, 10).unwrap();
    let mut w = withdraw_ctx(d.depositor_record, d.protocol_config);
    assert_eq!(withdraw(&mut w, 2, 20), Err(ErrorCode::InsufficientLiquidity));
    withdraw(&mut w, 1, 20).unwrap();
    assert_eq!(w.depositor_record.share_amount, 700);
    assert_eq!(w.protocol_config, vault_config(700, 700));
}

#[test]
fn vault_operations_keep_the_pool_solvent() {
    let mut d = deposit_ctx(DepositorRecord::vacant(), vault_config(900, 900));
    assert!(d.is_well_formed());
    deposit(&mut d, 100, 1).unwrap();
    assert!(d.is_well_formed());
    let mut w = withdraw_ctx(d.depositor_record, d.protocol_config);
    assert!(w.is_well_formed());
    assert_eq!(withdraw(&mut w, u64::MAX, 2), Err(ErrorCode::InsufficientBalance));
    assert!(w.is_well_formed());
    withdraw(&mut w, 100, 2).unwrap();
    assert!(w.is_well_formed());
    assert!(w.protocol_config.total_deposits >= w.protocol_config.total_loans_outstanding);
    assert_eq!(w.protocol_config.total_loans_outstanding, 900);
}
