use cp_swap::{
    collect_fee, initialize, initialize_with_balance, is_supported_mint_owner, prepare_initialize,
    swap, update_amm_config,
    update_pool_status, vault_balance, Address, AmmConfig, AmmConfigUpdate,
    CollectFees, CollectedFees, ErrorCode, InitializeAccounts, MintInfo, PoolState,
    PoolStatusBitFlag, PoolStatusBitIndex, TradeDirection,
};

fn addr(n: u64) -> Address {
    Address::new(n, n + 1, n + 2, n + 3)
}

fn config() -> AmmConfig {
    AmmConfig {
        trade_fee_rate: 2500,
        protocol_fee_rate: 120_000,
        protocol_fee_collector: addr(100),
        ..AmmConfig::default()
    }
}

fn accounts() -> InitializeAccounts {
    InitializeAccounts {
        creator: addr(1),
        amm_config: addr(2),
        mint: MintInfo { key: addr(3), owner: addr(4), decimals: 6 },
        mint_supported: true,
        usdc_supported: true,
        token_mint_vault: addr(5),
        token_usdc_vault: addr(6),
        auth_bump: 254,
    }
}

fn token_account_data(amount: u64) -> Vec<u8> {
    let mut data = vec![0u8; 165];
    data[64..72].copy_from_slice(&amount.to_le_bytes());
    data[108] = 1; // initialised
    data
}

fn pool_with_fees() -> PoolState {
    PoolState {
        pool_creator: addr(1),
        mint: addr(3),
        protocol_fees_token_mint: 10,
        protocol_fees_token_usdc: 20,
        creator_fees_token_mint: 30,
        creator_fees_token_usdc: 40,
        off_set: 5_000_000,
        ..PoolState::default()
    }
}

#[test]
fn vault_amounts_exclude_fees_and_add_offset() {
    let pool = pool_with_fees();
    assert_eq!(pool.vault_amount_without_fee(1_000, 2_000), Ok((960, 5_001_940)));
}

#[test]
fn vault_amounts_fail_when_fees_exceed_balance() {
    let pool = pool_with_fees();
    assert_eq!(pool.vault_amount_without_fee(39, 2_000), Err(ErrorCode::ArithmeticError));
    let mut small = pool;
    small.off_set = 0;
    assert_eq!(small.vault_amount_without_fee(40, 59), Err(ErrorCode::ArithmeticError));
    assert_eq!(pool.vault_amount_without_fee(40, u64::MAX), Err(ErrorCode::ArithmeticError));
}

#[test]
fn price_x32_values() {
    let pool = PoolState { off_set: 5_000_000, ..PoolState::default() };
    assert_eq!(
        pool.token_price_x32(10_000_000, 20_000_000),
        Ok((10_737_418_240, 1_717_986_918, 20_000_000))
    );
    assert_eq!(pool.token_price_x32(0, 20_000_000), Err(ErrorCode::ArithmeticError));
}

#[test]
fn collect_and_reset_twice_returns_zeros() {
    let mut pool = pool_with_fees();
    let first = pool.collect_and_reset();
    assert_eq!(
        first,
        CollectedFees { creator_mint: 30, creator_usdc: 40, protocol_mint: 10, protocol_usdc: 20 }
    );
    let second = pool.collect_and_reset();
    assert_eq!(
        second,
        CollectedFees { creator_mint: 0, creator_usdc: 0, protocol_mint: 0, protocol_usdc: 0 }
    );
}

#[test]
fn collect_fee_by_creator_and_by_collector() {
    let expected = CollectFees {
        mint: addr(3),
        creator_mint_fees: 30,
        creator_usdc_fees: 40,
        protocol_mint_fees: 10,
        protocol_usdc_fees: 20,
    };
    let mut pool = pool_with_fees();
    assert_eq!(collect_fee(&mut pool, &config(), addr(1)), Ok(expected));
    assert_eq!(pool.creator_fees_token_usdc, 0);
    let mut pool = pool_with_fees();
    assert_eq!(collect_fee(&mut pool, &config(), addr(100)), Ok(expected));
    assert_eq!(pool.protocol_fees_token_mint, 0);
}

#[test]
fn collect_fee_by_stranger_is_refused() {
    let mut pool = pool_with_fees();
    assert_eq!(collect_fee(&mut pool, &config(), addr(50)), Err(ErrorCode::InvalidOwner));
    assert_eq!(pool.protocol_fees_token_mint, 10);
    assert_eq!(pool.protocol_fees_token_usdc, 20);
    assert_eq!(pool.creator_fees_token_mint, 30);
    assert_eq!(pool.creator_fees_token_usdc, 40);
}

#[test]
fn past_open_time_moves_to_next_second() {
    assert_eq!(prepare_initialize(&config(), &accounts(), 100, 1_000), Ok(1_001));
    assert_eq!(prepare_initialize(&config(), &accounts(), 1_000, 1_000), Ok(1_001));
    assert_eq!(prepare_initialize(&config(), &accounts(), 5_000, 1_000), Ok(5_000));
}

#[test]
fn unsupported_mint_is_refused() {
    let mut acc = accounts();
    acc.usdc_supported = false;
    assert_eq!(prepare_initialize(&config(), &acc, 0, 1_000), Err(ErrorCode::NotSupportMint));
}

#[test]
fn disabled_creation_is_refused() {
    let mut cfg = config();
    cfg.disable_create_pool = true;
    assert_eq!(prepare_initialize(&cfg, &accounts(), 0, 1_000), Err(ErrorCode::NotApproved));
}

#[test]
fn initialize_fills_the_pool() {
    let mut pool = PoolState::default();
    let ev = initialize(
        &mut pool,
        &config(),
        &accounts(),
        1_000_000,
        5_000_000,
        10,
        1_000,
        7,
        &token_account_data(990_000),
    )
    .unwrap();
    assert_eq!(ev.open_time, 1_001);
    assert_eq!(ev.mint_amount, 1_000_000);
    assert_eq!(ev.off_set, 5_000_000);
    assert_eq!(pool.pool_creator, addr(1));
    assert_eq!(pool.mint, addr(3));
    assert_eq!(pool.mint_token_program, addr(4));
    assert_eq!(pool.mint_decimals, 6);
    assert_eq!(pool.open_time, 1_001);
    assert_eq!(pool.recent_epoch, 7);
    assert_eq!(pool.off_set, 5_000_000);
    assert_eq!(pool.vault_amount_without_fee(990_000, 0), Ok((990_000, 5_000_000)));
}

#[test]
fn initialize_with_zero_deposit_is_refused() {
    let mut pool = PoolState::default();
    let r = initialize(&mut pool, &config(), &accounts(), 0, 5_000_000, 10, 1_000, 7, &token_account_data(0));
    assert_eq!(r, Err(ErrorCode::InvalidInput));
    assert_eq!(pool.off_set, 0);
    let r = initialize_with_balance(&mut pool, &config(), &accounts(), 0, 5_000_000, 10, 1_000, 7, 0);
    assert_eq!(r, Err(ErrorCode::InvalidInput));
}

#[test]
fn vault_balance_reads_the_amount() {
    assert_eq!(vault_balance(&token_account_data(123_456_789)), Ok(123_456_789));
}

#[test]
fn vault_balance_refuses_short_or_uninitialised_data() {
    assert_eq!(vault_balance(&[0u8; 100]), Err(ErrorCode::InvalidAccountData));
    assert_eq!(vault_balance(&[0u8; 165]), Err(ErrorCode::InvalidAccountData));
}

#[test]
fn vault_balance_follows_token_account_layout() {
    // a frozen account still holds its balance
    let mut frozen = token_account_data(77);
    frozen[108] = 2;
    assert_eq!(vault_balance(&frozen), Ok(77));
    // an unknown state byte
    let mut bad_state = token_account_data(77);
    bad_state[108] = 3;
    assert_eq!(vault_balance(&bad_state), Err(ErrorCode::InvalidAccountData));
    // malformed option tags: delegate, native amount, close authority
    for at in [72usize, 109, 129] {
        let mut bad_tag = token_account_data(77);
        bad_tag[at] = 2;
        assert_eq!(vault_balance(&bad_tag), Err(ErrorCode::InvalidAccountData));
        let mut some_tag = token_account_data(77);
        some_tag[at] = 1;
        assert_eq!(vault_balance(&some_tag), Ok(77));
    }
    // extension data must start with the account-type marker
    let mut extended = token_account_data(77);
    extended.extend_from_slice(&[2, 0]);
    assert_eq!(vault_balance(&extended), Ok(77));
    let mut wrong_type = token_account_data(77);
    wrong_type.extend_from_slice(&[1, 0]);
    assert_eq!(vault_balance(&wrong_type), Err(ErrorCode::InvalidAccountData));
    let mut marker_only = token_account_data(77);
    marker_only.push(2);
    assert_eq!(vault_balance(&marker_only), Err(ErrorCode::InvalidAccountData));
    // the multisig size is never a token account
    let mut multisig_sized = token_account_data(77);
    multisig_sized.resize(355, 0);
    multisig_sized[165] = 2;
    assert_eq!(vault_balance(&multisig_sized), Err(ErrorCode::InvalidAccountData));
}

#[test]
fn initialize_refuses_vault_data_that_is_no_token_account() {
    let mut pool = PoolState::default();
    let r = initialize(&mut pool, &config(), &accounts(), 1_000, 5_000_000, 10, 1_000, 7, &[0u8; 165]);
    assert_eq!(r, Err(ErrorCode::InvalidAccountData));
    assert_eq!(pool.off_set, 0);
    assert_eq!(pool.pool_creator, Address::default());
}

#[test]
fn swap_credits_fee_on_input_side() {
    let mut pool = PoolState { off_set: 5_000_000, ..PoolState::default() };
    let res = swap(
        &mut pool,
        &config(),
        TradeDirection::MintToUsdc,
        1_000_000,
        true,
        10_000_000,
        20_000_000,
        0,
    )
    .unwrap();
    assert_eq!(res.destination_amount, 2_267_560);
    assert_eq!(pool.protocol_fees_token_mint, 300);
    assert_eq!(pool.creator_fees_token_mint, 2_200);
    assert_eq!(pool.protocol_fees_token_usdc, 0);
    assert_eq!(pool.creator_fees_token_usdc, 0);
}

#[test]
fn swap_refused_when_disabled_or_not_open() {
    let mut pool = PoolState { off_set: 5_000_000, open_time: 50, ..PoolState::default() };
    let cfg = config();
    assert_eq!(
        swap(&mut pool, &cfg, TradeDirection::UsdcToMint, 1_000, true, 10_000_000, 20_000_000, 49),
        Err(ErrorCode::NotApproved)
    );
    pool.set_status_by_bit(PoolStatusBitIndex::Swap, PoolStatusBitFlag::Disable);
    assert_eq!(
        swap(&mut pool, &cfg, TradeDirection::UsdcToMint, 1_000, true, 10_000_000, 20_000_000, 60),
        Err(ErrorCode::NotApproved)
    );
    assert_eq!(pool.creator_fees_token_usdc, 0);
}

#[test]
fn config_updates() {
    let mut cfg = config();
    assert_eq!(update_amm_config(&mut cfg, 0, 3_000, None), Ok(()));
    assert_eq!(cfg.trade_fee_rate, 3_000);
    assert_eq!(update_amm_config(&mut cfg, 1, 200_000, None), Ok(()));
    assert_eq!(cfg.protocol_fee_rate, 200_000);
    assert_eq!(update_amm_config(&mut cfg, 2, 0, Some(addr(9))), Ok(()));
    assert_eq!(cfg.protocol_fee_collector, addr(9));
    assert_eq!(update_amm_config(&mut cfg, 3, 1, None), Ok(()));
    assert!(cfg.disable_create_pool);
    assert_eq!(update_amm_config(&mut cfg, 3, 0, None), Ok(()));
    assert!(!cfg.disable_create_pool);
}

#[test]
fn config_update_errors_leave_config_alone() {
    let mut cfg = config();
    assert_eq!(update_amm_config(&mut cfg, 4, 1, None), Err(ErrorCode::InvalidInput));
    assert_eq!(update_amm_config(&mut cfg, 0, 1_000_000, None), Err(ErrorCode::InvalidInput));
    assert_eq!(update_amm_config(&mut cfg, 1, 1_000_001, None), Err(ErrorCode::InvalidInput));
    assert_eq!(update_amm_config(&mut cfg, 2, 0, None), Err(ErrorCode::InvalidInput));
    assert_eq!(update_amm_config(&mut cfg, 2, 0, Some(Address::zero())), Err(ErrorCode::InvalidInput));
    assert_eq!(cfg.trade_fee_rate, 2500);
    assert_eq!(cfg.protocol_fee_rate, 120_000);
    assert_eq!(cfg.protocol_fee_collector, addr(100));
    assert_eq!(
        AmmConfigUpdate::from_param(1, 5, None),
        Ok(AmmConfigUpdate::ProtocolFeeRate(5))
    );
}

#[test]
fn status_update_stamps_epoch() {
    let mut pool = pool_with_fees();
    update_pool_status(&mut pool, 6, 42);
    assert_eq!(pool.status, 6);
    assert_eq!(pool.recent_epoch, 42);
    assert_eq!(pool.creator_fees_token_mint, 30);
}

#[test]
fn supported_mint_owners() {
    let token = addr(10);
    let token_2022 = addr(20);
    assert!(is_supported_mint_owner(&addr(10), &token, &token_2022));
    assert!(is_supported_mint_owner(&addr(20), &token, &token_2022));
    assert!(!is_supported_mint_owner(&addr(30), &token, &token_2022));
}

#[test]
fn exact_out_swap_credits_reference_side() {
    let mut pool = PoolState { off_set: 5_000_000, ..PoolState::default() };
    // buy 1_000_000 listed units with the reference asset
    let res = swap(
        &mut pool,
        &config(),
        TradeDirection::UsdcToMint,
        1_000_000,
        false,
        25_000_000,
        5_000_000,
        0,
    )
    .unwrap();
    // reserves: listed 25_000_000, reference 10_000_000
    assert_eq!(res.source_amount, 417_712);
    assert_eq!(res.trade_fee, 1_045);
    assert_eq!(pool.protocol_fees_token_usdc, 125);
    assert_eq!(pool.creator_fees_token_usdc, 920);
    assert_eq!(pool.protocol_fees_token_mint, 0);
}

#[test]
fn fee_credit_overflow_leaves_pool_alone() {
    let mut pool = PoolState { protocol_fees_token_mint: u64::MAX, ..PoolState::default() };
    assert_eq!(
        pool.credit_trade_fee(TradeDirection::MintToUsdc, 1_000_000, 1_000_000),
        Err(ErrorCode::ArithmeticError)
    );
    assert_eq!(pool.protocol_fees_token_mint, u64::MAX);
    assert_eq!(pool.creator_fees_token_mint, 0);
}

#[test]
fn price_fails_when_offset_exceeds_reference_reserve() {
    let pool = PoolState {
        off_set: 100,
        creator_fees_token_usdc: 50,
        ..PoolState::default()
    };
    assert_eq!(pool.token_price_x32(1_000, 0), Err(ErrorCode::ArithmeticError));
}

#[test]
fn swap_moves_virtual_reserves_by_net_input_and_output() {
    let mut pool = PoolState {
        off_set: 5_000_000,
        protocol_fees_token_mint: 7,
        creator_fees_token_mint: 3,
        ..PoolState::default()
    };
    let (mint_vault, usdc_vault) = (10_000_010u64, 20_000_000u64);
    let before = pool.vault_amount_without_fee(mint_vault, usdc_vault).unwrap();
    assert_eq!(before, (10_000_000, 25_000_000));
    let res = swap(
        &mut pool,
        &config(),
        TradeDirection::MintToUsdc,
        1_000_000,
        true,
        mint_vault,
        usdc_vault,
        0,
    )
    .unwrap();
    let after = pool
        .vault_amount_without_fee(mint_vault + res.source_amount, usdc_vault - res.destination_amount)
        .unwrap();
    assert_eq!(after, (10_997_500, 25_000_000 - 2_267_560));
    assert!((after.0 as u128) * (after.1 as u128) >= (before.0 as u128) * (before.1 as u128));
}

#[test]
fn swap_refused_when_reference_vault_cannot_be_read_back() {
    let mut pool = PoolState { off_set: 5_000_000, ..PoolState::default() };
    let usdc_vault = u64::MAX - 5_000_000 - 10;
    assert_eq!(
        swap(&mut pool, &config(), TradeDirection::UsdcToMint, 1_000, true, 10_000_000, usdc_vault, 0),
        Err(ErrorCode::ArithmeticError)
    );
    assert_eq!(pool.protocol_fees_token_usdc, 0);
    assert_eq!(pool.creator_fees_token_usdc, 0);
    // an input that fits is accepted
    assert!(swap(&mut pool, &config(), TradeDirection::UsdcToMint, 10, true, 10_000_000, usdc_vault, 0).is_ok());
}
