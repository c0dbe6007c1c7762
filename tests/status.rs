use cp_swap::{PoolState, PoolStatusBitFlag, PoolStatusBitIndex};

#[test]
fn get_set_status_by_bit() {
    let mut pool_state = PoolState::default();
    pool_state.set_status(4); // 0000100
    assert_eq!(pool_state.get_status_by_bit(PoolStatusBitIndex::Swap), false);
    assert_eq!(pool_state.get_status_by_bit(PoolStatusBitIndex::Deposit), true);
    assert_eq!(pool_state.get_status_by_bit(PoolStatusBitIndex::Withdraw), true);

    // disable -> disable, nothing to change
    pool_state.set_status_by_bit(PoolStatusBitIndex::Swap, PoolStatusBitFlag::Disable);
    assert_eq!(pool_state.get_status_by_bit(PoolStatusBitIndex::Swap), false);

    // disable -> enable
    pool_state.set_status_by_bit(PoolStatusBitIndex::Swap, PoolStatusBitFlag::Enable);
    assert_eq!(pool_state.get_status_by_bit(PoolStatusBitIndex::Swap), true);

    // enable -> enable, nothing to change
    pool_state.set_status_by_bit(PoolStatusBitIndex::Swap, PoolStatusBitFlag::Enable);
    assert_eq!(pool_state.get_status_by_bit(PoolStatusBitIndex::Swap), true);
    // enable -> disable
    pool_state.set_status_by_bit(PoolStatusBitIndex::Swap, PoolStatusBitFlag::Disable);
    assert_eq!(pool_state.get_status_by_bit(PoolStatusBitIndex::Swap), false);

    pool_state.set_status(5); // 0000101
    assert_eq!(pool_state.get_status_by_bit(PoolStatusBitIndex::Swap), false);
    assert_eq!(pool_state.get_status_by_bit(PoolStatusBitIndex::Deposit), false);
    assert_eq!(pool_state.get_status_by_bit(PoolStatusBitIndex::Withdraw), true);

    pool_state.set_status(7); // 0000111
    assert_eq!(pool_state.get_status_by_bit(PoolStatusBitIndex::Swap), false);
    assert_eq!(pool_state.get_status_by_bit(PoolStatusBitIndex::Deposit), false);
    assert_eq!(pool_state.get_status_by_bit(PoolStatusBitIndex::Withdraw), false);

    pool_state.set_status(3); // 0000011
    assert_eq!(pool_state.get_status_by_bit(PoolStatusBitIndex::Swap), true);
    assert_eq!(pool_state.get_status_by_bit(PoolStatusBitIndex::Deposit), false);
    assert_eq!(pool_state.get_status_by_bit(PoolStatusBitIndex::Withdraw), false);
}

#[test]
fn disable_then_enable_restores_status() {
    let bits = [
        PoolStatusBitIndex::Deposit,
        PoolStatusBitIndex::Withdraw,
        PoolStatusBitIndex::Swap,
    ];
    for s in [0u8, 0b1000_0000, 0b0101_0000, 0b1111_1000] {
        for bit in bits {
            let mut pool = PoolState::default();
            pool.set_status(s);
            pool.set_status_by_bit(bit, PoolStatusBitFlag::Disable);
            assert!(!pool.get_status_by_bit(bit));
            pool.set_status_by_bit(bit, PoolStatusBitFlag::Enable);
            assert_eq!(pool.status, s);
        }
    }
}

#[test]
fn single_bit_changes_keep_reserved_bits() {
    let mut pool = PoolState::default();
    pool.set_status(0b1110_0000);
    pool.set_status_by_bit(PoolStatusBitIndex::Withdraw, PoolStatusBitFlag::Disable);
    assert_eq!(pool.status, 0b1110_0010);
    pool.set_status_by_bit(PoolStatusBitIndex::Withdraw, PoolStatusBitFlag::Enable);
    assert_eq!(pool.status, 0b1110_0000);
}

#[test]
fn enabling_an_already_disabled_bit_is_not_a_round_trip() {
    // a bit that starts set is cleared by the pair of calls
    let mut pool = PoolState::default();
    pool.set_status(4);
    pool.set_status_by_bit(PoolStatusBitIndex::Swap, PoolStatusBitFlag::Disable);
    pool.set_status_by_bit(PoolStatusBitIndex::Swap, PoolStatusBitFlag::Enable);
    assert_eq!(pool.status, 0);
}
