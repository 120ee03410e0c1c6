use impact_pool::ImpactPoolContract;
use impact_pool::Party;
use impact_pool::PoolError;
use impact_pool::TransferIntent;
use impact_pool::UserPosition;

const CHARITY: u64 = 2;
const CREATOR: u64 = 3;
const ASSET: u64 = 4;
const USER: u64 = 10;
const OTHER: u64 = 11;

fn fresh_pool(donation_percentage: u32) -> ImpactPoolContract {
    let mut pool = ImpactPoolContract::new();
    let r = pool.initialize("TEST".to_string(), CHARITY, donation_percentage, CREATOR, ASSET);
    assert_eq!(r, Ok(()));
    pool
}

#[test]
fn test_deposit_and_withdraw() {
    let mut pool = fresh_pool(50);

    assert_eq!(pool.deposit(USER, 1000, true), Ok(1000));
    assert_eq!(pool.get_user_balance(USER), 1000);

    assert_eq!(pool.withdraw(USER, 300, true), Ok(700));
    assert_eq!(pool.get_user_balance(USER), 700);
}

#[test]
fn test_initialize_rejects_second_call() {
    let mut pool = fresh_pool(50);
    let r = pool.initialize("OTHER".to_string(), OTHER, 10, OTHER, OTHER);
    assert_eq!(r, Err(PoolError::AlreadyInitialized));

    // The first initialization is still in force, untouched.
    let info = pool.get_pool_info().unwrap();
    assert_eq!(info.name, "TEST");
    assert_eq!(info.charity, CHARITY);
    assert_eq!(info.donation_percentage, 50);
    assert_eq!(info.creator, CREATOR);
    assert_eq!(info.asset, ASSET);
    assert_eq!(info.total_deposited, 0);
    assert_eq!(info.total_yield, 0);
    assert_eq!(info.total_donated, 0);
    assert!(info.is_active);
}

#[test]
fn test_initialize_rejects_percentage_over_100() {
    let mut pool = ImpactPoolContract::new();
    let r = pool.initialize("TEST".to_string(), CHARITY, 101, CREATOR, ASSET);
    assert_eq!(r, Err(PoolError::InvalidParameter));
    assert_eq!(pool.get_pool_info().unwrap_err(), PoolError::NotInitialized);

    // One hundred exactly is still in range.
    let r = pool.initialize("TEST".to_string(), CHARITY, 100, CREATOR, ASSET);
    assert_eq!(r, Ok(()));
}

#[test]
fn test_get_pool_info_before_initialize() {
    let pool = ImpactPoolContract::new();
    assert_eq!(pool.get_pool_info().unwrap_err(), PoolError::NotInitialized);
}

#[test]
fn test_get_user_position_defaults_zero() {
    let pool = fresh_pool(50);
    let position = pool.get_user_position(USER);
    assert_eq!(position, UserPosition { deposited: 0, withdrawn: 0, yield_earned: 0 });
    assert_eq!(pool.get_user_balance(USER), 0);
}

#[test]
fn test_deposit_updates_position_and_totals() {
    let mut pool = fresh_pool(50);

    assert_eq!(pool.deposit(USER, 400, true), Ok(400));
    assert_eq!(pool.deposit(USER, 100, true), Ok(500));
    assert_eq!(pool.deposit(OTHER, 250, true), Ok(750));

    let position = pool.get_user_position(USER);
    assert_eq!(position.deposited, 500);
    assert_eq!(position.withdrawn, 0);
    assert_eq!(position.yield_earned, 0);
    assert_eq!(pool.get_user_balance(USER), 500);
    assert_eq!(pool.get_user_balance(OTHER), 250);
    assert_eq!(pool.get_pool_info().unwrap().total_deposited, 750);
}

#[test]
fn test_deposit_rejects_non_positive_amount() {
    let mut pool = fresh_pool(50);
    assert_eq!(pool.deposit(USER, 0, true), Err(PoolError::InvalidAmount));
    assert_eq!(pool.deposit(USER, -5, true), Err(PoolError::InvalidAmount));
    assert_eq!(pool.get_user_balance(USER), 0);
    assert_eq!(pool.get_pool_info().unwrap().total_deposited, 0);
}

#[test]
fn test_deposit_transfer_failure_leaves_state() {
    let mut pool = fresh_pool(50);
    assert_eq!(pool.deposit(USER, 100, false), Err(PoolError::TransferFailed));
    assert_eq!(pool.get_user_balance(USER), 0);
    assert_eq!(pool.get_pool_info().unwrap().total_deposited, 0);
}

#[test]
fn test_deposit_intent_names_the_transfer() {
    let pool = fresh_pool(50);
    assert_eq!(
        pool.deposit_intent(USER, 100),
        Ok(TransferIntent { from: Party::Account(USER), to: Party::Custody, amount: 100 })
    );
    assert_eq!(pool.deposit_intent(USER, 0), Err(PoolError::InvalidAmount));
}

#[test]
fn test_withdraw_rejects_more_than_available() {
    let mut pool = fresh_pool(50);
    assert_eq!(pool.deposit(USER, 100, true), Ok(100));
    assert_eq!(pool.withdraw(USER, 101, true), Err(PoolError::InsufficientBalance));

    // The failed withdrawal changed nothing.
    let position = pool.get_user_position(USER);
    assert_eq!(position.deposited, 100);
    assert_eq!(position.withdrawn, 0);
    assert_eq!(pool.get_user_balance(USER), 100);

    // Withdrawing the whole balance is allowed, and the record persists.
    assert_eq!(pool.withdraw(USER, 100, true), Ok(0));
    assert_eq!(pool.get_user_balance(USER), 0);
    assert_eq!(pool.get_user_position(USER).deposited, 100);
}

#[test]
fn test_withdraw_rejects_non_positive_amount() {
    let mut pool = fresh_pool(50);
    assert_eq!(pool.deposit(USER, 100, true), Ok(100));
    assert_eq!(pool.withdraw(USER, 0, true), Err(PoolError::InvalidAmount));
    assert_eq!(pool.withdraw(USER, -3, true), Err(PoolError::InvalidAmount));
    assert_eq!(pool.get_user_balance(USER), 100);
}

#[test]
fn test_withdraw_without_deposits_insufficient() {
    let mut pool = fresh_pool(50);
    assert_eq!(pool.withdraw(USER, 1, true), Err(PoolError::InsufficientBalance));
}

#[test]
fn test_withdraw_transfer_failure_leaves_state() {
    let mut pool = fresh_pool(50);
    assert_eq!(pool.deposit(USER, 100, true), Ok(100));
    assert_eq!(pool.withdraw(USER, 40, false), Err(PoolError::TransferFailed));
    assert_eq!(pool.get_user_balance(USER), 100);
    assert_eq!(pool.get_user_position(USER).withdrawn, 0);
}

#[test]
fn test_withdraw_intent_names_the_transfer() {
    let mut pool = fresh_pool(50);
    assert_eq!(pool.deposit(USER, 100, true), Ok(100));
    assert_eq!(
        pool.withdraw_intent(USER, 60),
        Ok(TransferIntent { from: Party::Custody, to: Party::Account(USER), amount: 60 })
    );
    assert_eq!(pool.withdraw_intent(USER, 101), Err(PoolError::InsufficientBalance));
    assert_eq!(pool.withdraw_intent(USER, -1), Err(PoolError::InvalidAmount));
}

#[test]
fn test_distribute_yield_splits_exactly() {
    let mut pool = fresh_pool(50);
    assert_eq!(pool.distribute_yield(CREATOR, 200, true), Ok((100, 100)));
    let info = pool.get_pool_info().unwrap();
    assert_eq!(info.total_donated, 100);
    assert_eq!(info.total_yield, 100);

    // An odd amount splits by flooring the donation; no value is lost.
    assert_eq!(pool.distribute_yield(CREATOR, 101, true), Ok((50, 51)));
    let info = pool.get_pool_info().unwrap();
    assert_eq!(info.total_donated, 150);
    assert_eq!(info.total_yield, 151);
}

#[test]
fn test_distribute_yield_rejects_non_creator() {
    let mut pool = fresh_pool(50);
    assert_eq!(pool.distribute_yield(OTHER, 200, true), Err(PoolError::Unauthorized));
    let info = pool.get_pool_info().unwrap();
    assert_eq!(info.total_donated, 0);
    assert_eq!(info.total_yield, 0);
}

#[test]
fn test_distribute_yield_rejects_negative_amount() {
    let mut pool = fresh_pool(50);
    assert_eq!(pool.distribute_yield(CREATOR, -1, true), Err(PoolError::InvalidAmount));
    let info = pool.get_pool_info().unwrap();
    assert_eq!(info.total_donated, 0);
    assert_eq!(info.total_yield, 0);
}

#[test]
fn test_distribute_yield_transfer_failure_leaves_state() {
    let mut pool = fresh_pool(50);
    assert_eq!(pool.distribute_yield(CREATOR, 200, false), Err(PoolError::TransferFailed));
    let info = pool.get_pool_info().unwrap();
    assert_eq!(info.total_donated, 0);
    assert_eq!(info.total_yield, 0);
}

#[test]
fn test_distribute_yield_zero_donation_needs_no_transfer() {
    // With a zero percentage the donation is zero, no transfer is owed,
    // and the distribution succeeds whatever the host would have reported.
    let mut pool = fresh_pool(0);
    assert_eq!(pool.distribute_yield_intent(CREATOR, 200), Ok(None));
    assert_eq!(pool.distribute_yield(CREATOR, 200, false), Ok((0, 200)));
    let info = pool.get_pool_info().unwrap();
    assert_eq!(info.total_donated, 0);
    assert_eq!(info.total_yield, 200);
}

#[test]
fn test_distribute_yield_full_percentage_donates_all() {
    let mut pool = fresh_pool(100);
    assert_eq!(
        pool.distribute_yield_intent(CREATOR, 200),
        Ok(Some(TransferIntent { from: Party::Custody, to: Party::Account(CHARITY), amount: 200 }))
    );
    assert_eq!(pool.distribute_yield(CREATOR, 200, true), Ok((200, 0)));
    let info = pool.get_pool_info().unwrap();
    assert_eq!(info.total_donated, 200);
    assert_eq!(info.total_yield, 0);
}

#[test]
fn test_distribute_yield_zero_amount() {
    let mut pool = fresh_pool(50);
    assert_eq!(pool.distribute_yield(CREATOR, 0, false), Ok((0, 0)));
    let info = pool.get_pool_info().unwrap();
    assert_eq!(info.total_donated, 0);
    assert_eq!(info.total_yield, 0);
}

#[test]
fn test_pause_resume_gates_deposits() {
    let mut pool = fresh_pool(50);
    assert_eq!(pool.deposit(USER, 10, true), Ok(10));

    assert_eq!(pool.pause_pool(CREATOR), Ok(()));
    assert!(!pool.get_pool_info().unwrap().is_active);
    assert_eq!(pool.deposit(USER, 10, true), Err(PoolError::PoolPaused));
    assert_eq!(pool.deposit_intent(USER, 10), Err(PoolError::PoolPaused));

    // Withdrawals are not gated by the pause.
    assert_eq!(pool.withdraw(USER, 5, true), Ok(5));

    assert_eq!(pool.resume_pool(CREATOR), Ok(()));
    assert!(pool.get_pool_info().unwrap().is_active);
    assert_eq!(pool.deposit(USER, 10, true), Ok(20));
}

#[test]
fn test_pause_rejects_non_creator() {
    let mut pool = fresh_pool(50);
    assert_eq!(pool.pause_pool(OTHER), Err(PoolError::Unauthorized));
    assert!(pool.get_pool_info().unwrap().is_active);
    assert_eq!(pool.deposit(USER, 10, true), Ok(10));
}

#[test]
fn test_resume_rejects_non_creator() {
    let mut pool = fresh_pool(50);
    assert_eq!(pool.pause_pool(CREATOR), Ok(()));
    assert_eq!(pool.resume_pool(OTHER), Err(PoolError::Unauthorized));
    assert!(!pool.get_pool_info().unwrap().is_active);
    assert_eq!(pool.deposit(USER, 10, true), Err(PoolError::PoolPaused));
}

#[test]
fn test_deposit_and_withdraw_at_maximum_amount() {
    let mut pool = fresh_pool(50);
    assert_eq!(pool.deposit(USER, i128::MAX, true), Ok(i128::MAX));
    assert_eq!(pool.get_user_balance(USER), i128::MAX);
    assert_eq!(pool.withdraw(USER, i128::MAX, true), Ok(0));
    assert_eq!(pool.get_user_balance(USER), 0);
}

#[test]
fn test_end_to_end() {
    let mut pool = ImpactPoolContract::new();
    assert_eq!(pool.initialize("TEST".to_string(), CHARITY, 50, CREATOR, ASSET), Ok(()));

    assert_eq!(pool.deposit(USER, 1000, true), Ok(1000));
    assert_eq!(pool.get_user_balance(USER), 1000);
    assert_eq!(pool.get_pool_info().unwrap().total_deposited, 1000);

    assert_eq!(pool.withdraw(USER, 300, true), Ok(700));
    assert_eq!(pool.get_user_balance(USER), 700);

    assert_eq!(pool.distribute_yield(CREATOR, 200, true), Ok((100, 100)));
    let info = pool.get_pool_info().unwrap();
    assert_eq!(info.total_donated, 100);
    assert_eq!(info.total_yield, 100);
    assert_eq!(info.total_deposited, 1000);
}
