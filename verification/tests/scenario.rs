use game_pool::pool::GamePoolAccount;
use game_pool::pool::GamePoolError;
use game_pool::pool::Pubkey;
use game_pool::pool::deposit_lamports;
use game_pool::pool::initialise;
use game_pool::pool::withdraw_lamports;

#[test]
fn pool_lifecycle_scenario() {
    let authority_a = Pubkey { w0: 10, w1: 11, w2: 12, w3: 13 };
    let third_party_b = Pubkey { w0: 90, w1: 91, w2: 92, w3: 93 };
    let rent: u64 = 100;

    // Initialise the pool with authority A; the custody account starts at
    // its reserve minimum.
    let mut pool = GamePoolAccount::new();
    assert_eq!(initialise(&mut pool, authority_a), Ok(()));
    let mut custody: u64 = rent;

    // User U deposits 1000 native units.
    let mut user_u: u64 = 1_000;
    assert_eq!(
        deposit_lamports(&mut pool, &mut user_u, &mut custody, 1_000),
        Ok(())
    );
    assert_eq!(pool.lamport_amount_deposited, 1_000);

    // Authority A withdraws 400 to U.
    assert_eq!(
        withdraw_lamports(&mut pool, &authority_a, &mut custody, &mut user_u, rent, 400),
        Ok(())
    );
    assert_eq!(pool.lamport_amount_deposited, 600);
    assert_eq!(user_u, 400);

    // A third party B attempts to withdraw 100.
    let mut user_b: u64 = 0;
    assert_eq!(
        withdraw_lamports(&mut pool, &third_party_b, &mut custody, &mut user_b, rent, 100),
        Err(GamePoolError::Unauthorized)
    );
    assert_eq!(pool.lamport_amount_deposited, 600);
    assert_eq!(user_b, 0);

    // A then attempts to withdraw 10000.
    assert_eq!(
        withdraw_lamports(&mut pool, &authority_a, &mut custody, &mut user_u, rent, 10_000),
        Err(GamePoolError::InsufficientFunds)
    );
    assert_eq!(pool.lamport_amount_deposited, 600);
    assert_eq!(custody, rent + 600);
}
