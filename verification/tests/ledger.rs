use chainference::{transfer, Account, ChainferenceError, Pubkey, ServerAccount, Wallet};

#[test]
fn pubkey_keeps_its_bytes() {
    let mut bytes = [0u8; 32];
    for (i, b) in bytes.iter_mut().enumerate() {
        *b = i as u8;
    }
    let key = Pubkey::new_from_array(bytes);
    assert_eq!(key.to_bytes(), bytes);
    assert_eq!(key.bytes, bytes);
}

#[test]
fn pubkeys_are_equal_when_all_bytes_are() {
    let a = Pubkey::new_from_array([7u8; 32]);
    let b = Pubkey::new_from_array([7u8; 32]);
    assert!(a == b);
    let mut last = [7u8; 32];
    last[31] = 8;
    assert!(a != Pubkey::new_from_array(last));
    let mut first = [7u8; 32];
    first[0] = 6;
    assert!(a != Pubkey::new_from_array(first));
}

#[test]
fn wallet_key_is_its_holder() {
    let wallet = Wallet { key: Pubkey::new_from_array([4u8; 32]), lamports: 9 };
    assert_eq!(wallet.key(), Pubkey::new_from_array([4u8; 32]));
}

#[test]
fn transfer_moves_the_amount() {
    let (mut from, mut to) = (1_000u64, 50u64);
    assert_eq!(transfer(&mut from, &mut to, 400), Ok(()));
    assert_eq!((from, to), (600, 450));
}

#[test]
fn transfer_of_the_whole_balance_is_covered() {
    let (mut from, mut to) = (1_000u64, 0u64);
    assert_eq!(transfer(&mut from, &mut to, 1_000), Ok(()));
    assert_eq!((from, to), (0, 1_000));
}

#[test]
fn transfer_fails_and_moves_nothing_when_not_covered() {
    let (mut from, mut to) = (1_000u64, 50u64);
    assert_eq!(transfer(&mut from, &mut to, 1_001), Err(ChainferenceError::InsufficientFunds));
    assert_eq!((from, to), (1_000, 50));
}

#[test]
fn transfer_reaches_the_largest_balance() {
    let (mut from, mut to) = (5u64, u64::MAX - 5);
    assert_eq!(transfer(&mut from, &mut to, 5), Ok(()));
    assert_eq!((from, to), (0, u64::MAX));
}

#[test]
fn receive_credits_the_named_holder_only() {
    let holder = Pubkey::new_from_array([1u8; 32]);
    let other = Pubkey::new_from_array([2u8; 32]);
    let mut wallet = Wallet { key: holder, lamports: 100 };
    wallet.receive(&other, 40);
    assert_eq!(wallet, Wallet { key: holder, lamports: 100 });
    wallet.receive(&holder, 40);
    assert_eq!(wallet, Wallet { key: holder, lamports: 140 });
}

#[test]
fn withdraw_takes_what_is_covered() {
    let mut account: Account<ServerAccount> = Account::vacant(100);
    assert_eq!(account.withdraw(100), Ok(()));
    assert_eq!(account.lamports, 0);
    assert_eq!(account.withdraw(1), Err(ChainferenceError::InsufficientFunds));
    assert_eq!(account.lamports, 0);
    assert_eq!(account.withdraw(0), Ok(()));
}

#[test]
fn close_hands_out_the_balance_and_drops_the_record() {
    let mut account = Account {
        lamports: 77,
        data: Some(ServerAccount {
            owner: Pubkey::new_from_array([1u8; 32]),
            models: Vec::new(),
            last_heartbeat: 3,
        }),
    };
    assert_eq!(account.close(), 77);
    assert_eq!(account, Account::vacant(0));
    assert_eq!(account.close(), 0);
}

#[test]
fn messages_name_each_error() {
    assert_eq!(
        ChainferenceError::ModelNotProvided.message(),
        "Server locking inference request does not provide requested model."
    );
    assert_eq!(
        ChainferenceError::RequestAlreadyLocked.message(),
        "Inference request has already been locked."
    );
    assert_eq!(
        ChainferenceError::ClaimingNonLockedRequest.message(),
        "Trying to claim payment from inference request that hasn't previously been locked by claimer."
    );
    assert_eq!(
        ChainferenceError::ClaimTooLarge.message(),
        "Payment claim exceeds max cost of inference request."
    );
    assert_eq!(
        ChainferenceError::TooManyListings.message(),
        "Server registers more model listings than a server may hold."
    );
    assert_eq!(ChainferenceError::NotOwner.message(), "Caller does not own the account.");
    assert_eq!(ChainferenceError::InvalidAmount.message(), "Amount must be greater than zero.");
    assert_eq!(
        ChainferenceError::InsufficientFunds.message(),
        "Balance does not cover the transfer."
    );
}
