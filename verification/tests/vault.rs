use compute_rental::address::vault_account_address;
use compute_rental::{
    disburse, fund_vault, initialize_vault, initialize_vault_with, transfer, withdraw_funds, ErrorKind,
    Errors, FundVault, Identity, InitializeVault, ProgramConfig, VaultAccount, Wallet,
    WithdrawFunds,
};

fn key(n: u8) -> Identity {
    Identity::new([n; 32])
}

fn admin() -> Identity {
    key(9)
}

fn config() -> ProgramConfig {
    ProgramConfig { admin: admin(), program_id: key(42) }
}

fn vault_key() -> Identity {
    vault_account_address(&admin(), &"vault".to_string(), &key(42)).unwrap().0
}

fn vault() -> VaultAccount {
    VaultAccount { owner: admin(), bump: 254 }
}

#[test]
fn initialize_binds_the_vault_to_the_authority() {
    let mut ctx = InitializeVault {
        admin: admin(),
        vault_key: vault_key(),
        vault_account: VaultAccount::new(),
    };
    let r = initialize_vault(&mut ctx, &"vault".to_string(), &config());
    assert_eq!(r, Ok(()));
    let found = vault_account_address(&admin(), &"vault".to_string(), &key(42)).unwrap();
    assert_eq!(ctx.vault_account.owner, admin());
    assert_eq!(ctx.vault_account.bump, found.1);
}

#[test]
fn initialize_is_for_the_authority_only() {
    let mut ctx = InitializeVault {
        admin: key(5),
        vault_key: vault_key(),
        vault_account: VaultAccount::new(),
    };
    let r = initialize_vault(&mut ctx, &"vault".to_string(), &config());
    assert_eq!(r, Err(Errors::Unauthorized));
    assert_eq!(ctx.vault_account, VaultAccount::new());
}

#[test]
fn initialize_again_keeps_the_owner() {
    let mut ctx = InitializeVault {
        admin: admin(),
        vault_key: vault_key(),
        vault_account: VaultAccount::new(),
    };
    assert_eq!(initialize_vault(&mut ctx, &"vault".to_string(), &config()), Ok(()));
    let first = ctx.vault_account;
    assert_eq!(initialize_vault(&mut ctx, &"vault".to_string(), &config()), Ok(()));
    assert_eq!(ctx.vault_account, first);
    assert_eq!(ctx.vault_account.owner, admin());
}

#[test]
fn initialize_again_by_another_signer_changes_nothing() {
    let mut ctx = InitializeVault { admin: key(5), vault_key: vault_key(), vault_account: vault() };
    let r = initialize_vault(&mut ctx, &"vault".to_string(), &config());
    assert_eq!(r, Err(Errors::Unauthorized));
    assert_eq!(ctx.vault_account, vault());
}

#[test]
fn initialize_never_changes_the_owner_of_a_vault() {
    let mut ctx = InitializeVault {
        admin: admin(),
        vault_key: vault_key(),
        vault_account: VaultAccount { owner: key(5), bump: 7 },
    };
    let r = initialize_vault(&mut ctx, &"vault".to_string(), &config());
    assert_eq!(r, Err(Errors::Unauthorized));
    assert_eq!(ctx.vault_account, VaultAccount { owner: key(5), bump: 7 });
}

#[test]
fn initialize_again_overwrites_the_bump() {
    let mut ctx = InitializeVault {
        admin: admin(),
        vault_key: vault_key(),
        vault_account: VaultAccount { owner: admin(), bump: 7 },
    };
    let r = initialize_vault(&mut ctx, &"vault".to_string(), &config());
    assert_eq!(r, Ok(()));
    let found = vault_account_address(&admin(), &"vault".to_string(), &key(42)).unwrap();
    assert_eq!(ctx.vault_account, VaultAccount { owner: admin(), bump: found.1 });
}

#[test]
fn initialize_with_a_label_that_derives_nothing_is_refused() {
    let mut ctx = InitializeVault {
        admin: admin(),
        vault_key: vault_key(),
        vault_account: VaultAccount::new(),
    };
    let r = initialize_vault(&mut ctx, &"v".repeat(33), &config());
    assert_eq!(r, Err(Errors::VaultNotInitialized));
    assert_eq!(ctx.vault_account, VaultAccount::new());
}

#[test]
fn initialize_with_keeps_the_bump_it_is_given() {
    let mut ctx =
        InitializeVault { admin: admin(), vault_key: key(8), vault_account: VaultAccount::new() };
    let r = initialize_vault_with(&mut ctx, &config(), Some((key(8), 199)));
    assert_eq!(r, Ok(()));
    assert_eq!(ctx.vault_account, VaultAccount { owner: admin(), bump: 199 });
    let mut ctx =
        InitializeVault { admin: admin(), vault_key: key(8), vault_account: VaultAccount::new() };
    assert_eq!(initialize_vault_with(&mut ctx, &config(), None), Err(Errors::VaultNotInitialized));
    let r = initialize_vault_with(&mut ctx, &config(), Some((key(7), 199)));
    assert_eq!(r, Err(Errors::VaultNotInitialized));
    assert_eq!(ctx.vault_account, VaultAccount::new());
}

#[test]
fn initialize_of_a_record_held_elsewhere_is_refused() {
    let mut ctx =
        InitializeVault { admin: admin(), vault_key: key(8), vault_account: VaultAccount::new() };
    let r = initialize_vault(&mut ctx, &"vault".to_string(), &config());
    assert_eq!(r, Err(Errors::VaultNotInitialized));
    ctx.vault_key = vault_account_address(&admin(), &"other".to_string(), &key(42)).unwrap().0;
    let r = initialize_vault(&mut ctx, &"vault".to_string(), &config());
    assert_eq!(r, Err(Errors::VaultNotInitialized));
    assert_eq!(ctx.vault_account, VaultAccount::new());
}

#[test]
fn scenario_fund_vault_with_nothing_fails() {
    let mut ctx = FundVault {
        admin: Wallet { key: admin(), lamports: 500 },
        vault_account: vault(),
        vault_lamports: 70,
    };
    let r = fund_vault(&mut ctx, 0);
    assert_eq!(r, Err(Errors::InvalidAmount));
    assert_eq!(r.unwrap_err().kind(), ErrorKind::Funds);
    assert_eq!(ctx.vault_lamports, 70);
    assert_eq!(ctx.admin.lamports, 500);
}

#[test]
fn fund_moves_the_amount_into_the_vault() {
    let mut ctx = FundVault {
        admin: Wallet { key: admin(), lamports: 500 },
        vault_account: vault(),
        vault_lamports: 70,
    };
    assert_eq!(fund_vault(&mut ctx, 120), Ok(()));
    assert_eq!(ctx.vault_lamports, 190);
    assert_eq!(ctx.admin.lamports, 380);
}

#[test]
fn fund_by_another_than_the_owner_is_refused() {
    let mut ctx = FundVault {
        admin: Wallet { key: key(5), lamports: 500 },
        vault_account: vault(),
        vault_lamports: 70,
    };
    assert_eq!(fund_vault(&mut ctx, 120), Err(Errors::Unauthorized));
    assert_eq!(ctx.vault_lamports, 70);
}

#[test]
fn fund_beyond_the_payers_balance_is_refused() {
    let mut ctx = FundVault {
        admin: Wallet { key: admin(), lamports: 119 },
        vault_account: vault(),
        vault_lamports: 70,
    };
    assert_eq!(fund_vault(&mut ctx, 120), Err(Errors::InsufficientFunds));
    assert_eq!(ctx.vault_lamports, 70);
    assert_eq!(ctx.admin.lamports, 119);
}

#[test]
fn fund_beyond_what_the_vault_can_hold_is_refused() {
    let mut ctx = FundVault {
        admin: Wallet { key: admin(), lamports: 500 },
        vault_account: vault(),
        vault_lamports: u64::MAX - 100,
    };
    assert_eq!(fund_vault(&mut ctx, 101), Err(Errors::ArithmeticOverflow));
    assert_eq!(ctx.vault_lamports, u64::MAX - 100);
    assert_eq!(fund_vault(&mut ctx, 100), Ok(()));
    assert_eq!(ctx.vault_lamports, u64::MAX);
}

#[test]
fn scenario_withdraw_more_than_the_vault_holds_fails() {
    let mut ctx = WithdrawFunds {
        admin: Wallet { key: admin(), lamports: 5 },
        vault_account: vault(),
        vault_lamports: 70,
    };
    let r = withdraw_funds(&mut ctx, 71, &config());
    assert_eq!(r, Err(Errors::InsufficientFunds));
    assert_eq!(r.unwrap_err().kind(), ErrorKind::Funds);
    assert_eq!(ctx.vault_lamports, 70);
    assert_eq!(ctx.admin.lamports, 5);
    assert_eq!(ctx.vault_account, vault());
}

#[test]
fn withdraw_moves_the_amount_to_the_authority() {
    let mut ctx = WithdrawFunds {
        admin: Wallet { key: admin(), lamports: 5 },
        vault_account: vault(),
        vault_lamports: 70,
    };
    assert_eq!(withdraw_funds(&mut ctx, 70, &config()), Ok(()));
    assert_eq!(ctx.vault_lamports, 0);
    assert_eq!(ctx.admin.lamports, 75);
}

#[test]
fn withdraw_of_nothing_is_granted_and_moves_nothing() {
    let mut ctx = WithdrawFunds {
        admin: Wallet { key: admin(), lamports: 5 },
        vault_account: vault(),
        vault_lamports: 70,
    };
    assert_eq!(withdraw_funds(&mut ctx, 0, &config()), Ok(()));
    assert_eq!(ctx.vault_lamports, 70);
    assert_eq!(ctx.admin.lamports, 5);
}

#[test]
fn withdraw_by_another_than_the_authority_is_refused() {
    let mut ctx = WithdrawFunds {
        admin: Wallet { key: key(5), lamports: 5 },
        vault_account: VaultAccount { owner: key(5), bump: 254 },
        vault_lamports: 70,
    };
    assert_eq!(withdraw_funds(&mut ctx, 10, &config()), Err(Errors::Unauthorized));
    assert_eq!(ctx.vault_lamports, 70);
}

#[test]
fn withdraw_from_a_vault_of_another_owner_is_refused() {
    let mut ctx = WithdrawFunds {
        admin: Wallet { key: admin(), lamports: 5 },
        vault_account: VaultAccount { owner: key(5), bump: 254 },
        vault_lamports: 70,
    };
    assert_eq!(withdraw_funds(&mut ctx, 10, &config()), Err(Errors::Unauthorized));
    assert_eq!(ctx.vault_lamports, 70);
}

#[test]
fn withdraw_beyond_what_the_receiver_can_hold_is_refused() {
    let mut ctx = WithdrawFunds {
        admin: Wallet { key: admin(), lamports: u64::MAX - 9 },
        vault_account: vault(),
        vault_lamports: 70,
    };
    assert_eq!(withdraw_funds(&mut ctx, 10, &config()), Err(Errors::ArithmeticOverflow));
    assert_eq!(ctx.vault_lamports, 70);
    assert_eq!(ctx.admin.lamports, u64::MAX - 9);
}

#[test]
fn transfer_moves_or_fails_whole() {
    let (mut from, mut to) = (10u64, 1u64);
    assert_eq!(transfer(&mut from, &mut to, 4), Ok(()));
    assert_eq!((from, to), (6, 5));
    assert_eq!(transfer(&mut from, &mut to, 7), Err(Errors::InsufficientFunds));
    assert_eq!((from, to), (6, 5));
    let mut full = u64::MAX;
    assert_eq!(transfer(&mut from, &mut full, 1), Err(Errors::ArithmeticOverflow));
    assert_eq!((from, full), (6, u64::MAX));
    assert_eq!(transfer(&mut from, &mut to, 0), Ok(()));
    assert_eq!((from, to), (6, 5));
}

#[test]
fn disburse_pays_out_of_the_vault() {
    let (mut vault_lamports, mut to) = (100u64, 5u64);
    assert_eq!(disburse(&vault(), &admin(), &mut vault_lamports, &mut to, 30), Ok(()));
    assert_eq!((vault_lamports, to), (70, 35));
}

#[test]
fn disburse_is_refused_whole() {
    let (mut vault_lamports, mut to) = (100u64, 5u64);
    let r = disburse(&vault(), &key(3), &mut vault_lamports, &mut to, 30);
    assert_eq!(r, Err(Errors::Unauthorized));
    let r = disburse(&vault(), &admin(), &mut vault_lamports, &mut to, 101);
    assert_eq!(r, Err(Errors::InsufficientFunds));
    let mut full = u64::MAX - 29;
    let r = disburse(&vault(), &admin(), &mut vault_lamports, &mut full, 30);
    assert_eq!(r, Err(Errors::ArithmeticOverflow));
    assert_eq!((vault_lamports, to, full), (100, 5, u64::MAX - 29));
}
