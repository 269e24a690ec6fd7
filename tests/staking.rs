use solana_program::pubkey::Pubkey;
use staking_program::{
    destake, find_stake_account_address, find_stake_info_address, find_vault_address,
    initialize, scale, stake, stake_account_signer_seeds, vault_signer_seeds, DeStake,
    ErrorCode, Initialize, Payout, Policy, Stake, StakeInfo, Withdrawal,
};

fn fresh_stake(balance: u64, decimals: u8) -> Stake {
    Stake {
        stake_info_account: StakeInfo::new(),
        stake_account: 0,
        user_token_account: balance,
        decimals,
    }
}

fn single_shot() -> Policy {
    Policy { allow_top_up: false, ..Policy::new() }
}

#[test]
fn scale_multiplies_by_power_of_ten() {
    assert_eq!(scale(5, 6), Some(5_000_000));
    assert_eq!(scale(7, 0), Some(7));
    assert_eq!(scale(0, 30), Some(0));
    assert_eq!(scale(1, 19), Some(10_000_000_000_000_000_000));
    assert_eq!(scale(1, 20), None);
    assert_eq!(scale(u64::MAX, 1), None);
}

#[test]
fn stake_then_destake_scenario() {
    let policy = Policy::new();
    let mut s = fresh_stake(5_000_000, 6);
    assert_eq!(stake(&mut s, 5, 100, &policy), Ok(5_000_000));
    assert_eq!(s.stake_account, 5_000_000);
    assert_eq!(s.user_token_account, 0);
    assert_eq!(
        s.stake_info_account,
        StakeInfo { stake_at_slot: 100, is_staked: true, stake_amount: 5 }
    );

    let mut d = DeStake {
        token_vault_account: 100_000_000,
        stake_info_account: s.stake_info_account,
        stake_account: s.stake_account,
        user_token_account: s.user_token_account,
        decimals: 6,
    };
    assert_eq!(
        destake(&mut d, 5, 130, &policy),
        Ok(Payout { reward: 30_000_000, principal: 5_000_000 })
    );
    assert_eq!(d.token_vault_account, 70_000_000);
    assert_eq!(d.stake_account, 0);
    assert_eq!(d.user_token_account, 35_000_000);
    assert_eq!(d.stake_info_account.stake_amount, 0);
    assert_eq!(d.stake_info_account.stake_at_slot, 130);
    assert!(!d.stake_info_account.is_staked);
}

#[test]
fn stake_beyond_balance_fails_unchanged() {
    let policy = Policy::new();
    let mut s = fresh_stake(4, 0);
    let before = s;
    assert_eq!(stake(&mut s, 5, 10, &policy), Err(ErrorCode::InsufficientFunds));
    assert_eq!(s, before);

    let mut s = fresh_stake(4_999_999, 6);
    let before = s;
    assert_eq!(stake(&mut s, 5, 10, &policy), Err(ErrorCode::InsufficientFunds));
    assert_eq!(s, before);

    let mut s = fresh_stake(u64::MAX, 30);
    let before = s;
    assert_eq!(stake(&mut s, 1, 10, &policy), Err(ErrorCode::InsufficientFunds));
    assert_eq!(s, before);
}

#[test]
fn stakes_accumulate_and_restart_the_clock() {
    let policy = Policy::new();
    let mut s = fresh_stake(1_000, 2);
    assert_eq!(stake(&mut s, 3, 10, &policy), Ok(300));
    assert_eq!(stake(&mut s, 4, 25, &policy), Ok(400));
    assert_eq!(s.stake_info_account.stake_amount, 7);
    assert_eq!(s.stake_info_account.stake_at_slot, 25);
    assert_eq!(s.stake_account, 700);
    assert_eq!(s.user_token_account, 300);
}

#[test]
fn single_shot_refuses_second_stake() {
    let policy = single_shot();
    let mut s = fresh_stake(1_000, 0);
    assert_eq!(stake(&mut s, 3, 10, &policy), Ok(3));
    let before = s;
    assert_eq!(stake(&mut s, 4, 11, &policy), Err(ErrorCode::AlreadyStaked));
    assert_eq!(s, before);
}

#[test]
fn stake_principal_overflow() {
    let policy = Policy::new();
    let mut s = fresh_stake(10, 0);
    s.stake_info_account.stake_amount = u64::MAX;
    s.stake_info_account.is_staked = true;
    let before = s;
    assert_eq!(stake(&mut s, 1, 10, &policy), Err(ErrorCode::ArithmeticOverflow));
    assert_eq!(s, before);
}

fn open_position(principal: u64, start: u64, decimals: u8, reward_vault: u64) -> DeStake {
    let unit = scale(1, decimals).unwrap();
    DeStake {
        token_vault_account: reward_vault,
        stake_info_account: StakeInfo {
            stake_at_slot: start,
            is_staked: true,
            stake_amount: principal,
        },
        stake_account: principal * unit,
        user_token_account: 0,
        decimals,
    }
}

#[test]
fn destake_with_empty_reward_vault_fails_atomically() {
    let policy = Policy::new();
    let mut d = open_position(5, 100, 6, 29_999_999);
    let before = d;
    assert_eq!(destake(&mut d, 5, 130, &policy), Err(ErrorCode::InsufficientFunds));
    assert_eq!(d, before);
    assert_eq!(d.stake_account, 5_000_000);
}

#[test]
fn destake_reward_ignores_principal_and_amount() {
    let policy = Policy { withdrawal: Withdrawal::RequestedAmount, ..Policy::new() };
    let mut small = open_position(1, 40, 3, 1_000_000);
    let mut large = open_position(900, 40, 3, 1_000_000);
    let a = destake(&mut small, 1, 47, &policy).unwrap();
    let b = destake(&mut large, 250, 47, &policy).unwrap();
    assert_eq!(a.reward, 7_000);
    assert_eq!(b.reward, 7_000);
}

#[test]
fn partial_destake_recorded_principal_mode() {
    let policy = Policy::new();
    let mut d = open_position(10, 0, 1, 1_000);
    d.stake_account = 200;
    assert_eq!(
        destake(&mut d, 4, 3, &policy),
        Ok(Payout { reward: 30, principal: 100 })
    );
    assert_eq!(d.stake_info_account.stake_amount, 6);
    assert_eq!(d.stake_info_account.stake_at_slot, 3);
    assert!(d.stake_info_account.is_staked);
    assert_eq!(d.stake_account, 100);
    assert_eq!(d.user_token_account, 130);
    assert_eq!(d.token_vault_account, 970);
}

#[test]
fn partial_destake_requested_amount_mode() {
    let policy = Policy { withdrawal: Withdrawal::RequestedAmount, ..Policy::new() };
    let mut d = open_position(10, 0, 1, 1_000);
    assert_eq!(destake(&mut d, 4, 3, &policy), Ok(Payout { reward: 30, principal: 40 }));
    assert_eq!(d.stake_info_account.stake_amount, 6);
    assert_eq!(d.stake_account, 60);
    assert_eq!(d.user_token_account, 70);
}

#[test]
fn destake_more_than_vault_holds() {
    let policy = Policy::new();
    let mut d = open_position(5, 0, 2, 1_000);
    d.stake_account = 499;
    let before = d;
    assert_eq!(destake(&mut d, 5, 1, &policy), Err(ErrorCode::InsufficientFunds));
    assert_eq!(d, before);
}

#[test]
fn destake_more_than_recorded_principal() {
    let policy = Policy::new();
    let mut d = open_position(5, 0, 0, 1_000);
    d.stake_account = 100;
    let before = d;
    assert_eq!(destake(&mut d, 6, 1, &policy), Err(ErrorCode::InsufficientFunds));
    assert_eq!(d, before);
}

#[test]
fn destake_before_maturity() {
    let policy = Policy { minimum_hold_period: 10, ..Policy::new() };
    let mut d = open_position(5, 100, 0, 1_000);
    let before = d;
    assert_eq!(destake(&mut d, 5, 109, &policy), Err(ErrorCode::StakeNotMatured));
    assert_eq!(d, before);
    assert!(destake(&mut d, 5, 110, &policy).is_ok());
}

#[test]
fn destake_without_position_in_single_shot_mode() {
    let mut d = open_position(0, 0, 0, 1_000);
    d.stake_info_account.is_staked = false;
    let before = d;
    assert_eq!(destake(&mut d, 0, 1, &single_shot()), Err(ErrorCode::NotStaked));
    assert_eq!(d, before);
}

#[test]
fn destake_reward_overflow_and_clock_before_start() {
    let policy = Policy::new();
    let mut d = open_position(1, 0, 19, u64::MAX);
    let before = d;
    assert_eq!(destake(&mut d, 1, 2, &policy), Err(ErrorCode::ArithmeticOverflow));
    assert_eq!(d, before);

    let mut d = open_position(1, 50, 0, 1_000);
    let before = d;
    assert_eq!(destake(&mut d, 1, 49, &policy), Err(ErrorCode::ArithmeticOverflow));
    assert_eq!(d, before);
}

#[test]
fn single_shot_restake_after_full_destake() {
    let policy = single_shot();
    let mut d = open_position(2, 0, 0, 1_000);
    assert!(destake(&mut d, 2, 5, &policy).is_ok());
    let mut s = Stake {
        stake_info_account: d.stake_info_account,
        stake_account: d.stake_account,
        user_token_account: d.user_token_account,
        decimals: 0,
    };
    assert_eq!(stake(&mut s, 3, 6, &policy), Ok(3));
}

fn program_id() -> [u8; 32] {
    let mut id = [0u8; 32];
    for (i, b) in id.iter_mut().enumerate() {
        *b = (i as u8).wrapping_mul(37).wrapping_add(11);
    }
    id
}

#[test]
fn initialize_twice_keeps_address_and_balance() {
    let pid = program_id();
    let mut c = Initialize { token_vault_account: None };
    let first = initialize(&mut c, &pid).unwrap();
    assert_eq!(c.token_vault_account, Some(0));
    c.token_vault_account = Some(42);
    let second = initialize(&mut c, &pid).unwrap();
    assert_eq!(first.address, second.address);
    assert_eq!(first.bump, second.bump);
    assert_eq!(c.token_vault_account, Some(42));
}

#[test]
fn vault_address_matches_program_address_search() {
    let pid = program_id();
    let found = find_vault_address(&pid).unwrap();
    let (expected, bump) = Pubkey::find_program_address(&[b"vault"], &Pubkey::new_from_array(pid));
    assert_eq!(found.address, expected.to_bytes());
    assert_eq!(found.bump, bump);
    assert_ne!(found.address, pid);

    let seeds = vault_signer_seeds(found.bump);
    assert_eq!(seeds, vec![b"vault".to_vec(), vec![found.bump]]);
    let refs: Vec<&[u8]> = seeds.iter().map(|s| s.as_slice()).collect();
    let signed = Pubkey::create_program_address(&refs, &Pubkey::new_from_array(pid)).unwrap();
    assert_eq!(signed.to_bytes(), found.address);
}

#[test]
fn user_addresses_are_distinct_and_reproducible() {
    let pid = program_id();
    let owner = [7u8; 32];
    let info = find_stake_info_address(&owner, &pid).unwrap();
    let vault = find_stake_account_address(&owner, &pid).unwrap();
    assert_ne!(info.address, vault.address);
    let (expected, _) = Pubkey::find_program_address(
        &[b"stake_info", owner.as_ref()],
        &Pubkey::new_from_array(pid),
    );
    assert_eq!(info.address, expected.to_bytes());

    let seeds = stake_account_signer_seeds(&owner, vault.bump);
    assert_eq!(seeds, vec![b"token".to_vec(), owner.to_vec(), vec![vault.bump]]);
    let refs: Vec<&[u8]> = seeds.iter().map(|s| s.as_slice()).collect();
    let signed = Pubkey::create_program_address(&refs, &Pubkey::new_from_array(pid)).unwrap();
    assert_eq!(signed.to_bytes(), vault.address);
}
