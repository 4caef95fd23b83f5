use zcoin::admin::{finalize, set_pause, update_window, AdminOnly, Finalize};
use zcoin::config::{initialize, Config, Initialize, InitializeParams};
use zcoin::convert::{convert_amount, pow10_u128};
use zcoin::redeem::{redeem, Redeem};
use zcoin::types::{Address, ErrorCode, LedgerAction, MintInfo, TokenAccountInfo};

fn addr(n: u8) -> Address {
    Address { bytes: [n; 32] }
}

const ADMIN: u8 = 1;
const OLD: u8 = 2;
const NEW: u8 = 3;
const AUTH: u8 = 4;
const USER: u8 = 5;

fn holder(key: u8, mint: u8, owner: u8) -> TokenAccountInfo {
    TokenAccountInfo { key: addr(key), mint: addr(mint), owner: addr(owner) }
}

fn init_accounts(old_decimals: u8, new_decimals: u8) -> Initialize {
    Initialize {
        old_mint: MintInfo { key: addr(OLD), decimals: old_decimals, mint_authority: None, freeze_authority: None },
        new_mint: MintInfo {
            key: addr(NEW),
            decimals: new_decimals,
            mint_authority: Some(addr(AUTH)),
            freeze_authority: Some(addr(ADMIN)),
        },
        mint_authority: addr(AUTH),
        bump: 254,
        mint_auth_bump: 253,
        treasury_ata: holder(10, NEW, 20),
        liquidity_ata: holder(11, NEW, 21),
        contributors_ata: holder(12, NEW, 22),
    }
}

fn params() -> InitializeParams {
    InitializeParams {
        admin: addr(ADMIN),
        ratio_num: 1,
        ratio_den: 10,
        total_cap: 1_000,
        migration_cap: 600,
        treasury_amount: 200,
        liquidity_amount: 100,
        contributors_amount: 100,
        start_ts: 100,
        end_ts: 200,
    }
}

fn config(ratio_num: u64, ratio_den: u64, old_decimals: u8, new_decimals: u8, cap: u64) -> Config {
    Config {
        bump: 254,
        mint_auth_bump: 253,
        admin: addr(ADMIN),
        old_mint: addr(OLD),
        new_mint: addr(NEW),
        ratio_num,
        ratio_den,
        old_decimals,
        new_decimals,
        total_cap: cap,
        migration_cap: cap,
        migration_minted: 0,
        paused: false,
        start_ts: 100,
        end_ts: 200,
        finalized: false,
    }
}

fn user_accounts() -> Redeem {
    Redeem {
        user: addr(USER),
        old_mint: addr(OLD),
        new_mint: addr(NEW),
        user_old_ata: holder(30, OLD, USER),
        user_new_ata: holder(31, NEW, USER),
    }
}

fn admin() -> AdminOnly {
    AdminOnly { admin: addr(ADMIN), new_mint: addr(NEW) }
}

fn minted_amount(a: &LedgerAction) -> u64 {
    match a {
        LedgerAction::MintTo { amount, .. } => *amount,
        _ => panic!("not a mint"),
    }
}

#[test]
fn test_initialize_migration() {
    let (cfg, mints, event) = initialize(&init_accounts(9, 6), &params()).unwrap();
    assert_eq!(cfg.migration_minted, 0);
    assert!(!cfg.paused);
    assert!(!cfg.finalized);
    assert_eq!(cfg.old_decimals, 9);
    assert_eq!(cfg.new_decimals, 6);
    assert_eq!(cfg.ratio_den, 10);
    assert_eq!(cfg.bump, 254);
    assert_eq!(cfg.mint_auth_bump, 253);
    assert_eq!(mints.len(), 3);
    assert_eq!(minted_amount(&mints[0]), 200);
    assert_eq!(minted_amount(&mints[1]), 100);
    assert_eq!(minted_amount(&mints[2]), 100);
    match mints[0] {
        LedgerAction::MintTo { mint, to, .. } => {
            assert_eq!(mint.bytes, [NEW; 32]);
            assert_eq!(to.bytes, [10; 32]);
        }
        _ => panic!("not a mint"),
    }
    assert_eq!(event.total_cap, 1_000);
    assert_eq!(event.migration_cap, 600);
    assert_eq!(event.start_ts, 100);
    assert_eq!(event.end_ts, 200);
}

#[test]
fn initialize_rejects_allocation_mismatch() {
    let mut p = params();
    p.treasury_amount = 201;
    assert_eq!(initialize(&init_accounts(9, 9), &p).unwrap_err(), ErrorCode::BadAllocationMath);
    p.treasury_amount = 199;
    assert_eq!(initialize(&init_accounts(9, 9), &p).unwrap_err(), ErrorCode::BadAllocationMath);
}

#[test]
fn initialize_rejects_bad_ratio_and_cap() {
    let mut p = params();
    p.ratio_den = 0;
    assert_eq!(initialize(&init_accounts(9, 9), &p).unwrap_err(), ErrorCode::InvalidRatio);
    let mut p = params();
    p.migration_cap = 1_001;
    assert_eq!(initialize(&init_accounts(9, 9), &p).unwrap_err(), ErrorCode::InvalidCap);
}

#[test]
fn initialize_checks_authorities() {
    let mut a = init_accounts(9, 9);
    a.new_mint.mint_authority = Some(addr(99));
    assert_eq!(initialize(&a, &params()).unwrap_err(), ErrorCode::WrongMintAuthority);
    a.new_mint.mint_authority = None;
    assert_eq!(initialize(&a, &params()).unwrap_err(), ErrorCode::WrongMintAuthority);
    let mut a = init_accounts(9, 9);
    a.new_mint.freeze_authority = None;
    assert_eq!(initialize(&a, &params()).unwrap_err(), ErrorCode::WrongFreezeAuthority);
    let mut a = init_accounts(9, 9);
    a.liquidity_ata.mint = addr(OLD);
    assert_eq!(initialize(&a, &params()).unwrap_err(), ErrorCode::WrongMint);
}

#[test]
fn test_redeem_tokens() {
    let mut cfg = config(1, 10, 9, 9, 1_000_000_000);
    let (actions, event) = redeem(&mut cfg, &user_accounts(), 150, 1_000, 100).unwrap();
    assert_eq!(event.burned_old, 1_000);
    assert_eq!(event.minted_new, 100);
    assert_eq!(cfg.migration_minted, 100);
    assert_eq!(actions.len(), 2);
    match actions[0] {
        LedgerAction::Burn { mint, from, authority, amount } => {
            assert_eq!(mint.bytes, [OLD; 32]);
            assert_eq!(from.bytes, [30; 32]);
            assert_eq!(authority.bytes, [USER; 32]);
            assert_eq!(amount, 1_000);
        }
        _ => panic!("expected a burn"),
    }
    assert_eq!(minted_amount(&actions[1]), 100);
}

#[test]
fn ratio_one_to_ten_exhausts_cap() {
    let mut cfg = config(1, 10, 9, 9, 100_000_000);
    let (_, event) = redeem(&mut cfg, &user_accounts(), 150, 1_000_000_000, 0).unwrap();
    assert_eq!(event.minted_new, 100_000_000);
    assert_eq!(cfg.migration_minted, 100_000_000);
    let before = cfg;
    assert_eq!(redeem(&mut cfg, &user_accounts(), 150, 10, 0).unwrap_err(), ErrorCode::CapExceeded);
    assert_eq!(cfg.migration_minted, before.migration_minted);
}

#[test]
fn test_decimal_math() {
    assert_eq!(convert_amount(1, 1, 1, 6, 9), Some(1_000));
    assert_eq!(convert_amount(1_000_000_000, 1, 10, 9, 9), Some(100_000_000));
    assert_eq!(convert_amount(1_999, 1, 1, 9, 6), Some(1));
    assert_eq!(convert_amount(999, 1, 1, 9, 6), Some(0));
    assert_eq!(convert_amount(7, 3, 2, 0, 0), Some(10));
    assert_eq!(convert_amount(0, 5, 3, 9, 9), Some(0));
    assert_eq!(convert_amount(u64::MAX, 2, 1, 0, 0), None);
    assert_eq!(convert_amount(u64::MAX, u64::MAX, 1, 0, 9), None);
    assert_eq!(convert_amount(1, 1, 0, 0, 0), None);
    assert_eq!(convert_amount(0, 1, 1, 0, 39), None);
}

#[test]
fn powers_of_ten() {
    assert_eq!(pow10_u128(0), Some(1));
    assert_eq!(pow10_u128(9), Some(1_000_000_000));
    assert_eq!(pow10_u128(38), Some(100_000_000_000_000_000_000_000_000_000_000_000_000));
    assert_eq!(pow10_u128(39), None);
    assert_eq!(pow10_u128(255), None);
}

#[test]
fn zero_and_dust_are_rejected() {
    let mut cfg = config(1, 10, 9, 9, 1_000);
    assert_eq!(redeem(&mut cfg, &user_accounts(), 150, 0, 0).unwrap_err(), ErrorCode::DustTooSmall);
    assert_eq!(redeem(&mut cfg, &user_accounts(), 150, 9, 0).unwrap_err(), ErrorCode::DustTooSmall);
    assert_eq!(cfg.migration_minted, 0);
}

#[test]
fn slippage_and_overflow() {
    let mut cfg = config(1, 10, 9, 9, 1_000);
    assert_eq!(redeem(&mut cfg, &user_accounts(), 150, 100, 11).unwrap_err(), ErrorCode::Slippage);
    let mut big = config(u64::MAX, 1, 0, 0, u64::MAX);
    assert_eq!(redeem(&mut big, &user_accounts(), 150, 2, 0).unwrap_err(), ErrorCode::MathOverflow);
}

#[test]
fn test_pause_functionality() {
    let mut cfg = config(1, 1, 0, 0, 1_000);
    let ev = set_pause(&mut cfg, &admin(), true).unwrap();
    assert!(ev.paused);
    assert!(cfg.paused);
    assert_eq!(redeem(&mut cfg, &user_accounts(), 150, 5, 0).unwrap_err(), ErrorCode::Paused);
    let intruder = AdminOnly { admin: addr(USER), new_mint: addr(NEW) };
    assert_eq!(set_pause(&mut cfg, &intruder, false).unwrap_err(), ErrorCode::NotAdmin);
    assert!(cfg.paused);
    set_pause(&mut cfg, &admin(), false).unwrap();
    assert_eq!(redeem(&mut cfg, &user_accounts(), 150, 5, 0).unwrap().1.minted_new, 5);
}

#[test]
fn test_window_validation() {
    let mut cfg = config(1, 1, 0, 0, 1_000);
    assert_eq!(redeem(&mut cfg, &user_accounts(), 99, 5, 0).unwrap_err(), ErrorCode::OutsideWindow);
    assert_eq!(redeem(&mut cfg, &user_accounts(), 201, 5, 0).unwrap_err(), ErrorCode::OutsideWindow);
    assert_eq!(redeem(&mut cfg, &user_accounts(), 100, 5, 0).unwrap().1.minted_new, 5);
    assert_eq!(redeem(&mut cfg, &user_accounts(), 200, 5, 0).unwrap().1.minted_new, 5);
    assert_eq!(cfg.migration_minted, 10);
    let ev = update_window(&mut cfg, &admin(), 300, 250).unwrap();
    assert_eq!((ev.start_ts, ev.end_ts), (300, 250));
    assert_eq!((cfg.start_ts, cfg.end_ts), (300, 250));
    assert_eq!(redeem(&mut cfg, &user_accounts(), 275, 5, 0).unwrap_err(), ErrorCode::OutsideWindow);
    let wrong = AdminOnly { admin: addr(ADMIN), new_mint: addr(OLD) };
    assert_eq!(update_window(&mut cfg, &wrong, 0, 1).unwrap_err(), ErrorCode::WrongMint);
    assert_eq!(cfg.start_ts, 300);
}

#[test]
fn test_cap_enforcement() {
    let mut cfg = config(1, 1, 0, 0, 10);
    let mut last = 0;
    for amount in [3u64, 4, 2] {
        redeem(&mut cfg, &user_accounts(), 150, amount, 0).unwrap();
        assert!(cfg.migration_minted >= last);
        last = cfg.migration_minted;
    }
    assert_eq!(cfg.migration_minted, 9);
    assert_eq!(redeem(&mut cfg, &user_accounts(), 150, 2, 0).unwrap_err(), ErrorCode::CapExceeded);
    assert_eq!(cfg.migration_minted, 9);
    redeem(&mut cfg, &user_accounts(), 150, 1, 0).unwrap();
    assert_eq!(cfg.migration_minted, 10);
    let mut over = config(1, 1, 0, 0, 10);
    over.migration_minted = 11;
    assert_eq!(redeem(&mut over, &user_accounts(), 150, 1, 0).unwrap_err(), ErrorCode::CapExceeded);
}

#[test]
fn test_finalize_functionality() {
    let mut cfg = config(1, 1, 0, 0, 1_000);
    let fin = Finalize { admin: addr(ADMIN), new_mint: addr(NEW) };
    assert_eq!(finalize(&mut cfg, &fin, 200).unwrap_err(), ErrorCode::TooEarly);
    assert!(!cfg.finalized);
    let stranger = Finalize { admin: addr(USER), new_mint: addr(NEW) };
    assert_eq!(finalize(&mut cfg, &stranger, 201).unwrap_err(), ErrorCode::NotAdmin);
    let (action, _) = finalize(&mut cfg, &fin, 201).unwrap();
    match action {
        LedgerAction::RevokeMintAuthority { mint } => assert_eq!(mint.bytes, [NEW; 32]),
        _ => panic!("expected a revocation"),
    }
    assert!(cfg.finalized);
    assert_eq!(finalize(&mut cfg, &fin, 300).unwrap_err(), ErrorCode::AlreadyFinalized);
    update_window(&mut cfg, &admin(), 0, 1_000).unwrap();
    assert_eq!(redeem(&mut cfg, &user_accounts(), 500, 5, 0).unwrap_err(), ErrorCode::AlreadyFinalized);
    assert_eq!(cfg.migration_minted, 0);
}

#[test]
fn test_account_validation() {
    let mut cfg = config(1, 1, 0, 0, 1_000);
    let mut a = user_accounts();
    a.old_mint = addr(NEW);
    assert_eq!(redeem(&mut cfg, &a, 150, 5, 0).unwrap_err(), ErrorCode::WrongMint);
    let mut a = user_accounts();
    a.user_new_ata.mint = addr(OLD);
    assert_eq!(redeem(&mut cfg, &a, 150, 5, 0).unwrap_err(), ErrorCode::WrongMint);
    let mut a = user_accounts();
    a.user_old_ata.owner = addr(77);
    assert_eq!(redeem(&mut cfg, &a, 150, 5, 0).unwrap_err(), ErrorCode::WrongOwner);
    let mut a = user_accounts();
    a.user_new_ata.owner = addr(77);
    assert_eq!(redeem(&mut cfg, &a, 150, 5, 0).unwrap_err(), ErrorCode::WrongOwner);
    assert_eq!(cfg.migration_minted, 0);
}

#[test]
fn address_comparison() {
    let mut b = [7u8; 32];
    assert!(addr(7).same(&Address { bytes: b }));
    b[31] = 8;
    assert!(!addr(7).same(&Address { bytes: b }));
}

#[test]
fn error_messages() {
    assert_eq!(ErrorCode::CapExceeded.message(), "Migration cap exceeded");
    assert_eq!(ErrorCode::DustTooSmall.message(), "Dust too small after conversion");
}
