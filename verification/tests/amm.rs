use anchor_lang::prelude::Pubkey as SolanaPubkey;
use escrow_amm::amm::{config_seed_bytes, AmmError, Config, Update};
use escrow_amm::framework::{FrameworkError, InstructionError};
use escrow_amm::pubkey::{AccountRef, Pubkey};

const SEED: u64 = 123;
const FEE: u16 = 30;
const PROTOCOL_FEE: u16 = 20;

fn key(b: u8) -> Pubkey {
    Pubkey::new_from_array([b; 32])
}

fn signer(k: Pubkey) -> AccountRef {
    AccountRef { key: k, is_signer: true, is_writable: true }
}

fn program_id() -> Pubkey {
    key(200)
}

/// The configuration account's address and bump for `SEED`, found off-chain.
fn config_pda(seed: u64) -> (Pubkey, u8) {
    let pid = SolanaPubkey::new_from_array(program_id().to_bytes());
    let (pda, bump) = SolanaPubkey::find_program_address(&[b"config", &seed.to_le_bytes()], &pid);
    (Pubkey::new_from_array(pda.to_bytes()), bump)
}

fn pool(authority: Option<Pubkey>, user: Pubkey) -> Update {
    let (pda, bump) = config_pda(SEED);
    Update {
        user: AccountRef { key: user, is_signer: true, is_writable: false },
        config_info: AccountRef { key: pda, is_signer: false, is_writable: true },
        config: Config {
            seed: SEED,
            authority,
            treasury: key(9),
            mint_x: key(2),
            mint_y: key(3),
            fee: FEE,
            protocol_fee: PROTOCOL_FEE,
            locked: false,
            config_bump: bump,
        },
    }
}

#[test]
fn lock_by_authority_sets_locked_flag() {
    let payer = key(1);
    let mut u = pool(Some(payer), payer);
    assert_eq!(u.check_accounts(&program_id()), Ok(()));
    u.lock().unwrap();
    assert!(u.config.locked);
}

#[test]
fn unlock_after_lock_clears_locked_flag() {
    let payer = key(1);
    let mut u = pool(Some(payer), payer);
    u.lock().unwrap();
    u.unlock().unwrap();
    assert!(!u.config.locked);
}

#[test]
fn test_lock_by_non_authority_fails() {
    let payer = key(1);
    let stranger = key(7);
    let mut u = pool(Some(payer), stranger);
    let res = u.lock();
    assert_eq!(res, Err(InstructionError::Custom(AmmError::InvalidAuthority)));
    assert!(!u.config.locked);
}

#[test]
fn test_lock_without_authority_fails() {
    let payer = key(1);
    let mut u = pool(None, payer);
    let res = u.lock();
    assert_eq!(res, Err(InstructionError::Custom(AmmError::NoAuthoritySet)));
    assert!(!u.config.locked);
}

#[test]
fn unlock_by_non_authority_fails_and_keeps_lock() {
    let payer = key(1);
    let mut u = pool(Some(payer), payer);
    u.lock().unwrap();
    u.user = signer(key(7));
    let before = u;
    assert_eq!(u.unlock(), Err(InstructionError::Custom(AmmError::InvalidAuthority)));
    assert_eq!(u, before);
    assert!(u.config.locked);
}

#[test]
fn unlock_without_authority_fails() {
    let mut u = pool(None, key(1));
    u.config.locked = true;
    assert_eq!(u.unlock(), Err(InstructionError::Custom(AmmError::NoAuthoritySet)));
    assert!(u.config.locked);
}

#[test]
fn lock_changes_only_the_flag_and_unlock_undoes_it() {
    let payer = key(1);
    let original = pool(Some(payer), payer);
    let mut u = original;
    u.lock().unwrap();
    let mut expected = original;
    expected.config.locked = true;
    assert_eq!(u, expected);
    u.lock().unwrap();
    assert_eq!(u, expected);
    u.unlock().unwrap();
    assert_eq!(u, original);
}

#[test]
fn lock_keeps_accounts_valid() {
    let payer = key(1);
    let mut u = pool(Some(payer), payer);
    assert_eq!(u.check_accounts(&program_id()), Ok(()));
    u.lock().unwrap();
    assert_eq!(u.check_accounts(&program_id()), Ok(()));
    u.unlock().unwrap();
    assert_eq!(u.check_accounts(&program_id()), Ok(()));
}

#[test]
fn accounts_need_a_signing_user() {
    let payer = key(1);
    let mut u = pool(Some(payer), payer);
    u.user.is_signer = false;
    assert_eq!(
        u.check_accounts(&program_id()),
        Err(InstructionError::Framework(FrameworkError::AccountNotSigner))
    );
}

#[test]
fn accounts_need_the_derived_config_address() {
    let payer = key(1);
    let mut u = pool(Some(payer), payer);
    u.config_info.key = key(5);
    assert_eq!(
        u.check_accounts(&program_id()),
        Err(InstructionError::Framework(FrameworkError::ConstraintSeeds))
    );
    let mut v = pool(Some(payer), payer);
    v.config.seed = SEED + 1;
    assert_eq!(
        v.check_accounts(&program_id()),
        Err(InstructionError::Framework(FrameworkError::ConstraintSeeds))
    );
    let mut w = pool(Some(payer), payer);
    assert_eq!(w.check_accounts(&key(201)), Err(InstructionError::Framework(FrameworkError::ConstraintSeeds)));
    w.config.config_bump = w.config.config_bump.wrapping_add(1);
    assert!(w.check_accounts(&program_id()).is_err());
}

#[test]
fn accounts_need_a_writable_config() {
    let payer = key(1);
    let mut u = pool(Some(payer), payer);
    u.config_info.is_writable = false;
    assert_eq!(
        u.check_accounts(&program_id()),
        Err(InstructionError::Framework(FrameworkError::ConstraintMut))
    );
}

#[test]
fn config_seed_is_the_word_config() {
    assert_eq!(config_seed_bytes(), b"config".to_vec());
}
