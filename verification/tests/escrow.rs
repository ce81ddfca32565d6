use anchor_lang::prelude::ProgramError;
use anchor_lang::prelude::Pubkey as SolanaPubkey;
use escrow_amm::escrow::{escrow_seed_bytes, Escrow, EscrowError, Update};
use escrow_amm::framework::{u64_to_le_bytes, FrameworkError, InstructionError};
use escrow_amm::pubkey::{AccountRef, Pubkey};

const SEED: u64 = 123;
const RECEIVE: u64 = 10_000_000;
const EXPIRATION: i64 = 17780206209;

fn key(b: u8) -> Pubkey {
    Pubkey::new_from_array([b; 32])
}

fn program_id() -> Pubkey {
    key(200)
}

fn escrow_pda(maker: Pubkey, seed: u64) -> (Pubkey, u8) {
    let pid = SolanaPubkey::new_from_array(program_id().to_bytes());
    let (pda, bump) = SolanaPubkey::find_program_address(
        &[b"escrow", &maker.to_bytes(), &seed.to_le_bytes()],
        &pid,
    );
    (Pubkey::new_from_array(pda.to_bytes()), bump)
}

fn made_escrow(maker: Pubkey) -> Update {
    let (pda, bump) = escrow_pda(maker, SEED);
    Update {
        maker: AccountRef { key: maker, is_signer: true, is_writable: true },
        escrow_info: AccountRef { key: pda, is_signer: false, is_writable: true },
        escrow: Escrow {
            seed: SEED,
            maker,
            mint_a: key(2),
            mint_b: key(3),
            receive: RECEIVE,
            expiration: EXPIRATION,
            bump,
        },
    }
}

fn expired() -> InstructionError<EscrowError> {
    InstructionError::Custom(EscrowError::EscrowExpired)
}

#[test]
fn update_without_expiration_sets_receive_only() {
    let mut u = made_escrow(key(1));
    let before = u;
    assert_eq!(u.update(20_000_000, None), Ok(()));
    assert_eq!(u.escrow.receive, 20_000_000);
    assert_eq!(u.escrow.expiration, EXPIRATION);
    let mut expected = before;
    expected.escrow.receive = 20_000_000;
    assert_eq!(u, expected);
}

#[test]
fn update_at_accepts_a_future_expiration() {
    let mut u = made_escrow(key(1));
    assert_eq!(u.update_at(5, Some(2_000_000_000), 1_000_000_000), Ok(()));
    assert_eq!(u.escrow.receive, 5);
    assert_eq!(u.escrow.expiration, 2_000_000_000);
}

#[test]
fn update_at_accepts_an_expiration_equal_to_now() {
    let mut u = made_escrow(key(1));
    assert_eq!(u.update_at(5, Some(1_000_000_000), 1_000_000_000), Ok(()));
    assert_eq!(u.escrow.expiration, 1_000_000_000);
}

#[test]
fn update_at_refuses_a_past_expiration_but_keeps_receive() {
    let mut u = made_escrow(key(1));
    assert_eq!(u.update_at(5, Some(999_999_999), 1_000_000_000), Err(expired()));
    assert_eq!(u.escrow.receive, 5);
    assert_eq!(u.escrow.expiration, EXPIRATION);
}

#[test]
fn update_at_is_idempotent() {
    let mut u = made_escrow(key(1));
    u.update_at(7, Some(1_500_000_000), 1_000_000_000).unwrap();
    let once = u;
    u.update_at(7, Some(1_500_000_000), 1_000_000_000).unwrap();
    assert_eq!(u, once);
}

#[test]
fn update_with_expiration_reads_the_clock() {
    // Outside the runtime the clock sysvar cannot be read.
    let mut u = made_escrow(key(1));
    assert_eq!(
        u.update(9, Some(EXPIRATION + 1)),
        Err(InstructionError::Program(ProgramError::UnsupportedSysvar))
    );
    assert_eq!(u.escrow.receive, 9);
    assert_eq!(u.escrow.expiration, EXPIRATION);
}

#[test]
fn accounts_pass_before_expiry() {
    let u = made_escrow(key(1));
    assert_eq!(u.check_accounts_at(&program_id(), 0), Ok(()));
    assert_eq!(u.check_accounts_at(&program_id(), EXPIRATION), Ok(()));
}

#[test]
fn accounts_fail_after_expiry() {
    let u = made_escrow(key(1));
    assert_eq!(u.check_accounts_at(&program_id(), EXPIRATION + 1), Err(expired()));
}

#[test]
fn accounts_check_reads_the_clock_last() {
    let u = made_escrow(key(1));
    assert_eq!(
        u.check_accounts(&program_id()),
        Err(InstructionError::Program(ProgramError::UnsupportedSysvar))
    );
    let mut v = made_escrow(key(1));
    v.maker.is_signer = false;
    assert_eq!(
        v.check_accounts(&program_id()),
        Err(InstructionError::Framework(FrameworkError::AccountNotSigner))
    );
}

#[test]
fn accounts_need_a_signing_writable_maker() {
    let mut u = made_escrow(key(1));
    u.maker.is_signer = false;
    assert_eq!(
        u.check_accounts_at(&program_id(), 0),
        Err(InstructionError::Framework(FrameworkError::AccountNotSigner))
    );
    let mut v = made_escrow(key(1));
    v.maker.is_writable = false;
    assert_eq!(
        v.check_accounts_at(&program_id(), 0),
        Err(InstructionError::Framework(FrameworkError::ConstraintMut))
    );
}

#[test]
fn accounts_need_the_derived_escrow_address() {
    let mut u = made_escrow(key(1));
    u.escrow_info.key = key(4);
    assert_eq!(
        u.check_accounts_at(&program_id(), 0),
        Err(InstructionError::Framework(FrameworkError::ConstraintSeeds))
    );
    // Another maker signs: the address derived from its key differs.
    let mut v = made_escrow(key(1));
    v.maker.key = key(6);
    assert_eq!(
        v.check_accounts_at(&program_id(), 0),
        Err(InstructionError::Framework(FrameworkError::ConstraintSeeds))
    );
}

#[test]
fn accounts_need_a_writable_escrow() {
    let mut u = made_escrow(key(1));
    u.escrow_info.is_writable = false;
    assert_eq!(
        u.check_accounts_at(&program_id(), 0),
        Err(InstructionError::Framework(FrameworkError::ConstraintMut))
    );
}

#[test]
fn accounts_need_the_stored_maker() {
    // The escrow's address is derived from the signer, but its data names another maker.
    let signer = key(6);
    let mut u = made_escrow(signer);
    u.escrow.maker = key(1);
    assert_eq!(
        u.check_accounts_at(&program_id(), 0),
        Err(InstructionError::Framework(FrameworkError::ConstraintHasOne))
    );
}

#[test]
fn update_keeps_accounts_valid() {
    let mut u = made_escrow(key(1));
    let now = 1_000_000_000;
    assert_eq!(u.check_accounts_at(&program_id(), now), Ok(()));
    u.update_at(1, Some(now), now).unwrap();
    assert_eq!(u.check_accounts_at(&program_id(), now), Ok(()));
    assert_eq!(u.check_accounts_at(&program_id(), now + 1), Err(expired()));
    assert_eq!(u.update_at(2, Some(now - 1), now), Err(expired()));
    assert_eq!(u.check_accounts_at(&program_id(), now), Ok(()));
}

#[test]
fn seed_bytes() {
    assert_eq!(escrow_seed_bytes(), b"escrow".to_vec());
    assert_eq!(u64_to_le_bytes(SEED), SEED.to_le_bytes().to_vec());
    assert_eq!(u64_to_le_bytes(0x0102_0304_0506_0708), vec![8, 7, 6, 5, 4, 3, 2, 1]);
    assert_eq!(u64_to_le_bytes(u64::MAX), vec![255; 8]);
}

#[test]
fn key_equality_and_bytes() {
    let a = key(1);
    let mut b = [1u8; 32];
    assert!(a.key_eq(&Pubkey::new_from_array(b)));
    b[31] = 2;
    assert!(!a.key_eq(&Pubkey::new_from_array(b)));
    assert_eq!(a.to_vec(), vec![1u8; 32]);
}

#[test]
fn update_with_clock_hands_back_the_clock_error() {
    let mut u = made_escrow(key(1));
    assert_eq!(
        u.update_with_clock(9, Some(EXPIRATION + 1), Err(ProgramError::UnsupportedSysvar)),
        Err(InstructionError::Program(ProgramError::UnsupportedSysvar))
    );
    assert_eq!(u.escrow.receive, 9);
    assert_eq!(u.escrow.expiration, EXPIRATION);
    let mut v = made_escrow(key(1));
    assert_eq!(v.update_with_clock(9, None, Err(ProgramError::UnsupportedSysvar)), Ok(()));
    assert_eq!(v.escrow.receive, 9);
}

#[test]
fn update_with_clock_decides_at_the_reading() {
    let mut u = made_escrow(key(1));
    assert_eq!(u.update_with_clock(3, Some(100), Ok(101)), Err(expired()));
    assert_eq!(u.escrow.expiration, EXPIRATION);
    assert_eq!(u.update_with_clock(4, Some(101), Ok(101)), Ok(()));
    assert_eq!(u.escrow.expiration, 101);
    assert_eq!(u.escrow.receive, 4);
}

#[test]
fn check_expiry_with_clock_cases() {
    let u = made_escrow(key(1));
    assert_eq!(u.check_expiry_with_clock(Ok(EXPIRATION)), Ok(()));
    assert_eq!(u.check_expiry_with_clock(Ok(EXPIRATION + 1)), Err(expired()));
    assert_eq!(
        u.check_expiry_with_clock(Err(ProgramError::UnsupportedSysvar)),
        Err(InstructionError::Program(ProgramError::UnsupportedSysvar))
    );
}

#[test]
fn failed_instruction_stores_the_old_escrow() {
    let u = made_escrow(key(1));
    let now = 1_000_000_000;
    let (stored, r) = u.process_update_at(&program_id(), 5, Some(now - 1), now);
    assert_eq!(r, Err(expired()));
    assert_eq!(stored, u.escrow);
    let (stored, r) = u.process_update_at(&program_id(), 5, Some(now + 10), now);
    assert_eq!(r, Ok(()));
    assert_eq!(stored.receive, 5);
    assert_eq!(stored.expiration, now + 10);
    let (stored, r) = u.process_update_at(&program_id(), 5, None, EXPIRATION + 1);
    assert_eq!(r, Err(expired()));
    assert_eq!(stored, u.escrow);
    let mut w = made_escrow(key(1));
    w.maker.is_signer = false;
    let (stored, r) = w.process_update_at(&program_id(), 5, None, now);
    assert_eq!(r, Err(InstructionError::Framework(FrameworkError::AccountNotSigner)));
    assert_eq!(stored, w.escrow);
}

#[test]
fn process_update_outside_the_runtime_keeps_the_escrow() {
    let u = made_escrow(key(1));
    let (stored, r) = u.process_update(&program_id(), 5, None);
    assert_eq!(r, Err(InstructionError::Program(ProgramError::UnsupportedSysvar)));
    assert_eq!(stored, u.escrow);
}
