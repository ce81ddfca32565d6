use vstd::prelude::*;
use crate::framework::{lemma_u64_le_bytes_injective, u64_le_bytes, u64_to_le_bytes, FrameworkError, InstructionError};
use crate::pubkey::{AccountRef, Pubkey};
use crate::runtime::{create_program_address, program_address};

verus! {

/// The first seed of a pool configuration's address: `b"config"`.
pub open spec fn config_seed_prefix() -> Seq<u8> {
    seq!['c' as u8, 'o' as u8, 'n' as u8, 'f' as u8, 'i' as u8, 'g' as u8]
}

/// The bytes of `config_seed_prefix`.
pub fn config_seed_bytes() -> (r: Vec<u8>)
    ensures
        r@ == config_seed_prefix(),
{
    let r: Vec<u8> = vec!['c' as u8, 'o' as u8, 'n' as u8, 'f' as u8, 'i' as u8, 'g' as u8];
    assert(r@ =~= config_seed_prefix());
    r
}

/// The seeds from which a configuration's address is derived: the prefix, the
/// pool's seed in little-endian bytes, and the bump.
pub open spec fn config_seeds(seed: u64, bump: u8) -> Seq<Seq<u8>> {
    seq![config_seed_prefix(), u64_le_bytes(seed), seq![bump]]
}

/// The stored configuration of a pool.
#[derive(Clone, Copy, Debug, PartialEq, Eq)]
pub struct Config {
    pub seed: u64,
    pub authority: Option<Pubkey>,
    pub treasury: Pubkey,
    pub mint_x: Pubkey,
    pub mint_y: Pubkey,
    pub fee: u16,
    pub protocol_fee: u16,
    pub locked: bool,
    pub config_bump: u8,
}

/// The pool program's own errors that `lock` and `unlock` can raise.
#[derive(Clone, Copy, Debug, PartialEq, Eq)]
pub enum AmmError {
    /// The pool was created without an authority, so nobody may lock it.
    NoAuthoritySet,
    /// The signer is not the pool's authority.
    InvalidAuthority,
}

/// The accounts of the `lock` and `unlock` instructions: the signing user and
/// the pool's configuration account with its stored data. The framework has
/// read `config` from the account (checking its owner and type) before any
/// check here runs.
#[derive(Clone, Copy, Debug, PartialEq, Eq)]
pub struct Update {
    pub user: AccountRef,
    pub config_info: AccountRef,
    pub config: Config,
}

impl Update {
    /// What the account checks of the framework decide, in the order in which
    /// it makes them: the user signs; the configuration account's address is
    /// the one derived from `config_seeds`; the configuration account is
    /// writable.
    pub open spec fn spec_check_accounts(self, program_id: Seq<u8>) -> Result<(), InstructionError<AmmError>> {
        if !self.user.is_signer {
            Err(InstructionError::Framework(FrameworkError::AccountNotSigner))
        } else if program_address(config_seeds(self.config.seed, self.config.config_bump), program_id)
            != Some(self.config_info.key@) {
            Err(InstructionError::Framework(FrameworkError::ConstraintSeeds))
        } else if !self.config_info.is_writable {
            Err(InstructionError::Framework(FrameworkError::ConstraintMut))
        } else {
            Ok(())
        }
    }

    /// Whether the user may lock and unlock the pool: the pool has an
    /// authority, and it is the user.
    pub open spec fn spec_check_authority(self) -> Result<(), InstructionError<AmmError>> {
        match self.config.authority {
            None => Err(InstructionError::Custom(AmmError::NoAuthoritySet)),
            Some(authority) => if authority@ == self.user.key@ {
                Ok(())
            } else {
                Err(InstructionError::Custom(AmmError::InvalidAuthority))
            },
        }
    }

    /// These accounts with the pool's lock flag set to `locked`.
    pub open spec fn with_locked(self, locked: bool) -> Update {
        Update { config: Config { locked, ..self.config }, ..self }
    }

    /// Runs the framework's checks on the accounts of `lock` / `unlock`.
    pub fn check_accounts(&self, program_id: &Pubkey) -> (r: Result<(), InstructionError<AmmError>>)
        ensures
            r == self.spec_check_accounts(program_id@),
    {
        if !self.user.is_signer {
            return Err(InstructionError::Framework(FrameworkError::AccountNotSigner));
        }
        let mut seeds: Vec<Vec<u8>> = Vec::new();
        seeds.push(config_seed_bytes());
        seeds.push(u64_to_le_bytes(self.config.seed));
        let mut bump: Vec<u8> = Vec::new();
        bump.push(self.config.config_bump);
        seeds.push(bump);
        assert(seeds.deep_view()[0] =~= config_seed_prefix());
        assert(seeds.deep_view()[1] =~= u64_le_bytes(self.config.seed));
        assert(seeds.deep_view()[2] =~= seq![self.config.config_bump]);
        assert(seeds.deep_view() =~= config_seeds(self.config.seed, self.config.config_bump));
        match create_program_address(&seeds, program_id) {
            None => {
                return Err(InstructionError::Framework(FrameworkError::ConstraintSeeds));
            },
            Some(pda) => {
                if !self.config_info.key.key_eq(&pda) {
                    return Err(InstructionError::Framework(FrameworkError::ConstraintSeeds));
                }
            },
        }
        if !self.config_info.is_writable {
            return Err(InstructionError::Framework(FrameworkError::ConstraintMut));
        }
        Ok(())
    }

    /// Locks the pool: only its authority may do so.
    pub fn lock(&mut self) -> (r: Result<(), InstructionError<AmmError>>)
        ensures
            r == old(self).spec_check_authority(),
            r is Ok ==> *final(self) == old(self).with_locked(true),
            r is Err ==> *final(self) == *old(self),
    {
        self.check_authority()?;
        self.config.locked = true;
        Ok(())
    }

    /// Unlocks the pool: only its authority may do so.
    pub fn unlock(&mut self) -> (r: Result<(), InstructionError<AmmError>>)
        ensures
            r == old(self).spec_check_authority(),
            r is Ok ==> *final(self) == old(self).with_locked(false),
            r is Err ==> *final(self) == *old(self),
    {
        self.check_authority()?;
        self.config.locked = false;
        Ok(())
    }

    fn check_authority(&self) -> (r: Result<(), InstructionError<AmmError>>)
        ensures
            r == self.spec_check_authority(),
    {
        match &self.config.authority {
            None => Err(InstructionError::Custom(AmmError::NoAuthoritySet)),
            Some(authority) => {
                if authority.key_eq(&self.user.key) {
                    Ok(())
                } else {
                    Err(InstructionError::Custom(AmmError::InvalidAuthority))
                }
            },
        }
    }
}

/// Locking or unlocking changes nothing that the account checks read: the
/// accounts pass those checks after either instruction exactly when they
/// passed them before.
pub proof fn lemma_lock_flag_keeps_accounts_check(u: Update, locked: bool, program_id: Seq<u8>)
    ensures
        u.with_locked(locked).spec_check_accounts(program_id) == u.spec_check_accounts(program_id),
{
}

/// Whether a user may lock or unlock a pool does not depend on whether the
/// pool is locked: whoever may lock it may unlock it, and the other way round.
pub proof fn lemma_lock_flag_keeps_authority(u: Update, locked: bool)
    ensures
        u.with_locked(locked).spec_check_authority() == u.spec_check_authority(),
{
}

/// Unlocking undoes locking: when the authority locks an unlocked pool, it may
/// unlock it again, and the accounts are then as they were.
pub proof fn lemma_unlock_undoes_lock(u: Update)
    requires
        u.spec_check_authority() is Ok,
        !u.config.locked,
    ensures
        u.with_locked(true).spec_check_authority() is Ok,
        u.with_locked(true).with_locked(false) == u,
{
}

/// Locking undoes unlocking: when the authority unlocks a locked pool, it may
/// lock it again, and the accounts are then as they were.
pub proof fn lemma_lock_undoes_unlock(u: Update)
    requires
        u.spec_check_authority() is Ok,
        u.config.locked,
    ensures
        u.with_locked(false).spec_check_authority() is Ok,
        u.with_locked(false).with_locked(true) == u,
{
}

/// Locking (or unlocking) twice is the same as doing it once, and afterwards
/// the pool is in the state asked for.
pub proof fn lemma_set_lock_idempotent(u: Update, locked: bool)
    ensures
        u.with_locked(locked).with_locked(locked) == u.with_locked(locked),
        u.with_locked(locked).config.locked == locked,
{
}

/// The seeds of a configuration's address determine the pool's seed and the
/// bump: the seed enters with all eight of its bytes.
pub proof fn lemma_config_seeds_injective(s1: u64, b1: u8, s2: u64, b2: u8)
    ensures
        config_seeds(s1, b1).len() == 3,
        config_seeds(s1, b1)[1].len() == 8,
        config_seeds(s1, b1)[2] == seq![b1],
        config_seeds(s1, b1) == config_seeds(s2, b2) ==> s1 == s2 && b1 == b2,
{
    lemma_u64_le_bytes_injective(s1, s2);
    if config_seeds(s1, b1) == config_seeds(s2, b2) {
        assert(config_seeds(s1, b1)[1] == config_seeds(s2, b2)[1]);
        assert(config_seeds(s1, b1)[2][0] == config_seeds(s2, b2)[2][0]);
    }
}

/// The account checks of `lock` / `unlock` pass exactly when the user signs,
/// the configuration account is writable, and its address is the one derived
/// from the prefix, the pool's own seed and its own bump; the first of these
/// that fails names the error.
pub proof fn lemma_accounts_check(u: Update, program_id: Seq<u8>)
    ensures
        u.spec_check_accounts(program_id) is Ok <==> (
            u.user.is_signer
            && program_address(config_seeds(u.config.seed, u.config.config_bump), program_id)
                == Some(u.config_info.key@)
            && u.config_info.is_writable),
        !u.user.is_signer ==> u.spec_check_accounts(program_id)
            == Err::<(), InstructionError<AmmError>>(InstructionError::Framework(FrameworkError::AccountNotSigner)),
        u.user.is_signer && program_address(config_seeds(u.config.seed, u.config.config_bump), program_id)
            != Some(u.config_info.key@) ==> u.spec_check_accounts(program_id)
            == Err::<(), InstructionError<AmmError>>(InstructionError::Framework(FrameworkError::ConstraintSeeds)),
        u.spec_check_accounts(program_id) is Err ==> u.spec_check_accounts(program_id)
            matches Err(InstructionError::Framework(_)),
{
}

/// Only the pool's authority may lock or unlock it: the authority check
/// passes exactly when the pool has an authority and its address is the
/// user's; a pool without one refuses with `NoAuthoritySet`, and any other
/// user is refused with `InvalidAuthority`, whatever else the pool holds.
pub proof fn lemma_only_authority(u: Update)
    ensures
        u.spec_check_authority() is Ok <==> (u.config.authority is Some && u.config.authority.unwrap()@ == u.user.key@),
        u.config.authority is None ==> u.spec_check_authority()
            == Err::<(), InstructionError<AmmError>>(InstructionError::Custom(AmmError::NoAuthoritySet)),
        u.config.authority is Some && u.config.authority.unwrap()@ != u.user.key@ ==> u.spec_check_authority()
            == Err::<(), InstructionError<AmmError>>(InstructionError::Custom(AmmError::InvalidAuthority)),
{
}

/// Setting the lock flag changes the flag and nothing else.
pub proof fn lemma_lock_flag_frame(u: Update, locked: bool)
    ensures
        u.with_locked(locked).config.locked == locked,
        u.with_locked(locked).user == u.user,
        u.with_locked(locked).config_info == u.config_info,
        u.with_locked(locked).config.seed == u.config.seed,
        u.with_locked(locked).config.authority == u.config.authority,
        u.with_locked(locked).config.treasury == u.config.treasury,
        u.with_locked(locked).config.mint_x == u.config.mint_x,
        u.with_locked(locked).config.mint_y == u.config.mint_y,
        u.with_locked(locked).config.fee == u.config.fee,
        u.with_locked(locked).config.protocol_fee == u.config.protocol_fee,
        u.with_locked(locked).config.config_bump == u.config.config_bump,
{
}

} // verus!
