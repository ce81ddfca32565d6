use vstd::prelude::*;
use crate::framework::{lemma_u64_le_bytes_injective, u64_le_bytes, u64_to_le_bytes, FrameworkError, InstructionError};
use crate::pubkey::{AccountRef, Pubkey};
use crate::runtime::{clock_unix_timestamp, create_program_address, program_address};
use anchor_lang::prelude::ProgramError;

verus! {

/// The first seed of an escrow's address: `b"escrow"`.
pub open spec fn escrow_seed_prefix() -> Seq<u8> {
    seq!['e' as u8, 's' as u8, 'c' as u8, 'r' as u8, 'o' as u8, 'w' as u8]
}

/// The bytes of `escrow_seed_prefix`.
pub fn escrow_seed_bytes() -> (r: Vec<u8>)
    ensures
        r@ == escrow_seed_prefix(),
{
    let r: Vec<u8> = vec!['e' as u8, 's' as u8, 'c' as u8, 'r' as u8, 'o' as u8, 'w' as u8];
    assert(r@ =~= escrow_seed_prefix());
    r
}

/// The seeds from which an escrow's address is derived: the prefix, the
/// maker's address, the escrow's seed in little-endian bytes, and the bump.
pub open spec fn escrow_seeds(maker: Seq<u8>, seed: u64, bump: u8) -> Seq<Seq<u8>> {
    seq![escrow_seed_prefix(), maker, u64_le_bytes(seed), seq![bump]]
}

/// The stored state of an escrow: the maker offers its deposit of `mint_a`
/// for `receive` tokens of `mint_b`, until the unix time `expiration`.
#[derive(Clone, Copy, Debug, PartialEq, Eq)]
pub struct Escrow {
    pub seed: u64,
    pub maker: Pubkey,
    pub mint_a: Pubkey,
    pub mint_b: Pubkey,
    pub receive: u64,
    pub expiration: i64,
    pub bump: u8,
}

/// The escrow program's own error that `update` can raise.
#[derive(Clone, Copy, Debug, PartialEq, Eq)]
pub enum EscrowError {
    /// The escrow has expired, or the new expiration lies in the past.
    EscrowExpired,
}

/// The accounts of the `update` instruction: the signing maker and the escrow
/// account with its stored data. The framework has read `escrow` from the
/// account (checking its owner and type) before any check here runs.
#[derive(Clone, Copy, Debug, PartialEq, Eq)]
pub struct Update {
    pub maker: AccountRef,
    pub escrow_info: AccountRef,
    pub escrow: Escrow,
}

impl Update {
    /// The account checks that do not read the clock, in the order in which
    /// the framework makes them: the maker signs and is writable; the escrow
    /// account's address is the one derived from `escrow_seeds`; the escrow
    /// account is writable; the escrow's stored maker is the signing maker.
    pub open spec fn spec_check_accounts_before_clock(self, program_id: Seq<u8>) -> Result<(), InstructionError<EscrowError>> {
        if !self.maker.is_signer {
            Err(InstructionError::Framework(FrameworkError::AccountNotSigner))
        } else if !self.maker.is_writable {
            Err(InstructionError::Framework(FrameworkError::ConstraintMut))
        } else if program_address(
            escrow_seeds(self.maker.key@, self.escrow.seed, self.escrow.bump),
            program_id,
        ) != Some(self.escrow_info.key@) {
            Err(InstructionError::Framework(FrameworkError::ConstraintSeeds))
        } else if !self.escrow_info.is_writable {
            Err(InstructionError::Framework(FrameworkError::ConstraintMut))
        } else if self.escrow.maker@ != self.maker.key@ {
            Err(InstructionError::Framework(FrameworkError::ConstraintHasOne))
        } else {
            Ok(())
        }
    }

    /// The last account check: at clock time `now` the escrow has not expired.
    pub open spec fn spec_check_expiry(self, now: i64) -> Result<(), InstructionError<EscrowError>> {
        if now <= self.escrow.expiration {
            Ok(())
        } else {
            Err(InstructionError::Custom(EscrowError::EscrowExpired))
        }
    }

    /// All account checks of `update`, with the clock reading `now`.
    pub open spec fn spec_check_accounts_at(self, program_id: Seq<u8>, now: i64) -> Result<(), InstructionError<EscrowError>> {
        match self.spec_check_accounts_before_clock(program_id) {
            Err(e) => Err(e),
            Ok(()) => self.spec_check_expiry(now),
        }
    }

    /// These accounts with the escrow's asked amount set to `receive`.
    pub open spec fn with_receive(self, receive: u64) -> Update {
        Update { escrow: Escrow { receive, ..self.escrow }, ..self }
    }

    /// These accounts with the escrow's expiration set to `expiration`.
    pub open spec fn with_expiration(self, expiration: i64) -> Update {
        Update { escrow: Escrow { expiration, ..self.escrow }, ..self }
    }

    /// What `update` leaves and returns when the clock reads `now`: the asked
    /// amount always becomes `receive`; a new expiration is taken when it is
    /// not before `now`, and refused with `EscrowExpired` otherwise.
    pub open spec fn spec_update(self, receive: u64, expiration: Option<i64>, now: i64) -> (Update, Result<(), InstructionError<EscrowError>>) {
        let received = self.with_receive(receive);
        match expiration {
            None => (received, Ok(())),
            Some(e) => if e >= now {
                (received.with_expiration(e), Ok(()))
            } else {
                (received, Err(InstructionError::Custom(EscrowError::EscrowExpired)))
            },
        }
    }

    fn check_accounts_before_clock(&self, program_id: &Pubkey) -> (r: Result<(), InstructionError<EscrowError>>)
        ensures
            r == self.spec_check_accounts_before_clock(program_id@),
    {
        if !self.maker.is_signer {
            return Err(InstructionError::Framework(FrameworkError::AccountNotSigner));
        }
        if !self.maker.is_writable {
            return Err(InstructionError::Framework(FrameworkError::ConstraintMut));
        }
        let mut seeds: Vec<Vec<u8>> = Vec::new();
        seeds.push(escrow_seed_bytes());
        seeds.push(self.maker.key.to_vec());
        seeds.push(u64_to_le_bytes(self.escrow.seed));
        let mut bump: Vec<u8> = Vec::new();
        bump.push(self.escrow.bump);
        seeds.push(bump);
        assert(seeds.deep_view()[0] =~= escrow_seed_prefix());
        assert(seeds.deep_view()[1] =~= self.maker.key@);
        assert(seeds.deep_view()[2] =~= u64_le_bytes(self.escrow.seed));
        assert(seeds.deep_view()[3] =~= seq![self.escrow.bump]);
        assert(seeds.deep_view() =~= escrow_seeds(self.maker.key@, self.escrow.seed, self.escrow.bump));
        match create_program_address(&seeds, program_id) {
            None => {
                return Err(InstructionError::Framework(FrameworkError::ConstraintSeeds));
            },
            Some(pda) => {
                if !self.escrow_info.key.key_eq(&pda) {
                    return Err(InstructionError::Framework(FrameworkError::ConstraintSeeds));
                }
            },
        }
        if !self.escrow_info.is_writable {
            return Err(InstructionError::Framework(FrameworkError::ConstraintMut));
        }
        if !self.escrow.maker.key_eq(&self.maker.key) {
            return Err(InstructionError::Framework(FrameworkError::ConstraintHasOne));
        }
        Ok(())
    }

    fn check_expiry(&self, now: i64) -> (r: Result<(), InstructionError<EscrowError>>)
        ensures
            r == self.spec_check_expiry(now),
    {
        if now <= self.escrow.expiration {
            Ok(())
        } else {
            Err(InstructionError::Custom(EscrowError::EscrowExpired))
        }
    }

    /// Runs the account checks of `update` with the clock reading `now`.
    pub fn check_accounts_at(&self, program_id: &Pubkey, now: i64) -> (r: Result<(), InstructionError<EscrowError>>)
        ensures
            r == self.spec_check_accounts_at(program_id@, now),
    {
        self.check_accounts_before_clock(program_id)?;
        self.check_expiry(now)
    }

    /// The expiry check when the clock read gave `clock`: an unreadable clock's
    /// error comes back unchanged.
    pub open spec fn spec_check_expiry_with_clock(self, clock: Result<i64, ProgramError>) -> Result<(), InstructionError<EscrowError>> {
        match clock {
            Err(e) => Err(InstructionError::Program(e)),
            Ok(now) => self.spec_check_expiry(now),
        }
    }

    /// The expiry check, with `clock` the result of reading the cluster's clock.
    pub fn check_expiry_with_clock(&self, clock: Result<i64, ProgramError>) -> (r: Result<(), InstructionError<EscrowError>>)
        ensures
            r == self.spec_check_expiry_with_clock(clock),
    {
        match clock {
            Err(e) => Err(InstructionError::Program(e)),
            Ok(now) => self.check_expiry(now),
        }
    }

    /// Runs the account checks of `update`, reading the cluster's clock for
    /// the expiry check once the other checks have passed.
    pub fn check_accounts(&self, program_id: &Pubkey) -> (r: Result<(), InstructionError<EscrowError>>)
        ensures
            self.spec_check_accounts_before_clock(program_id@) is Err ==> r == self.spec_check_accounts_before_clock(program_id@),
            self.spec_check_accounts_before_clock(program_id@) is Ok ==>
                exists|clock: Result<i64, ProgramError>| r == #[trigger] self.spec_check_expiry_with_clock(clock),
    {
        self.check_accounts_before_clock(program_id)?;
        let clock = clock_unix_timestamp();
        self.check_expiry_with_clock(clock)
    }

    /// Sets the asked amount with the clock reading `now`, and the expiration
    /// too when one is given and it is not before `now`.
    pub fn update_at(&mut self, receive: u64, expiration: Option<i64>, now: i64) -> (r: Result<(), InstructionError<EscrowError>>)
        ensures
            (*final(self), r) == old(self).spec_update(receive, expiration, now),
    {
        self.escrow.receive = receive;
        if let Some(expiration) = expiration {
            if expiration < now {
                return Err(InstructionError::Custom(EscrowError::EscrowExpired));
            }
            self.escrow.expiration = expiration;
        }
        Ok(())
    }

    /// What `update` leaves and returns when the clock read gave `clock`: with
    /// no new expiration the clock is not consulted; when it could not be read,
    /// its error comes back unchanged and only the asked amount has been set;
    /// otherwise the outcome is `spec_update` at the reading.
    pub open spec fn spec_update_with_clock(
        self,
        receive: u64,
        expiration: Option<i64>,
        clock: Result<i64, ProgramError>,
    ) -> (Update, Result<(), InstructionError<EscrowError>>) {
        match expiration {
            None => (self.with_receive(receive), Ok(())),
            Some(_) => match clock {
                Err(e) => (self.with_receive(receive), Err(InstructionError::Program(e))),
                Ok(now) => self.spec_update(receive, expiration, now),
            },
        }
    }

    /// Sets the asked amount, and the expiration too when one is given, with
    /// `clock` the result of reading the cluster's clock.
    pub fn update_with_clock(
        &mut self,
        receive: u64,
        expiration: Option<i64>,
        clock: Result<i64, ProgramError>,
    ) -> (r: Result<(), InstructionError<EscrowError>>)
        ensures
            (*final(self), r) == old(self).spec_update_with_clock(receive, expiration, clock),
    {
        match clock {
            Ok(now) => self.update_at(receive, expiration, now),
            Err(e) => {
                self.escrow.receive = receive;
                if expiration.is_some() {
                    Err(InstructionError::Program(e))
                } else {
                    Ok(())
                }
            },
        }
    }

    /// Sets the asked amount, and the expiration too when one is given and it
    /// is not before the cluster's clock, which is read only then.
    pub fn update(&mut self, receive: u64, expiration: Option<i64>) -> (r: Result<(), InstructionError<EscrowError>>)
        ensures
            expiration is None ==> (*final(self), r) == (old(self).with_receive(receive), Ok::<(), InstructionError<EscrowError>>(())),
            expiration is Some ==> exists|clock: Result<i64, ProgramError>|
                (*final(self), r) == #[trigger] old(self).spec_update_with_clock(receive, expiration, clock),
    {
        if expiration.is_some() {
            let clock = clock_unix_timestamp();
            self.update_with_clock(receive, expiration, clock)
        } else {
            self.escrow.receive = receive;
            Ok(())
        }
    }

    /// The whole instruction at clock time `now` (both clock reads giving
    /// `now`): the account checks, then the rule; the escrow that is stored
    /// afterwards is the updated one on success, and on failure the one that
    /// was stored before, since the runtime keeps no change of a failed
    /// instruction.
    pub open spec fn spec_process_at(
        self,
        program_id: Seq<u8>,
        receive: u64,
        expiration: Option<i64>,
        now: i64,
    ) -> (Escrow, Result<(), InstructionError<EscrowError>>) {
        match self.spec_check_accounts_at(program_id, now) {
            Err(e) => (self.escrow, Err(e)),
            Ok(()) => {
                let (v, r) = self.spec_update(receive, expiration, now);
                match r {
                    Ok(()) => (v.escrow, Ok(())),
                    Err(e) => (self.escrow, Err(e)),
                }
            },
        }
    }

    /// Runs the whole instruction at clock time `now`; returns the escrow to
    /// store and the result.
    pub fn process_update_at(
        &self,
        program_id: &Pubkey,
        receive: u64,
        expiration: Option<i64>,
        now: i64,
    ) -> (out: (Escrow, Result<(), InstructionError<EscrowError>>))
        ensures
            out == self.spec_process_at(program_id@, receive, expiration, now),
    {
        if let Err(e) = self.check_accounts_at(program_id, now) {
            return (self.escrow, Err(e));
        }
        let mut accounts = *self;
        match accounts.update_at(receive, expiration, now) {
            Ok(()) => (accounts.escrow, Ok(())),
            Err(e) => (self.escrow, Err(e)),
        }
    }

    /// The whole instruction when the clock read of the account checks gave
    /// `check_clock` and the clock read of the rule gave `update_clock`: the
    /// account checks, then the rule; the escrow to store is the updated one
    /// on success, and on any failure the one that was stored before, since
    /// the runtime keeps no change of a failed instruction.
    pub open spec fn spec_process_with_clocks(
        self,
        program_id: Seq<u8>,
        receive: u64,
        expiration: Option<i64>,
        check_clock: Result<i64, ProgramError>,
        update_clock: Result<i64, ProgramError>,
    ) -> (Escrow, Result<(), InstructionError<EscrowError>>) {
        match self.spec_check_accounts_before_clock(program_id) {
            Err(e) => (self.escrow, Err(e)),
            Ok(()) => match self.spec_check_expiry_with_clock(check_clock) {
                Err(e) => (self.escrow, Err(e)),
                Ok(()) => {
                    let (v, r) = self.spec_update_with_clock(receive, expiration, update_clock);
                    match r {
                        Ok(()) => (v.escrow, Ok(())),
                        Err(e) => (self.escrow, Err(e)),
                    }
                },
            },
        }
    }

    /// Runs the whole instruction, reading the cluster's clock in the account
    /// checks and, when a new expiration is given, in the rule; returns the
    /// escrow to store and the result. The outcome is the instruction's at
    /// some pair of clock results; on failure the stored escrow is the one
    /// that was there before.
    pub fn process_update(
        &self,
        program_id: &Pubkey,
        receive: u64,
        expiration: Option<i64>,
    ) -> (out: (Escrow, Result<(), InstructionError<EscrowError>>))
        ensures
            exists|check_clock: Result<i64, ProgramError>, update_clock: Result<i64, ProgramError>|
                out == #[trigger] self.spec_process_with_clocks(program_id@, receive, expiration, check_clock, update_clock),
            out.1 is Err ==> out.0 == self.escrow,
            self.spec_check_accounts_before_clock(program_id@) is Err ==>
                out == (self.escrow, self.spec_check_accounts_before_clock(program_id@)),
    {
        let checked = self.check_accounts(program_id);
        let ghost pre = self.spec_check_accounts_before_clock(program_id@);
        let ghost check_clock: Result<i64, ProgramError> = if pre is Err {
            Ok(0)
        } else {
            choose|c: Result<i64, ProgramError>| checked == self.spec_check_expiry_with_clock(c)
        };
        if let Err(e) = checked {
            let out = (self.escrow, Err(e));
            assert(out == self.spec_process_with_clocks(program_id@, receive, expiration, check_clock, check_clock));
            return out;
        }
        assert(pre is Ok);
        let mut accounts = *self;
        let r = accounts.update(receive, expiration);
        let ghost update_clock: Result<i64, ProgramError> = if expiration is None {
            check_clock
        } else {
            choose|c: Result<i64, ProgramError>| (accounts, r) == self.spec_update_with_clock(receive, expiration, c)
        };
        proof {
            if expiration is None {
            }
            assert((accounts, r) == self.spec_update_with_clock(receive, expiration, update_clock));
        }
        let out = match r {
            Ok(()) => (accounts.escrow, Ok(())),
            Err(e) => (self.escrow, Err(e)),
        };
        assert(out == self.spec_process_with_clocks(program_id@, receive, expiration, check_clock, update_clock));
        out
    }
}

/// `update` touches nothing but the asked amount and the expiration: the
/// maker, the escrow account, the seed, the bump and both mints stay, the
/// asked amount is the new one whatever the outcome, and the expiration
/// changes only when a new one is given and accepted, and then to it.
pub proof fn lemma_update_frame(u: Update, receive: u64, expiration: Option<i64>, now: i64)
    ensures
        ({
            let (v, r) = u.spec_update(receive, expiration, now);
            &&& v.maker == u.maker
            &&& v.escrow_info == u.escrow_info
            &&& v.escrow.seed == u.escrow.seed
            &&& v.escrow.maker == u.escrow.maker
            &&& v.escrow.mint_a == u.escrow.mint_a
            &&& v.escrow.mint_b == u.escrow.mint_b
            &&& v.escrow.bump == u.escrow.bump
            &&& v.escrow.receive == receive
            &&& (r is Err ==> v.escrow.expiration == u.escrow.expiration)
            &&& (expiration is None ==> v.escrow.expiration == u.escrow.expiration && r is Ok)
            &&& (expiration is Some && r is Ok ==> v.escrow.expiration == expiration.unwrap())
        }),
{
}

/// `update` fails exactly when it is given an expiration that lies before the
/// clock, and then with `EscrowExpired`.
pub proof fn lemma_update_fails_only_for_past_expiration(u: Update, receive: u64, expiration: Option<i64>, now: i64)
    ensures
        u.spec_update(receive, expiration, now).1 is Err <==> (expiration matches Some(e) && e < now),
        u.spec_update(receive, expiration, now).1 is Err ==> u.spec_update(receive, expiration, now).1
            == Err::<(), InstructionError<EscrowError>>(InstructionError::Custom(EscrowError::EscrowExpired)),
{
}

/// Whatever `update` does, the account checks that do not read the clock
/// decide afterwards as they did before.
pub proof fn lemma_update_keeps_checks_before_clock(u: Update, receive: u64, expiration: Option<i64>, now: i64, program_id: Seq<u8>)
    ensures
        u.spec_update(receive, expiration, now).0.spec_check_accounts_before_clock(program_id)
            == u.spec_check_accounts_before_clock(program_id),
{
}

/// Accounts that pass all checks of `update` at clock time `now` still pass
/// them at that time after `update` has run, whatever it was given.
pub proof fn lemma_update_keeps_accounts_valid(u: Update, receive: u64, expiration: Option<i64>, now: i64, program_id: Seq<u8>)
    requires
        u.spec_check_accounts_at(program_id, now) is Ok,
    ensures
        u.spec_update(receive, expiration, now).0.spec_check_accounts_at(program_id, now) is Ok,
{
}

/// A new expiration that `update` accepted at clock time `now` is not before
/// `now`, and the escrow then passes the expiry check at exactly the times up
/// to that expiration.
pub proof fn lemma_accepted_expiration_bounds_validity(u: Update, receive: u64, e: i64, now: i64, t: i64)
    requires
        u.spec_update(receive, Some(e), now).1 is Ok,
    ensures
        now <= e,
        u.spec_update(receive, Some(e), now).0.escrow.expiration == e,
        u.spec_update(receive, Some(e), now).0.spec_check_expiry(t) is Ok <==> t <= e,
{
}

/// Repeating an `update` with the same arguments and clock reading changes
/// nothing more and gives the same result.
pub proof fn lemma_update_idempotent(u: Update, receive: u64, expiration: Option<i64>, now: i64)
    ensures
        ({
            let (v, r) = u.spec_update(receive, expiration, now);
            v.spec_update(receive, expiration, now) == (v, r)
        }),
{
}

/// Acceptance of a new expiration is upward-closed in the expiration and
/// downward-closed in the clock, and does not depend on the asked amount: if
/// `update` accepts `e` at time `now`, it accepts any `e2 >= e` at any time
/// `now2 <= now`, whatever amount it is given.
pub proof fn lemma_acceptance_monotone(u: Update, receive: u64, e: i64, now: i64, receive2: u64, e2: i64, now2: i64)
    requires
        u.spec_update(receive, Some(e), now).1 is Ok,
        e <= e2,
        now2 <= now,
    ensures
        u.spec_update(receive2, Some(e2), now2).1 is Ok,
{
}

/// A successful `update` keeps an unexpired escrow unexpired: if the escrow had
/// not expired at time `now`, it has not expired at `now` afterwards.
pub proof fn lemma_update_keeps_unexpired(u: Update, receive: u64, expiration: Option<i64>, now: i64)
    requires
        now <= u.escrow.expiration,
        u.spec_update(receive, expiration, now).1 is Ok,
    ensures
        now <= u.spec_update(receive, expiration, now).0.escrow.expiration,
{
}

/// With a readable clock, `update` decides as at the clock's reading; with no
/// new expiration the clock plays no part.
pub proof fn lemma_update_with_clock_reading(u: Update, receive: u64, expiration: Option<i64>, now: i64, clock: Result<i64, ProgramError>)
    ensures
        u.spec_update_with_clock(receive, expiration, Ok(now)) == u.spec_update(receive, expiration, now),
        expiration is None ==> u.spec_update_with_clock(receive, expiration, clock) == u.spec_update(receive, expiration, now),
{
}

/// A failed instruction leaves the stored escrow as it was, and a successful
/// one stores exactly what `update` made of it.
pub proof fn lemma_failed_instruction_keeps_escrow(u: Update, program_id: Seq<u8>, receive: u64, expiration: Option<i64>, now: i64)
    ensures
        u.spec_process_at(program_id, receive, expiration, now).1 is Err ==>
            u.spec_process_at(program_id, receive, expiration, now).0 == u.escrow,
        u.spec_process_at(program_id, receive, expiration, now).1 is Ok ==>
            u.spec_process_at(program_id, receive, expiration, now).0 == u.spec_update(receive, expiration, now).0.escrow,
{
}

/// Repeating the whole instruction at the same time on the escrow it stored
/// stores the same escrow and succeeds again.
pub proof fn lemma_process_idempotent(u: Update, program_id: Seq<u8>, receive: u64, expiration: Option<i64>, now: i64)
    requires
        u.spec_process_at(program_id, receive, expiration, now).1 is Ok,
    ensures
        ({
            let stored = u.spec_process_at(program_id, receive, expiration, now).0;
            let again = Update { escrow: stored, ..u };
            again.spec_process_at(program_id, receive, expiration, now) == (stored, Ok::<(), InstructionError<EscrowError>>(()))
        }),
{
    lemma_update_keeps_accounts_valid(u, receive, expiration, now, program_id);
    lemma_update_idempotent(u, receive, expiration, now);
}

/// When both clock reads of the instruction give `now`, the instruction
/// decides as `spec_process_at` does at `now`.
pub proof fn lemma_process_with_readable_clock(u: Update, program_id: Seq<u8>, receive: u64, expiration: Option<i64>, now: i64)
    ensures
        u.spec_process_with_clocks(program_id, receive, expiration, Ok(now), Ok(now))
            == u.spec_process_at(program_id, receive, expiration, now),
{
}

/// Whatever the clock reads give, a failed instruction stores the escrow that
/// was there, and a failure after the checks that precede the clock is an
/// expiry refusal or the clock's own error.
pub proof fn lemma_process_failures(
    u: Update,
    program_id: Seq<u8>,
    receive: u64,
    expiration: Option<i64>,
    check_clock: Result<i64, ProgramError>,
    update_clock: Result<i64, ProgramError>,
)
    ensures
        ({
            let (stored, r) = u.spec_process_with_clocks(program_id, receive, expiration, check_clock, update_clock);
            &&& (r is Err ==> stored == u.escrow)
            &&& (u.spec_check_accounts_before_clock(program_id) is Ok && r is Err ==> (
                r == Err::<(), InstructionError<EscrowError>>(InstructionError::Custom(EscrowError::EscrowExpired))
                || r matches Err(InstructionError::Program(_))))
        }),
{
}

/// The seeds of an escrow's address determine the maker, the seed and the
/// bump: two escrows that differ in any of them have different seeds, and the
/// seed enters with all eight of its bytes.
pub proof fn lemma_escrow_seeds_injective(m1: Seq<u8>, s1: u64, b1: u8, m2: Seq<u8>, s2: u64, b2: u8)
    ensures
        escrow_seeds(m1, s1, b1).len() == 4,
        escrow_seeds(m1, s1, b1)[1] == m1,
        escrow_seeds(m1, s1, b1)[2].len() == 8,
        escrow_seeds(m1, s1, b1)[3] == seq![b1],
        escrow_seeds(m1, s1, b1) == escrow_seeds(m2, s2, b2) ==> m1 == m2 && s1 == s2 && b1 == b2,
{
    lemma_u64_le_bytes_injective(s1, s2);
    if escrow_seeds(m1, s1, b1) == escrow_seeds(m2, s2, b2) {
        assert(escrow_seeds(m1, s1, b1)[1] == escrow_seeds(m2, s2, b2)[1]);
        assert(escrow_seeds(m1, s1, b1)[2] == escrow_seeds(m2, s2, b2)[2]);
        assert(escrow_seeds(m1, s1, b1)[3][0] == escrow_seeds(m2, s2, b2)[3][0]);
    }
}

/// The account checks made before the clock pass exactly when the maker signs
/// and is writable, the escrow account is writable, the escrow's stored maker
/// is the signer, and the escrow account's address is the one derived from
/// the prefix, the signer's address, the escrow's own seed and its own bump;
/// the first of these that fails names the error.
pub proof fn lemma_checks_before_clock(u: Update, program_id: Seq<u8>)
    ensures
        u.spec_check_accounts_before_clock(program_id) is Ok <==> (
            u.maker.is_signer
            && u.maker.is_writable
            && program_address(escrow_seeds(u.maker.key@, u.escrow.seed, u.escrow.bump), program_id)
                == Some(u.escrow_info.key@)
            && u.escrow_info.is_writable
            && u.escrow.maker@ == u.maker.key@),
        !u.maker.is_signer ==> u.spec_check_accounts_before_clock(program_id)
            == Err::<(), InstructionError<EscrowError>>(InstructionError::Framework(FrameworkError::AccountNotSigner)),
        u.maker.is_signer && !u.maker.is_writable ==> u.spec_check_accounts_before_clock(program_id)
            == Err::<(), InstructionError<EscrowError>>(InstructionError::Framework(FrameworkError::ConstraintMut)),
        u.maker.is_signer && u.maker.is_writable
            && program_address(escrow_seeds(u.maker.key@, u.escrow.seed, u.escrow.bump), program_id)
                != Some(u.escrow_info.key@) ==> u.spec_check_accounts_before_clock(program_id)
            == Err::<(), InstructionError<EscrowError>>(InstructionError::Framework(FrameworkError::ConstraintSeeds)),
        u.spec_check_accounts_before_clock(program_id) is Err ==> u.spec_check_accounts_before_clock(program_id)
            matches Err(InstructionError::Framework(_)),
{
}

/// The expiry check, at a clock reading `now`, passes exactly when `now` is not
/// after the escrow's expiration and otherwise refuses with `EscrowExpired`;
/// an unreadable clock's error comes back unchanged.
pub proof fn lemma_expiry_check(u: Update, now: i64, e: ProgramError, program_id: Seq<u8>)
    ensures
        u.spec_check_expiry_with_clock(Ok(now)) is Ok <==> now <= u.escrow.expiration,
        now > u.escrow.expiration ==> u.spec_check_expiry_with_clock(Ok(now))
            == Err::<(), InstructionError<EscrowError>>(InstructionError::Custom(EscrowError::EscrowExpired)),
        u.spec_check_expiry_with_clock(Err(e)) == Err::<(), InstructionError<EscrowError>>(InstructionError::Program(e)),
        u.spec_check_accounts_at(program_id, now) is Ok ==> now <= u.escrow.expiration,
{
}

/// The instruction, for any two clock results: it succeeds only when the
/// accounts pass the checks made before the clock, the clock read in the
/// checks gives a time not after the escrow's expiration, and (when a new
/// expiration is given) the clock read in the rule gives a time not after the
/// new expiration; the escrow then stored has the new asked amount, the new
/// expiration when one was given and the old one otherwise, and every other
/// field unchanged. An escrow that the checks' clock reading finds expired is
/// refused with `EscrowExpired` and left as it was.
pub proof fn lemma_process_outcome(
    u: Update,
    program_id: Seq<u8>,
    receive: u64,
    expiration: Option<i64>,
    check_clock: Result<i64, ProgramError>,
    update_clock: Result<i64, ProgramError>,
)
    ensures
        ({
            let (stored, r) = u.spec_process_with_clocks(program_id, receive, expiration, check_clock, update_clock);
            &&& (r is Ok ==> {
                &&& u.spec_check_accounts_before_clock(program_id) is Ok
                &&& check_clock is Ok && check_clock.unwrap() <= u.escrow.expiration
                &&& (expiration is Some ==> update_clock is Ok && update_clock.unwrap() <= expiration.unwrap())
                &&& stored.receive == receive
                &&& stored.expiration == (match expiration {
                    Some(e) => e,
                    None => u.escrow.expiration,
                })
                &&& stored.seed == u.escrow.seed
                &&& stored.maker == u.escrow.maker
                &&& stored.mint_a == u.escrow.mint_a
                &&& stored.mint_b == u.escrow.mint_b
                &&& stored.bump == u.escrow.bump
            })
            &&& (u.spec_check_accounts_before_clock(program_id) is Ok && check_clock is Ok
                && check_clock.unwrap() > u.escrow.expiration ==> stored == u.escrow
                && r == Err::<(), InstructionError<EscrowError>>(InstructionError::Custom(EscrowError::EscrowExpired)))
            &&& (u.spec_check_accounts_before_clock(program_id) is Ok && check_clock is Ok
                && check_clock.unwrap() <= u.escrow.expiration && expiration is None ==> r is Ok)
        }),
{
}

} // verus!
