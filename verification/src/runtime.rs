use vstd::prelude::*;
use anchor_lang::prelude::SolanaSysvar;
use crate::pubkey::Pubkey;

verus! {

#[verifier::external_type_specification]
#[verifier::external_body]
pub struct ExProgramError(anchor_lang::prelude::ProgramError);

/// Reads the unix timestamp of the cluster's clock sysvar
/// (`anchor_lang::prelude::Clock::get()`, field `unix_timestamp`).
/// Nothing is promised of the result: the time, and whether the sysvar can be
/// read at all (it cannot outside the runtime), depend on the machine.
#[verifier::external_body]
pub(crate) fn clock_unix_timestamp() -> (r: Result<i64, anchor_lang::prelude::ProgramError>) {
    anchor_lang::prelude::Clock::get().map(|clock| clock.unix_timestamp)
}

/// The address that `Pubkey::create_program_address` derives from a list of
/// seeds and a program id, or `None` where it refuses them (too many or too
/// long seeds, or a hash that lies on the curve).
pub uninterp spec fn program_address(seeds: Seq<Seq<u8>>, program_id: Seq<u8>) -> Option<Seq<u8>>;

/// The bytes of an optional address.
pub open spec fn key_option_view(k: Option<Pubkey>) -> Option<Seq<u8>> {
    match k {
        Some(k) => Some(k@),
        None => None,
    }
}

/// Derives a program address with `anchor_lang::prelude::Pubkey::create_program_address`.
/// The contract claims only that the result is a function of the seeds and
/// the program id (named `program_address`); an error of the outside call
/// becomes `None`.
#[verifier::external_body]
pub(crate) fn create_program_address(seeds: &Vec<Vec<u8>>, program_id: &Pubkey) -> (r: Option<Pubkey>)
    ensures
        key_option_view(r) == program_address(seeds.deep_view(), program_id@),
{
    let slices: Vec<&[u8]> = seeds.iter().map(|s| s.as_slice()).collect();
    let id = anchor_lang::prelude::Pubkey::new_from_array(program_id.bytes);
    anchor_lang::prelude::Pubkey::create_program_address(&slices, &id)
        .ok()
        .map(|k| Pubkey::new_from_array(k.to_bytes()))
}

} // verus!
