//! Account identities and the addresses a program derives from seeds.

use vstd::prelude::*;
use vstd::slice::slice_to_vec;

verus! {

/// The 32-byte identity of an account holder or a stored record.
#[derive(Clone, Copy, Debug)]
pub struct Identity {
    pub bytes: [u8; 32],
}

impl View for Identity {
    type V = Seq<u8>;

    open spec fn view(&self) -> Seq<u8> {
        self.bytes@
    }
}

impl Identity {
    /// Wraps 32 raw bytes.
    pub fn new(bytes: [u8; 32]) -> (id: Identity)
        ensures
            id.bytes == bytes,
    {
        Identity { bytes }
    }

    /// Whether two identities are the same sequence of bytes.
    pub fn same_as(&self, other: &Identity) -> (same: bool)
        ensures
            same == (*self == *other),
            same == (self@ == other@),
    {
        let mut i: usize = 0;
        while i < 32
            invariant
                i <= 32,
                forall|j: int| 0 <= j < i ==> self.bytes[j] == other.bytes[j],
            decreases 32 - i,
        {
            if self.bytes[i] != other.bytes[i] {
                return false;
            }
            i += 1;
        }
        assert(self.bytes =~= other.bytes);
        true
    }
}

impl PartialEq for Identity {
    fn eq(&self, other: &Identity) -> (same: bool) {
        self.same_as(other)
    }
}

impl Eq for Identity {

}

impl vstd::std_specs::cmp::PartialEqSpecImpl for Identity {
    open spec fn obeys_eq_spec() -> bool {
        true
    }

    open spec fn eq_spec(&self, other: &Identity) -> bool {
        *self == *other
    }
}

/// The address and bump seed that the runtime derives for a program from a
/// list of seeds, or `None` where the list admits none.
pub uninterp spec fn program_address(seeds: Seq<Seq<u8>>, program_id: Seq<u8>) -> Option<
    (Seq<u8>, u8),
>;

/// Calls `Pubkey::try_find_program_address` of `anchor_lang`. The result is
/// a function of the seeds and the program id alone; the contract gives it
/// the name `program_address` and claims nothing else about it.
#[verifier::external_body]
fn try_find_program_address(seeds: &Vec<Vec<u8>>, program_id: &[u8; 32]) -> (found: Option<
    ([u8; 32], u8),
>)
    ensures
        match found {
            Some((address, bump)) => program_address(seeds.deep_view(), program_id@) == Some(
                (address@, bump),
            ),
            None => program_address(seeds.deep_view(), program_id@).is_none(),
        },
{
    let parts: Vec<&[u8]> = seeds.iter().map(|seed| seed.as_slice()).collect();
    let program = anchor_lang::prelude::Pubkey::new_from_array(*program_id);
    match anchor_lang::prelude::Pubkey::try_find_program_address(&parts, &program) {
        Some((address, bump)) => Some((address.to_bytes(), bump)),
        None => None,
    }
}

/// The seed under which the authority over every stake vault is derived:
/// the text `vault_authority`, in ASCII.
pub const VAULT_AUTHORITY_SEED: [u8; 15] = [
    118, 97, 117, 108, 116, 95, 97, 117, 116, 104, 111, 114, 105, 116, 121,
];

/// The seeds of the vault authority.
pub open spec fn vault_authority_seeds() -> Seq<Seq<u8>> {
    seq![VAULT_AUTHORITY_SEED@]
}

/// A derived address that signs for a program, with its bump seed.
#[derive(Clone, Copy, Debug)]
pub struct ProgramAddress {
    pub address: Identity,
    pub bump: u8,
}

/// Whether `found` is what `program_address` names for the program
/// `program_id` and the seeds of the vault authority.
pub open spec fn is_vault_authority(program_id: Identity, found: Option<ProgramAddress>) -> bool {
    match found {
        Some(signer) => program_address(vault_authority_seeds(), program_id@) == Some(
            (signer.address@, signer.bump),
        ),
        None => program_address(vault_authority_seeds(), program_id@).is_none(),
    }
}

/// Derives the authority over the stake vaults of the program
/// `program_id`: the address that signs when a stake leaves custody. The
/// answer is `None` where the program has no such address.
pub fn vault_authority(program_id: &Identity) -> (found: Option<ProgramAddress>)
    ensures
        is_vault_authority(*program_id, found),
{
    let mut seeds: Vec<Vec<u8>> = Vec::new();
    seeds.push(slice_to_vec(VAULT_AUTHORITY_SEED.as_slice()));
    assert(seeds@[0].deep_view() =~= VAULT_AUTHORITY_SEED@);
    assert(seeds.deep_view() =~= vault_authority_seeds());
    match try_find_program_address(&seeds, &program_id.bytes) {
        Some((address, bump)) => Some(ProgramAddress { address: Identity::new(address), bump }),
        None => None,
    }
}

} // verus!
