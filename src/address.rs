//! Program-derived addresses: the lock record and the vault of a mint sit at
//! addresses that only this program can sign for.
use anchor_lang::solana_program::pubkey::Pubkey;
use vstd::prelude::*;

verus! {

/// A 32-byte account identity (a public key or a program-derived address).
#[derive(Clone, Copy, Debug, PartialEq, Eq)]
pub struct Address {
    pub bytes: [u8; 32],
}

impl View for Address {
    type V = Seq<u8>;

    open spec fn view(&self) -> Seq<u8> {
        self.bytes@
    }
}

impl Address {
    /// Byte-wise comparison of two addresses.
    pub fn same_as(&self, other: &Address) -> (r: bool)
        ensures
            r == (self@ == other@),
    {
        let mut i: usize = 0;
        while i < 32
            invariant
                0 <= i <= 32,
                self@.len() == 32,
                other@.len() == 32,
                forall|j: int| 0 <= j < i ==> self@[j] == other@[j],
            decreases 32 - i,
        {
            if self.bytes[i] != other.bytes[i] {
                assert(self@[i as int] != other@[i as int]);
                return false;
            }
            i = i + 1;
        }
        assert(self@ =~= other@);
        true
    }
}

/// The two kinds of account derived from a mint.
#[derive(Clone, Copy, Debug, PartialEq, Eq)]
pub enum Role {
    /// The record that holds the lock's metadata.
    Lock,
    /// The system-owned account that holds the escrowed lamports.
    Vault,
}

/// The tag that heads the seeds of each role: `"lock"` or `"vault"` in ASCII.
pub open spec fn role_tag(role: Role) -> Seq<u8> {
    match role {
        Role::Lock => seq![108u8, 111u8, 99u8, 107u8],
        Role::Vault => seq![118u8, 97u8, 117u8, 108u8, 116u8],
    }
}

/// The seeds of a role's address before the bump: the tag, then the mint.
pub open spec fn seeds_of(role: Role, subject: Seq<u8>) -> Seq<Seq<u8>> {
    seq![role_tag(role), subject]
}

/// The seeds with the one-byte bump appended.
pub open spec fn bumped_seeds(role: Role, subject: Seq<u8>, bump: u8) -> Seq<Seq<u8>> {
    seeds_of(role, subject).push(seq![bump])
}

/// What `Pubkey::create_program_address` returns for these seeds and program:
/// the address, or `None` where it refuses the seeds.
pub uninterp spec fn created_address(seeds: Seq<Seq<u8>>, program: Seq<u8>) -> Option<Seq<u8>>;

/// What `Pubkey::try_find_program_address` returns for these seeds and program:
/// the first viable address with its bump, or `None`.
pub uninterp spec fn searched_address(seeds: Seq<Seq<u8>>, program: Seq<u8>) -> Option<(Seq<u8>, u8)>;

/// The address and bump of `role` for `subject` under `program`.
pub open spec fn derived(program: Seq<u8>, subject: Seq<u8>, role: Role) -> Option<(Seq<u8>, u8)> {
    searched_address(seeds_of(role, subject), program)
}

/// The address of `role` for `subject` under `program`, re-derived with a known bump.
pub open spec fn rederived(program: Seq<u8>, subject: Seq<u8>, role: Role, bump: u8) -> Option<Seq<u8>> {
    created_address(bumped_seeds(role, subject, bump), program)
}

impl Role {
    /// The seed tag of the role.
    pub fn tag(&self) -> (r: Vec<u8>)
        ensures
            r@ == role_tag(*self),
    {
        match self {
            Role::Lock => vec![108u8, 111u8, 99u8, 107u8],
            Role::Vault => vec![118u8, 97u8, 117u8, 108u8, 116u8],
        }
    }
}

/// Relies on `Pubkey::try_find_program_address` (native build): it tries the bumps
/// from 255 down, appending each to the seeds, and returns the first address that
/// `Pubkey::create_program_address` accepts, with that bump.
#[verifier::external_body]
fn try_find(tag: &Vec<u8>, subject: &[u8; 32], program: &[u8; 32]) -> (r: Option<([u8; 32], u8)>)
    ensures
        match r {
            Some(found) => searched_address(seq![tag@, subject@], program@) == Some((found.0@, found.1)),
            None => searched_address(seq![tag@, subject@], program@) is None,
        },
        r matches Some(found) ==> created_address(seq![tag@, subject@].push(seq![found.1]), program@)
            == Some(found.0@),
{
    let seeds: [&[u8]; 2] = [tag.as_slice(), subject.as_slice()];
    Pubkey::try_find_program_address(&seeds, &Pubkey::new_from_array(*program)).map(
        |(a, b)| (a.to_bytes(), b),
    )
}

/// Relies on `Pubkey::create_program_address`: the address of the seeds (tag,
/// subject, bump) under the program, or an error where they give no address.
#[verifier::external_body]
fn create_with_bump(tag: &Vec<u8>, subject: &[u8; 32], bump: u8, program: &[u8; 32]) -> (r: Option<[u8; 32]>)
    ensures
        match r {
            Some(a) => created_address(seq![tag@, subject@].push(seq![bump]), program@) == Some(a@),
            None => created_address(seq![tag@, subject@].push(seq![bump]), program@) is None,
        },
{
    let bump_seed: [u8; 1] = [bump];
    let seeds: [&[u8]; 3] = [tag.as_slice(), subject.as_slice(), &bump_seed];
    Pubkey::create_program_address(&seeds, &Pubkey::new_from_array(*program)).ok().map(|a| a.to_bytes())
}

/// Searches the address and bump of `role` for `subject` under `program`.
pub fn find_address(program: &Address, subject: &Address, role: Role) -> (r: Option<(Address, u8)>)
    ensures
        match r {
            Some(found) => derived(program@, subject@, role) == Some((found.0@, found.1)),
            None => derived(program@, subject@, role) is None,
        },
        r matches Some(found) ==> rederived(program@, subject@, role, found.1) == Some(found.0@),
{
    let tag = role.tag();
    match try_find(&tag, &subject.bytes, &program.bytes) {
        Some(found) => Some((Address { bytes: found.0 }, found.1)),
        None => None,
    }
}

/// The address of `role` for `subject` under `program` with the given bump.
pub fn address_with_bump(program: &Address, subject: &Address, role: Role, bump: u8) -> (r: Option<Address>)
    ensures
        match r {
            Some(a) => rederived(program@, subject@, role, bump) == Some(a@),
            None => rederived(program@, subject@, role, bump) is None,
        },
{
    let tag = role.tag();
    match create_with_bump(&tag, &subject.bytes, bump, &program.bytes) {
        Some(a) => Some(Address { bytes: a }),
        None => None,
    }
}

/// Derivation is a function of the program, the subject and the role alone:
/// equal inputs give equal addresses and bumps, whether searched or re-derived.
pub proof fn lemma_derivation_deterministic(
    program1: Seq<u8>,
    program2: Seq<u8>,
    subject1: Seq<u8>,
    subject2: Seq<u8>,
    role: Role,
    bump: u8,
)
    requires
        program1 == program2,
        subject1 == subject2,
    ensures
        derived(program1, subject1, role) == derived(program2, subject2, role),
        rederived(program1, subject1, role, bump) == rederived(program2, subject2, role, bump),
{
}

/// The derivation never hashes the same seeds for two different purposes: the lock
/// and the vault of one subject have different seeds, and so do one role's
/// accounts for two different subjects, with or without a bump.
pub proof fn lemma_seeds_distinct(subject1: Seq<u8>, subject2: Seq<u8>, role: Role, bump1: u8, bump2: u8)
    ensures
        seeds_of(Role::Lock, subject1) != seeds_of(Role::Vault, subject1),
        bumped_seeds(Role::Lock, subject1, bump1) != bumped_seeds(Role::Vault, subject1, bump2),
        subject1 != subject2 ==> seeds_of(role, subject1) != seeds_of(role, subject2),
        subject1 != subject2 ==> bumped_seeds(role, subject1, bump1) != bumped_seeds(role, subject2, bump2),
{
    assert(seeds_of(Role::Lock, subject1)[0].len() != seeds_of(Role::Vault, subject1)[0].len());
    assert(bumped_seeds(Role::Lock, subject1, bump1)[0] == seeds_of(Role::Lock, subject1)[0]);
    assert(bumped_seeds(Role::Vault, subject1, bump2)[0] == seeds_of(Role::Vault, subject1)[0]);
    if subject1 != subject2 {
        assert(seeds_of(role, subject1)[1] != seeds_of(role, subject2)[1]);
        assert(bumped_seeds(role, subject1, bump1)[1] == subject1);
        assert(bumped_seeds(role, subject2, bump2)[1] == subject2);
    }
}

} // verus!
