use vstd::prelude::*;

use solana_program::pubkey::Pubkey;

verus! {

/// The address and bump seed that the host's program-address search finds for
/// these seeds under this program id, or `None` when the search finds none.
pub uninterp spec fn program_address_of(seeds: Seq<Seq<u8>>, program: Seq<u8>) -> Option<(Seq<u8>, u8)>;

/// The byte strings of a list of seeds.
pub open spec fn seeds_view(seeds: Seq<Vec<u8>>) -> Seq<Seq<u8>> {
    seeds.map_values(|s: Vec<u8>| s@)
}

/// An address found by the search, as bytes.
pub open spec fn found_view(r: Option<([u8; 32], u8)>) -> Option<(Seq<u8>, u8)> {
    match r {
        Some((a, bump)) => Some((a@, bump)),
        None => None,
    }
}

/// Relies on Pubkey::try_find_program_address: it searches the bump seeds
/// from 255 downwards for one that puts the hashed address off the curve; the
/// outcome depends on the seeds and the program id alone.
#[verifier::external_body]
fn try_find_program_address(seeds: &Vec<Vec<u8>>, program: &[u8; 32]) -> (r: Option<([u8; 32], u8)>)
    ensures
        found_view(r) == program_address_of(seeds_view(seeds@), program@),
{
    let refs: Vec<&[u8]> = seeds.iter().map(|s| s.as_slice()).collect();
    match Pubkey::try_find_program_address(&refs, &Pubkey::new_from_array(*program)) {
        Some((address, bump)) => Some((address.to_bytes(), bump)),
        None => None,
    }
}

/// The tag that opens every vault's seed list: the bytes of "vault".
pub open spec fn vault_tag() -> Seq<u8> {
    seq![0x76u8, 0x61, 0x75, 0x6c, 0x74]
}

/// The seeds of a user's vault address.
pub open spec fn vault_seeds(user: Seq<u8>) -> Seq<Seq<u8>> {
    seq![vault_tag(), user]
}

/// The seeds with which the program signs for a user's vault.
pub open spec fn vault_signer_seeds(user: Seq<u8>, bump: u8) -> Seq<Seq<u8>> {
    seq![vault_tag(), user, seq![bump]]
}

/// The vault address of a user under a program, with its bump seed.
pub open spec fn vault_address_of(user: Seq<u8>, program: Seq<u8>) -> Option<(Seq<u8>, u8)> {
    program_address_of(vault_seeds(user), program)
}

fn key_bytes(key: &[u8; 32]) -> (r: Vec<u8>)
    ensures
        r@ == key@,
{
    let mut r: Vec<u8> = Vec::new();
    let mut i: usize = 0;
    while i < 32
        invariant
            i <= 32,
            r@ == key@.subrange(0, i as int),
        decreases 32 - i,
    {
        r.push(key[i]);
        i = i + 1;
    }
    assert(r@ =~= key@);
    r
}

/// The seed list of a user's vault address.
pub fn vault_seeds_for(user: &[u8; 32]) -> (r: Vec<Vec<u8>>)
    ensures
        seeds_view(r@) == vault_seeds(user@),
{
    let tag: Vec<u8> = vec![0x76u8, 0x61, 0x75, 0x6c, 0x74];
    let r: Vec<Vec<u8>> = vec![tag, key_bytes(user)];
    assert(seeds_view(r@) =~= vault_seeds(user@));
    r
}

/// The seed list with which the program signs for a user's vault.
pub fn vault_signer_seeds_for(user: &[u8; 32], bump: u8) -> (r: Vec<Vec<u8>>)
    ensures
        seeds_view(r@) == vault_signer_seeds(user@, bump),
{
    let tag: Vec<u8> = vec![0x76u8, 0x61, 0x75, 0x6c, 0x74];
    let b: Vec<u8> = vec![bump];
    assert(b@ =~= seq![bump]);
    assert(tag@ =~= vault_tag());
    let r: Vec<Vec<u8>> = vec![tag, key_bytes(user), b];
    assert(seeds_view(r@) =~= vault_signer_seeds(user@, bump));
    r
}

/// Derives a user's vault address and bump seed under a program.
pub fn derive_vault_address(user: &[u8; 32], program: &[u8; 32]) -> (r: Option<([u8; 32], u8)>)
    ensures
        found_view(r) == vault_address_of(user@, program@),
{
    let seeds = vault_seeds_for(user);
    try_find_program_address(&seeds, program)
}

/// Whether two keys are the same.
pub fn keys_equal(a: &[u8; 32], b: &[u8; 32]) -> (r: bool)
    ensures
        r == (a@ == b@),
{
    let mut i: usize = 0;
    while i < 32
        invariant
            i <= 32,
            a@.subrange(0, i as int) == b@.subrange(0, i as int),
        decreases 32 - i,
    {
        if a[i] != b[i] {
            assert(a@[i as int] != b@[i as int]);
            return false;
        }
        assert(a@.subrange(0, i + 1) =~= a@.subrange(0, i as int).push(a@[i as int]));
        assert(b@.subrange(0, i + 1) =~= b@.subrange(0, i as int).push(b@[i as int]));
        i = i + 1;
    }
    assert(a@ =~= a@.subrange(0, 32));
    assert(b@ =~= b@.subrange(0, 32));
    true
}

/// A vault address depends on the user's key and the program id alone: the
/// same pair always gives the same address and the same bump seed.
pub proof fn lemma_vault_address_deterministic(u1: Seq<u8>, p1: Seq<u8>, u2: Seq<u8>, p2: Seq<u8>)
    requires
        u1 == u2,
        p1 == p2,
    ensures
        vault_address_of(u1, p1) == vault_address_of(u2, p2),
{
}

} // verus!
