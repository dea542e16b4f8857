use anchor_lang::prelude::Pubkey;
use vstd::prelude::*;

verus! {

/// The program address, with its bump seed, that the ledger derives for
/// `seeds` under `program`; `None` where no bump gives an address off the curve
/// or the seeds break the scheme's limits.
pub uninterp spec fn program_address(seeds: Seq<Seq<u8>>, program: Seq<u8>) -> Option<(Seq<u8>, u8)>;

/// The address part of a derivation result, as plain bytes.
pub open spec fn derived_view(r: Option<([u8; 32], u8)>) -> Option<(Seq<u8>, u8)> {
    match r {
        Some((a, b)) => Some((a@, b)),
        None => None,
    }
}

/// Tag of the raffle record's address: the bytes of "raffle".
pub open spec fn raffle_tag() -> Seq<u8> {
    seq![114u8, 97u8, 102u8, 102u8, 108u8, 101u8]
}

/// Tag of the escrow's address: the bytes of "proceeds".
pub open spec fn proceeds_tag() -> Seq<u8> {
    seq![112u8, 114u8, 111u8, 99u8, 101u8, 101u8, 100u8, 115u8]
}

/// Seeds of the raffle record bound to the certificate log `tree`.
pub open spec fn raffle_seeds(tree: Seq<u8>) -> Seq<Seq<u8>> {
    seq![raffle_tag(), tree]
}

/// Seeds of the escrow owned by the raffle record at `raffle`.
pub open spec fn proceeds_seeds(raffle: Seq<u8>) -> Seq<Seq<u8>> {
    seq![proceeds_tag(), raffle]
}

/// Seeds of the authority that the log's program keeps for the log `tree`.
pub open spec fn tree_authority_seeds(tree: Seq<u8>) -> Seq<Seq<u8>> {
    seq![tree]
}

/// Relies on `Pubkey::try_find_program_address` of the ledger's SDK: the result
/// depends on the seeds and the program alone, and is `None` when a seed is
/// longer than 32 bytes.
#[verifier::external_body]
pub(crate) fn find_program_address(seeds: &Vec<Vec<u8>>, program: &[u8; 32]) -> (r: Option<([u8; 32], u8)>)
    ensures
        derived_view(r) == program_address(seeds.deep_view(), program@),
        (exists|i: int| 0 <= i < seeds.len() && seeds@[i].len() > 32) ==> r.is_none(),
{
    let slices: Vec<&[u8]> = seeds.iter().map(|s| s.as_slice()).collect();
    let found = Pubkey::try_find_program_address(&slices, &Pubkey::new_from_array(*program));
    found.map(|(key, bump)| (key.to_bytes(), bump))
}

/// The bytes of a 32-byte key, as a vector.
pub fn key_bytes(key: &[u8; 32]) -> (r: Vec<u8>)
    ensures
        r@ == key@,
{
    let mut r: Vec<u8> = Vec::new();
    let mut i: usize = 0;
    while i < 32
        invariant
            i <= 32,
            key@.len() == 32,
            r@ == key@.subrange(0, i as int),
        decreases 32 - i,
    {
        r.push(key[i]);
        i = i + 1;
    }
    assert(r@ =~= key@);
    r
}

/// The address of the raffle record bound to the certificate log `tree`.
pub fn raffle_address(tree: &[u8; 32], program: &[u8; 32]) -> (r: Option<([u8; 32], u8)>)
    ensures
        derived_view(r) == program_address(raffle_seeds(tree@), program@),
{
    let tag: Vec<u8> = vec![114u8, 97u8, 102u8, 102u8, 108u8, 101u8];
    let seeds: Vec<Vec<u8>> = vec![tag, key_bytes(tree)];
    assert(seeds@[0].deep_view() =~= raffle_tag());
    assert(seeds@[1].deep_view() =~= tree@);
    assert(seeds.deep_view() =~= raffle_seeds(tree@));
    find_program_address(&seeds, program)
}

/// The address of the escrow that collects the proceeds of the raffle record
/// at `raffle`.
pub fn proceeds_address(raffle: &[u8; 32], program: &[u8; 32]) -> (r: Option<([u8; 32], u8)>)
    ensures
        derived_view(r) == program_address(proceeds_seeds(raffle@), program@),
{
    let tag: Vec<u8> = vec![112u8, 114u8, 111u8, 99u8, 101u8, 101u8, 100u8, 115u8];
    let seeds: Vec<Vec<u8>> = vec![tag, key_bytes(raffle)];
    assert(seeds@[0].deep_view() =~= proceeds_tag());
    assert(seeds@[1].deep_view() =~= raffle@);
    assert(seeds.deep_view() =~= proceeds_seeds(raffle@));
    find_program_address(&seeds, program)
}

/// The address of the authority record that the certificate log's program
/// `log_program` keeps for the log `tree`.
pub fn tree_authority_address(tree: &[u8; 32], log_program: &[u8; 32]) -> (r: Option<([u8; 32], u8)>)
    ensures
        derived_view(r) == program_address(tree_authority_seeds(tree@), log_program@),
{
    let seeds: Vec<Vec<u8>> = vec![key_bytes(tree)];
    assert(seeds@[0].deep_view() =~= tree@);
    assert(seeds.deep_view() =~= tree_authority_seeds(tree@));
    find_program_address(&seeds, log_program)
}

/// Raffle records are told apart by their logs: two logs give the raffle
/// derivation the same seeds exactly when they are the same log, and a raffle's
/// seeds never coincide with those of any escrow.
pub proof fn raffle_seeds_identify_log(tree: Seq<u8>, other_tree: Seq<u8>, raffle: Seq<u8>)
    ensures
        (raffle_seeds(tree) == raffle_seeds(other_tree)) == (tree == other_tree),
        raffle_seeds(tree) != proceeds_seeds(raffle),
{
    if raffle_seeds(tree) == raffle_seeds(other_tree) {
        assert(raffle_seeds(tree)[1] == raffle_seeds(other_tree)[1]);
    }
    assert(raffle_seeds(tree)[0].len() != proceeds_seeds(raffle)[0].len());
}

} // verus!
