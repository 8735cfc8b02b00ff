use vstd::prelude::*;

use crate::pubkey::Pubkey;

verus! {

/// The bytes of `"wall"`, the first seed of a wall address.
pub open spec fn wall_prefix() -> Seq<u8> {
    seq![119u8, 97u8, 108u8, 108u8]
}

/// The bytes of `"receipt"`, the first seed of a receipt address.
pub open spec fn receipt_prefix() -> Seq<u8> {
    seq![114u8, 101u8, 99u8, 101u8, 105u8, 112u8, 116u8]
}

/// The little-endian bytes of a `u16`.
pub open spec fn le_bytes_u16(n: u16) -> Seq<u8> {
    seq![(n % 256) as u8, (n / 256) as u8]
}

/// The seeds with which a wall signs for the token and metadata accounts it owns:
/// `"wall"`, the owner's user account, the wall's seed and the wall's bump.
pub open spec fn wall_signer_seeds_spec(owner_user_account: Pubkey, wall_seed: u16, bump: u8) -> Seq<Seq<u8>> {
    seq![wall_prefix(), owner_user_account.0@, le_bytes_u16(wall_seed), seq![bump]]
}

/// The seeds of receipt number `index` of a wall: `"receipt"`, the wall's
/// address and the index.
pub open spec fn receipt_seeds_spec(wall: Pubkey, index: u16) -> Seq<Seq<u8>> {
    seq![receipt_prefix(), wall.0@, le_bytes_u16(index)]
}

/// Names what `Pubkey::try_find_program_address` derives from the seeds and
/// the program id: the address and its bump seed, or `None` when no bump seed
/// takes the hash off the ed25519 curve.
pub uninterp spec fn program_address(seeds: Seq<Seq<u8>>, program_id: Pubkey) -> Option<(Pubkey, u8)>;

/// The address of receipt number `index` of a wall under the program, if one
/// can be derived.
pub open spec fn receipt_address(wall: Pubkey, program_id: Pubkey, index: u16) -> Option<Pubkey> {
    match program_address(receipt_seeds_spec(wall, index), program_id) {
        Some(found) => Some(found.0),
        None => None,
    }
}

/// Calls `Pubkey::try_find_program_address` of the runtime (through
/// anchor-lang), which searches for the bump seed that takes the hash of the
/// seeds and the program id off the ed25519 curve. The contract claims that the
/// result is a function of the seeds and the program id alone, named
/// `program_address`; `None` stands for the case where no bump seed works.
/// `requires` keeps to the seed limits of the runtime (fewer than 16 seeds, so
/// that the bump seed still fits, and at most 32 bytes each).
#[verifier::external_body]
pub(crate) fn try_find_program_address(seeds: &Vec<Vec<u8>>, program_id: &Pubkey) -> (r: Option<(Pubkey, u8)>)
    requires
        seeds@.len() < 16,
        forall|i: int| 0 <= i < seeds@.len() ==> (#[trigger] seeds@[i])@.len() <= 32,
    ensures
        r == program_address(seeds.deep_view(), *program_id),
{
    let slices: Vec<&[u8]> = seeds.iter().map(|s| s.as_slice()).collect();
    let id = anchor_lang::prelude::Pubkey::new_from_array(program_id.0);
    match anchor_lang::prelude::Pubkey::try_find_program_address(&slices, &id) {
        Some((address, bump)) => Some((Pubkey(address.to_bytes()), bump)),
        None => None,
    }
}

/// The deep view of a byte vector is its view.
proof fn lemma_bytes_deep_view(v: Vec<u8>)
    ensures
        v.deep_view() == v@,
{
    assert(v.deep_view() =~= v@);
}

/// The bytes of an address as a vector.
pub fn key_bytes(key: &Pubkey) -> (r: Vec<u8>)
    ensures
        r@ == key.0@,
{
    let mut out: Vec<u8> = Vec::new();
    let mut i: usize = 0;
    while i < 32
        invariant
            0 <= i <= 32,
            out@ == key.0@.subrange(0, i as int),
        decreases 32 - i,
    {
        out.push(key.0[i]);
        i = i + 1;
    }
    assert(out@ == key.0@);
    out
}

/// The little-endian bytes of a `u16`.
pub fn u16_le_bytes(n: u16) -> (r: Vec<u8>)
    ensures
        r@ == le_bytes_u16(n),
{
    let lo: u8 = (n % 256) as u8;
    let hi: u8 = (n / 256) as u8;
    let mut out: Vec<u8> = Vec::new();
    out.push(lo);
    out.push(hi);
    assert(out@ == le_bytes_u16(n));
    out
}

/// The seeds with which a wall signs.
pub fn wall_signer_seeds(owner_user_account: &Pubkey, wall_seed: u16, bump: u8) -> (r: Vec<Vec<u8>>)
    ensures
        r.deep_view() == wall_signer_seeds_spec(*owner_user_account, wall_seed, bump),
{
    let mut prefix: Vec<u8> = Vec::new();
    prefix.push(119u8);
    prefix.push(97u8);
    prefix.push(108u8);
    prefix.push(108u8);
    let mut bump_seed: Vec<u8> = Vec::new();
    bump_seed.push(bump);
    let mut out: Vec<Vec<u8>> = Vec::new();
    out.push(prefix);
    out.push(key_bytes(owner_user_account));
    out.push(u16_le_bytes(wall_seed));
    out.push(bump_seed);
    proof {
        lemma_bytes_deep_view(out@[0]);
        lemma_bytes_deep_view(out@[1]);
        lemma_bytes_deep_view(out@[2]);
        lemma_bytes_deep_view(out@[3]);
        assert(out@[0]@ =~= wall_prefix());
        assert(out@[3]@ =~= seq![bump]);
    }
    assert(out.deep_view() =~= wall_signer_seeds_spec(*owner_user_account, wall_seed, bump));
    out
}

/// The seeds of receipt number `index` of a wall.
pub fn receipt_seeds(wall: &Pubkey, index: u16) -> (r: Vec<Vec<u8>>)
    ensures
        r.deep_view() == receipt_seeds_spec(*wall, index),
        r@.len() == 3,
        forall|i: int| 0 <= i < 3 ==> (#[trigger] r@[i])@.len() <= 32,
{
    let mut prefix: Vec<u8> = Vec::new();
    prefix.push(114u8);
    prefix.push(101u8);
    prefix.push(99u8);
    prefix.push(101u8);
    prefix.push(105u8);
    prefix.push(112u8);
    prefix.push(116u8);
    let mut out: Vec<Vec<u8>> = Vec::new();
    out.push(prefix);
    out.push(key_bytes(wall));
    out.push(u16_le_bytes(index));
    proof {
        lemma_bytes_deep_view(out@[0]);
        lemma_bytes_deep_view(out@[1]);
        lemma_bytes_deep_view(out@[2]);
        assert(out@[0]@ =~= receipt_prefix());
    }
    assert(out.deep_view() =~= receipt_seeds_spec(*wall, index));
    out
}

/// The address of receipt number `index` of a wall under the program, if one
/// can be derived.
pub fn find_receipt_address(wall: &Pubkey, program_id: &Pubkey, index: u16) -> (r: Option<Pubkey>)
    ensures
        r == receipt_address(*wall, *program_id, index),
{
    let seeds = receipt_seeds(wall, index);
    match try_find_program_address(&seeds, program_id) {
        Some((address, _bump)) => Some(address),
        None => None,
    }
}

} // verus!
