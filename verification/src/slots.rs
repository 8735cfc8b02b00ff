use vstd::prelude::*;

use crate::pubkey::Pubkey;

verus! {

/// Some slot of the table is free (holds the zero address).
pub open spec fn has_free_slot(slots: Seq<Pubkey>) -> bool {
    exists|i: int| 0 <= i < slots.len() && (#[trigger] slots[i]).is_zero()
}

/// `i` is the first free slot of the table.
pub open spec fn is_first_free(slots: Seq<Pubkey>, i: int) -> bool {
    &&& 0 <= i < slots.len()
    &&& slots[i].is_zero()
    &&& forall|j: int| 0 <= j < i ==> !(#[trigger] slots[j]).is_zero()
}

/// The table after `key` was written into its first free slot.
pub open spec fn placed_in_first_free(old_slots: Seq<Pubkey>, new_slots: Seq<Pubkey>, key: Pubkey) -> bool {
    exists|i: int| is_first_free(old_slots, i) && new_slots == old_slots.update(i, key)
}

/// Finds the first free slot of a table of addresses.
pub fn first_free_slot<const N: usize>(slots: &[Pubkey; N]) -> (r: Option<usize>)
    ensures
        match r {
            Some(i) => is_first_free(slots@, i as int),
            None => !has_free_slot(slots@),
        },
{
    let mut i: usize = 0;
    while i < N
        invariant
            0 <= i <= N,
            slots@.len() == N,
            forall|j: int| 0 <= j < i ==> !(#[trigger] slots@[j]).is_zero(),
        decreases N - i,
    {
        if slots[i].is_default() {
            return Some(i);
        }
        i = i + 1;
    }
    None
}

/// Writes `key` into the first free slot of the table, if there is one, and
/// tells whether it did.
pub fn place_in_first_free<const N: usize>(slots: &mut [Pubkey; N], key: Pubkey) -> (r: bool)
    ensures
        r == has_free_slot(old(slots)@),
        r ==> placed_in_first_free(old(slots)@, final(slots)@, key),
        !r ==> final(slots)@ == old(slots)@,
{
    match first_free_slot(slots) {
        Some(i) => {
            slots[i] = key;
            assert(final(slots)@ == old(slots)@.update(i as int, key));
            true
        },
        None => false,
    }
}

} // verus!
