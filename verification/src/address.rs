//! The Hanzo precompile address space.
//!
//! | Hanzo address  | Purpose                   |
//! |----------------|---------------------------|
//! | `0x0101..0001` | PQ signature verify       |
//! | `0x0102..0002` | Quasar committee query    |
//! | `0x0201..0001` | AI inference forward pass |
//! | `0x0202..0002` | AI embedding              |
//!
//! A precompile address is `[0x00; 17] ++ [category] ++ [0x00] ++ [index]`.

use vstd::prelude::*;

verus! {

/// The address with `category` at byte 17, `index` at byte 19, and zero bytes
/// everywhere else.
pub open spec fn spec_addr(category: u8, index: u8) -> Seq<u8> {
    Seq::new(20, |i: int| if i == 17 { category } else if i == 19 { index } else { 0u8 })
}

/// PQ signature verification via ML-DSA (FIPS 204).
pub const ADDR_PQ_VERIFY: [u8; 20] = [0u8, 0, 0, 0, 0, 0, 0, 0, 0, 0, 0, 0, 0, 0, 0, 0, 0, 1, 0, 1];

/// Quasar committee membership query.
pub const ADDR_QUASAR_QUERY: [u8; 20] = [0u8, 0, 0, 0, 0, 0, 0, 0, 0, 0, 0, 0, 0, 0, 0, 0, 0, 1, 0, 2];

/// AI inference call (forward pass through a registered model).
pub const ADDR_AI_INFERENCE: [u8; 20] = [0u8, 0, 0, 0, 0, 0, 0, 0, 0, 0, 0, 0, 0, 0, 0, 0, 0, 2, 0, 1];

/// AI embedding computation.
pub const ADDR_AI_EMBEDDING: [u8; 20] = [0u8, 0, 0, 0, 0, 0, 0, 0, 0, 0, 0, 0, 0, 0, 0, 0, 0, 2, 0, 2];

/// Canonical Lux Quasar (Verkle witness) precompile, addressed inside the Lux
/// precompile dispatcher. The Hanzo Quasar precompile forwards to it.
pub const LUX_QUASAR_ADDR: &'static str = "0x0300000000000000000000000000000000000020";

/// Build a 20-byte precompile address from a category and an index.
pub fn addr(category: u8, index: u8) -> (a: [u8; 20])
    ensures
        a@ == spec_addr(category, index),
{
    let mut a = [0u8; 20];
    a[17] = category;
    a[19] = index;
    assert(a@ =~= spec_addr(category, index));
    a
}

/// The four named precompile addresses are the layout `addr` builds.
pub proof fn lemma_named_addresses()
    ensures
        ADDR_PQ_VERIFY@ == spec_addr(1, 1),
        ADDR_QUASAR_QUERY@ == spec_addr(1, 2),
        ADDR_AI_INFERENCE@ == spec_addr(2, 1),
        ADDR_AI_EMBEDDING@ == spec_addr(2, 2),
{
    assert(ADDR_PQ_VERIFY@ =~= spec_addr(1, 1));
    assert(ADDR_QUASAR_QUERY@ =~= spec_addr(1, 2));
    assert(ADDR_AI_INFERENCE@ =~= spec_addr(2, 1));
    assert(ADDR_AI_EMBEDDING@ =~= spec_addr(2, 2));
}

/// Byte-wise address comparison.
pub fn same_address(a: &[u8; 20], b: &[u8; 20]) -> (r: bool)
    ensures
        r == (*a == *b),
{
    let mut i: usize = 0;
    while i < 20
        invariant
            0 <= i <= 20,
            forall|j: int| 0 <= j < i ==> a@[j] == b@[j],
        decreases 20 - i,
    {
        if a[i] != b[i] {
            return false;
        }
        i = i + 1;
    }
    assert(*a =~= *b);
    true
}

} // verus!
