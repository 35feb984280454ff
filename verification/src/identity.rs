use vstd::prelude::*;

verus! {

/// A principal on the local chain: an account key of 32 bytes. The all-zero
/// value is the default identity, which no real account uses; operations
/// reject it where an actual party is required.
pub type Identity = [u8; 32];

/// The identity is the default (all-zero) one.
pub open spec fn spec_is_default(id: Identity) -> bool {
    forall|i: int| 0 <= i < 32 ==> id@[i] == 0
}

/// Byte-for-byte equality of two 32-byte values.
pub fn bytes32_eq(a: &[u8; 32], b: &[u8; 32]) -> (r: bool)
    ensures
        r == (a@ == b@),
{
    let mut i: usize = 0;
    while i < 32
        invariant
            0 <= i <= 32,
            forall|j: int| 0 <= j < i ==> a@[j] == b@[j],
        decreases 32 - i,
    {
        if a[i] != b[i] {
            assert(a@[i as int] != b@[i as int]);
            return false;
        }
        i += 1;
    }
    assert(a@ =~= b@);
    true
}

/// Whether `id` is the default (all-zero) identity.
pub fn is_default_identity(id: &Identity) -> (r: bool)
    ensures
        r == spec_is_default(*id),
{
    let mut i: usize = 0;
    while i < 32
        invariant
            0 <= i <= 32,
            forall|j: int| 0 <= j < i ==> id@[j] == 0,
        decreases 32 - i,
    {
        if id[i] != 0 {
            assert(id@[i as int] != 0);
            return false;
        }
        i += 1;
    }
    true
}

} // verus!
