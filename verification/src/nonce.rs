use vstd::prelude::*;
use crate::errors::ErrorCode;
use crate::identity::bytes32_eq;

verus! {

/// A replay token accompanying an inbound cross-chain message: 32 bytes,
/// one-time use.
pub type Nonce = [u8; 32];

/// Cap on how many nonces the registry may record. Once the registry is
/// full, further inbound transfers are refused: the set grows monotonically
/// and is never evicted, a deliberate, closed design limitation.
pub const MAX_NONCES: usize = 1000;

/// The sequence `s` records `n` (compared byte for byte).
pub open spec fn registry_contains(s: Seq<Nonce>, n: Nonce) -> bool {
    exists|i: int| 0 <= i < s.len() && s[i]@ == n@
}

/// Bounded, append-only set of replay tokens. Detects and blocks a second
/// application of the same inbound message.
#[derive(Clone, Debug)]
pub struct NonceRegistry {
    /// Every nonce applied so far, in order of application, each at most once.
    pub used_nonces: Vec<Nonce>,
}

impl NonceRegistry {
    /// The registry invariant: bounded, and free of duplicates.
    pub open spec fn wf(self) -> bool {
        &&& self.used_nonces@.len() <= MAX_NONCES
        &&& forall|i: int, j: int|
                0 <= i < j < self.used_nonces@.len() ==> self.used_nonces@[i]@ != self.used_nonces@[j]@
    }

    /// An empty registry: no nonce has been applied yet.
    pub fn new() -> (r: NonceRegistry)
        ensures
            r.used_nonces@.len() == 0,
            r.wf(),
    {
        NonceRegistry { used_nonces: Vec::new() }
    }

    /// Membership test: has `nonce` been applied before?
    pub fn is_nonce_used(&self, nonce: Nonce) -> (r: bool)
        ensures
            r == registry_contains(self.used_nonces@, nonce),
    {
        let n = self.used_nonces.len();
        let mut i: usize = 0;
        while i < n
            invariant
                n == self.used_nonces@.len(),
                0 <= i <= n,
                forall|j: int| 0 <= j < i ==> self.used_nonces@[j]@ != nonce@,
            decreases n - i,
        {
            if bytes32_eq(&self.used_nonces[i], &nonce) {
                assert(self.used_nonces@[i as int]@ == nonce@);
                return true;
            }
            i += 1;
        }
        false
    }

    /// What `mark_nonce_used` decides, as a function of the recorded
    /// sequence and the nonce.
    pub open spec fn mark_outcome(self, nonce: Nonce) -> Result<(), ErrorCode> {
        if registry_contains(self.used_nonces@, nonce) {
            Err(ErrorCode::NonceAlreadyUsed)
        } else if self.used_nonces@.len() >= MAX_NONCES {
            Err(ErrorCode::NonceRegistryFull)
        } else {
            Ok(())
        }
    }

    /// Record `nonce`, refusing one already recorded and refusing to grow
    /// past the capacity bound. On failure the registry is untouched; on
    /// success exactly `nonce` is appended.
    pub fn mark_nonce_used(&mut self, nonce: Nonce) -> (r: Result<(), ErrorCode>)
        requires
            old(self).wf(),
        ensures
            r == old(self).mark_outcome(nonce),
            r is Ok ==> final(self).used_nonces@ == old(self).used_nonces@.push(nonce),
            r is Ok ==> registry_contains(final(self).used_nonces@, nonce),
            r is Err ==> *final(self) == *old(self),
            final(self).wf(),
            // nothing recorded is ever forgotten
            forall|n: Nonce|
                registry_contains(old(self).used_nonces@, n)
                    ==> registry_contains(final(self).used_nonces@, n),
    {
        if self.is_nonce_used(nonce) {
            return Err(ErrorCode::NonceAlreadyUsed);
        }
        if self.used_nonces.len() >= MAX_NONCES {
            return Err(ErrorCode::NonceRegistryFull);
        }
        self.used_nonces.push(nonce);
        proof {
            let s = self.used_nonces@;
            assert(s[s.len() - 1]@ == nonce@);
            assert forall|n: Nonce|
                registry_contains(old(self).used_nonces@, n)
                    implies registry_contains(s, n) by {
                let i = choose|i: int|
                    0 <= i < old(self).used_nonces@.len() && old(self).used_nonces@[i]@ == n@;
                assert(s[i]@ == n@);
            }
        }
        Ok(())
    }
}

} // verus!
