use vstd::prelude::*;

verus! {

/// An authorized source of inbound messages: a remote chain together with
/// the sender address registered for it. The address sits left-aligned in a
/// 32-byte buffer; `address_length` says how many of its bytes are
/// meaningful (20 for an EVM-style address, 32 for a full-width key).
#[derive(Clone, Copy, Debug)]
pub struct TrustedRemote {
    /// The remote chain this entry speaks for; never zero.
    pub chain_id: u16,
    /// The registered sender address, padded to 32 bytes.
    pub remote_address: [u8; 32],
    /// How many bytes of `remote_address` are meaningful: 20 or 32.
    pub address_length: u8,
}

/// The per-entry invariant: a real chain id and a recognized address width.
pub open spec fn remote_wf(t: TrustedRemote) -> bool {
    &&& t.chain_id != 0
    &&& t.address_length == 20 || t.address_length == 32
}

/// Some entry of `s` is keyed by `chain_id`.
pub open spec fn has_entry(s: Seq<TrustedRemote>, chain_id: u16) -> bool {
    exists|i: int| 0 <= i < s.len() && s[i].chain_id == chain_id
}

/// The presented trusted-remote entry speaks for a chain other than the one
/// the message claims.
pub open spec fn trusted_mismatch(tr: Option<TrustedRemote>, source_chain: u16) -> bool {
    match tr {
        Some(t) => t.chain_id != source_chain,
        None => false,
    }
}

/// Validate the source of an inbound message against the presented entry.
/// With no entry presented the message is let through on its chain id
/// alone, and the claimed sender address is never compared against the
/// registered one: both are deliberate, documented weakenings of the
/// protocol, reproduced here rather than silently tightened.
pub fn validate_source(presented: Option<TrustedRemote>, source_chain: u16) -> (r: bool)
    ensures
        r == !trusted_mismatch(presented, source_chain),
{
    match presented {
        Some(t) => t.chain_id == source_chain,
        None => true,
    }
}

/// Per-remote-chain registry of authorized senders, one entry per chain,
/// configured only by the authority (the caller-side gate lives in the
/// bridge operations).
#[derive(Clone, Debug)]
pub struct TrustedRemoteRegistry {
    /// The registered remotes; chain ids pairwise distinct.
    pub entries: Vec<TrustedRemote>,
}

impl TrustedRemoteRegistry {
    /// The registry invariant: one entry per chain, each well formed.
    pub open spec fn wf(self) -> bool {
        &&& forall|i: int, j: int|
                0 <= i < j < self.entries@.len()
                    ==> self.entries@[i].chain_id != self.entries@[j].chain_id
        &&& forall|i: int| 0 <= i < self.entries@.len() ==> remote_wf(#[trigger] self.entries@[i])
    }

    /// An empty registry: no remote chain is configured.
    pub fn new() -> (r: TrustedRemoteRegistry)
        ensures
            r.entries@.len() == 0,
            r.wf(),
    {
        TrustedRemoteRegistry { entries: Vec::new() }
    }

    /// The entry registered for `chain_id`, if any.
    pub fn get(&self, chain_id: u16) -> (r: Option<TrustedRemote>)
        ensures
            r is Some <==> has_entry(self.entries@, chain_id),
            r matches Some(t) ==> t.chain_id == chain_id
                && exists|i: int| 0 <= i < self.entries@.len() && self.entries@[i] == t,
    {
        let n = self.entries.len();
        let mut i: usize = 0;
        while i < n
            invariant
                n == self.entries@.len(),
                0 <= i <= n,
                forall|j: int| 0 <= j < i ==> self.entries@[j].chain_id != chain_id,
            decreases n - i,
        {
            let e = self.entries[i];
            if e.chain_id == chain_id {
                assert(self.entries@[i as int].chain_id == chain_id);
                return Some(e);
            }
            i += 1;
        }
        None
    }

    /// Create or replace the entry for `entry.chain_id`. Every other chain's
    /// entry stays exactly where and as it was; a fresh chain is appended.
    pub fn upsert(&mut self, entry: TrustedRemote)
        requires
            old(self).wf(),
            remote_wf(entry),
        ensures
            final(self).wf(),
            has_entry(final(self).entries@, entry.chain_id),
            // the entry for this chain is now exactly `entry`
            forall|i: int|
                0 <= i < final(self).entries@.len()
                    && (#[trigger] final(self).entries@[i]).chain_id == entry.chain_id
                    ==> final(self).entries@[i] == entry,
            // replace in place, or append
            if has_entry(old(self).entries@, entry.chain_id) {
                &&& final(self).entries@.len() == old(self).entries@.len()
                &&& forall|i: int|
                        0 <= i < old(self).entries@.len()
                            && (#[trigger] old(self).entries@[i]).chain_id != entry.chain_id
                            ==> final(self).entries@[i] == old(self).entries@[i]
            } else {
                final(self).entries@ == old(self).entries@.push(entry)
            },
    {
        let n = self.entries.len();
        let mut i: usize = 0;
        while i < n
            invariant
                old(self).wf(),
                remote_wf(entry),
                self.entries@ == old(self).entries@,
                n == self.entries@.len(),
                0 <= i <= n,
                forall|j: int| 0 <= j < i ==> self.entries@[j].chain_id != entry.chain_id,
            decreases n - i,
        {
            if self.entries[i].chain_id == entry.chain_id {
                self.entries.set(i, entry);
                proof {
                    let s = self.entries@;
                    let olds = old(self).entries@;
                    let ii = i as int;
                    assert(s == olds.update(ii, entry));
                    assert(olds[ii].chain_id == entry.chain_id);
                    assert(has_entry(olds, entry.chain_id));
                    assert(s[ii] == entry);
                    assert(has_entry(s, entry.chain_id));
                    assert forall|k: int, l: int| 0 <= k < l < s.len()
                        implies s[k].chain_id != s[l].chain_id by {
                        if k == ii {
                            assert(s[l] == olds[l]);
                            assert(olds[ii].chain_id != olds[l].chain_id);
                        } else if l == ii {
                            assert(s[k] == olds[k]);
                            assert(olds[k].chain_id != olds[ii].chain_id);
                        } else {
                            assert(s[k] == olds[k] && s[l] == olds[l]);
                        }
                    }
                    assert forall|k: int| 0 <= k < s.len()
                        implies remote_wf(#[trigger] s[k]) by {
                        if k != ii {
                            assert(s[k] == olds[k]);
                        }
                    }
                    assert forall|k: int|
                        0 <= k < s.len() && (#[trigger] s[k]).chain_id == entry.chain_id
                            implies s[k] == entry by {
                        if k != ii {
                            assert(s[k] == olds[k]);
                            if k < ii {
                                assert(olds[k].chain_id != olds[ii].chain_id);
                            } else {
                                assert(olds[ii].chain_id != olds[k].chain_id);
                            }
                        }
                    }
                }
                return;
            }
            i += 1;
        }
        self.entries.push(entry);
        proof {
            let s = self.entries@;
            let olds = old(self).entries@;
            assert(s == olds.push(entry));
            assert(s[s.len() - 1] == entry);
            assert(!has_entry(olds, entry.chain_id));
            assert forall|k: int, l: int| 0 <= k < l < s.len()
                implies s[k].chain_id != s[l].chain_id by {
                if l == s.len() - 1 {
                    assert(s[k] == olds[k]);
                    assert(olds[k].chain_id != entry.chain_id);
                } else {
                    assert(s[k] == olds[k] && s[l] == olds[l]);
                }
            }
            assert forall|k: int| 0 <= k < s.len()
                implies remote_wf(#[trigger] s[k]) by {
                if k != s.len() - 1 {
                    assert(s[k] == olds[k]);
                }
            }
            assert forall|k: int|
                0 <= k < s.len() && (#[trigger] s[k]).chain_id == entry.chain_id
                    implies s[k] == entry by {
                if k != s.len() - 1 {
                    assert(s[k] == olds[k]);
                    assert(olds[k].chain_id != entry.chain_id);
                }
            }
        }
    }
}

} // verus!
