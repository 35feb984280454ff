use vstd::prelude::*;
use crate::errors::ErrorCode;
use crate::identity::{Identity, bytes32_eq};

verus! {

/// Ceiling on `max_supply` accepted at initialization.
pub const MAX_SUPPLY_CEILING: u64 = 1_000_000_000_000_000_000;

/// Largest decimals value accepted at initialization.
pub const MAX_DECIMALS: u8 = 18;

/// One request against the supply ledger: mint so many units, or burn
/// so many.
#[derive(Clone, Copy, Debug)]
pub enum SupplyOp {
    /// Raise the supply by the given amount.
    Mint(u64),
    /// Lower the supply by the given amount.
    Burn(u64),
}

/// The supply ledger of one asset: the single source of truth for its
/// maximum and current supply, its decimals, and the authority that may
/// mint and configure trusted remotes.
#[derive(Clone, Copy, Debug)]
pub struct MintData {
    /// Cap on `current_supply`, immutable after initialization.
    pub max_supply: u64,
    /// Units currently in existence on the local chain.
    pub current_supply: u64,
    /// The one principal permitted to mint and to configure remotes.
    pub authority: Identity,
    /// Display decimals, fixed at initialization.
    pub decimals: u8,
}

impl MintData {
    /// The supply invariant: the current supply never leaves
    /// `0 ..= max_supply`, and the initialization bounds keep holding.
    pub open spec fn wf(self) -> bool {
        &&& self.current_supply <= self.max_supply
        &&& 0 < self.max_supply <= MAX_SUPPLY_CEILING
        &&& self.decimals <= MAX_DECIMALS
    }

    /// What `increase` decides and returns, as a function of the ledger
    /// and the amount.
    pub open spec fn increase_outcome(self, amount: u64) -> Result<u64, ErrorCode> {
        if amount == 0 {
            Err(ErrorCode::InvalidAmount)
        } else if self.current_supply + amount > u64::MAX {
            Err(ErrorCode::SupplyOverflow)
        } else if self.current_supply + amount > self.max_supply {
            Err(ErrorCode::ExceedsMaxSupply)
        } else {
            Ok((self.current_supply + amount) as u64)
        }
    }

    /// What `decrease` decides and returns.
    pub open spec fn decrease_outcome(self, amount: u64) -> Result<u64, ErrorCode> {
        if amount == 0 {
            Err(ErrorCode::InvalidAmount)
        } else if amount > self.current_supply {
            Err(ErrorCode::SupplyUnderflow)
        } else {
            Ok((self.current_supply - amount) as u64)
        }
    }

    /// Raise the current supply by `amount`, refusing a zero amount, an
    /// overflow of the counter, and any rise above `max_supply`. On failure
    /// the ledger is untouched.
    pub fn increase(&mut self, amount: u64) -> (r: Result<u64, ErrorCode>)
        requires
            old(self).wf(),
        ensures
            r == old(self).increase_outcome(amount),
            r matches Ok(ns) ==> {
                &&& final(self).current_supply == old(self).current_supply + amount
                &&& ns == final(self).current_supply
            },
            r is Err ==> *final(self) == *old(self),
            *final(self) == old(self).after_op(SupplyOp::Mint(amount)),
            final(self).max_supply == old(self).max_supply,
            final(self).authority == old(self).authority,
            final(self).decimals == old(self).decimals,
            final(self).wf(),
    {
        if amount == 0 {
            return Err(ErrorCode::InvalidAmount);
        }
        if amount > u64::MAX - self.current_supply {
            return Err(ErrorCode::SupplyOverflow);
        }
        let new_supply = self.current_supply + amount;
        if new_supply > self.max_supply {
            return Err(ErrorCode::ExceedsMaxSupply);
        }
        self.current_supply = new_supply;
        Ok(new_supply)
    }

    /// Lower the current supply by `amount`, refusing a zero amount and any
    /// drop below zero. On failure the ledger is untouched.
    pub fn decrease(&mut self, amount: u64) -> (r: Result<u64, ErrorCode>)
        requires
            old(self).wf(),
        ensures
            r == old(self).decrease_outcome(amount),
            r matches Ok(ns) ==> {
                &&& final(self).current_supply == old(self).current_supply - amount
                &&& ns == final(self).current_supply
            },
            r is Err ==> *final(self) == *old(self),
            *final(self) == old(self).after_op(SupplyOp::Burn(amount)),
            final(self).max_supply == old(self).max_supply,
            final(self).authority == old(self).authority,
            final(self).decimals == old(self).decimals,
            final(self).wf(),
    {
        if amount == 0 {
            return Err(ErrorCode::InvalidAmount);
        }
        if amount > self.current_supply {
            return Err(ErrorCode::SupplyUnderflow);
        }
        let new_supply = self.current_supply - amount;
        self.current_supply = new_supply;
        Ok(new_supply)
    }

    /// The ledger after one request: changed on success, untouched on a
    /// refusal. Mirrors exactly what `increase` and `decrease` do, by
    /// their contracts.
    pub open spec fn after_op(self, op: SupplyOp) -> MintData {
        match op {
            SupplyOp::Mint(amount) => match self.increase_outcome(amount) {
                Ok(ns) => MintData { current_supply: ns, ..self },
                Err(_) => self,
            },
            SupplyOp::Burn(amount) => match self.decrease_outcome(amount) {
                Ok(ns) => MintData { current_supply: ns, ..self },
                Err(_) => self,
            },
        }
    }

    /// The ledger after a whole sequence of requests, applied in order.
    pub open spec fn after_ops(self, ops: Seq<SupplyOp>) -> MintData
        decreases ops.len(),
    {
        if ops.len() == 0 {
            self
        } else {
            self.after_op(ops[0]).after_ops(ops.drop_first())
        }
    }

    /// Gate for privileged operations: succeeds exactly when `caller` is
    /// the configured authority.
    pub fn check_authority(&self, caller: &Identity) -> (r: Result<(), ErrorCode>)
        ensures
            r is Ok <==> caller@ == self.authority@,
            r is Err ==> r == Err::<(), ErrorCode>(ErrorCode::InvalidAuthority),
    {
        if bytes32_eq(caller, &self.authority) {
            Ok(())
        } else {
            Err(ErrorCode::InvalidAuthority)
        }
    }
}

/// The supply invariant over whole histories: however long a sequence of
/// mint and burn requests runs against a well-formed ledger, after every
/// one of its steps the ledger is still well formed and the current supply
/// sits between zero and the unchanged maximum.
pub proof fn lemma_supply_invariant_over_sequences(md: MintData, ops: Seq<SupplyOp>)
    requires
        md.wf(),
    ensures
        forall|k: int|
            0 <= k <= ops.len() ==> {
                &&& (#[trigger] md.after_ops(ops.take(k))).wf()
                &&& md.after_ops(ops.take(k)).current_supply <= md.after_ops(
                    ops.take(k),
                ).max_supply
                &&& md.after_ops(ops.take(k)).max_supply == md.max_supply
            },
    decreases ops.len(),
{
    assert(ops.take(0) =~= Seq::<SupplyOp>::empty());
    if ops.len() > 0 {
        let next = md.after_op(ops[0]);
        lemma_supply_invariant_over_sequences(next, ops.drop_first());
        assert forall|k: int| 1 <= k <= ops.len() implies {
            &&& (#[trigger] md.after_ops(ops.take(k))).wf()
            &&& md.after_ops(ops.take(k)).current_supply <= md.after_ops(ops.take(k)).max_supply
            &&& md.after_ops(ops.take(k)).max_supply == md.max_supply
        } by {
            assert(ops.take(k).drop_first() =~= ops.drop_first().take(k - 1));
            assert(md.after_ops(ops.take(k)) == next.after_ops(ops.drop_first().take(k - 1)));
        }
    }
}

} // verus!
