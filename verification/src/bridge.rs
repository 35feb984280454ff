use vstd::prelude::*;
use crate::errors::ErrorCode;
use crate::identity::{Identity, spec_is_default, is_default_identity};
use crate::supply::MintData;
use crate::nonce::{Nonce, NonceRegistry, registry_contains, MAX_NONCES};
use crate::remote::{TrustedRemote, TrustedRemoteRegistry, has_entry, trusted_mismatch, validate_source};
use crate::events::{
    CrossChainTransferInfo, TokensMinted, CrossChainTransferInitiated, CrossChainTransferReceived,
};

verus! {

/// Chain id under which this deployment announces itself in outbound
/// transfers.
pub const LOCAL_CHAIN_ID: u16 = 102;

/// What `initialize_mint` decides and returns.
pub open spec fn initialize_outcome(
    decimals: u8,
    max_supply: u64,
    authority: Identity,
) -> Result<MintData, ErrorCode> {
    if decimals > crate::supply::MAX_DECIMALS {
        Err(ErrorCode::InvalidDecimals)
    } else if max_supply == 0 || max_supply > crate::supply::MAX_SUPPLY_CEILING {
        Err(ErrorCode::InvalidMaxSupply)
    } else {
        Ok(MintData { max_supply, current_supply: 0, authority, decimals })
    }
}

/// Create the supply ledger of a fresh asset. The host's token ledger is
/// asked separately, by the caller, to provision the asset itself; this
/// core only owns the accounting record.
pub fn initialize_mint(decimals: u8, max_supply: u64, authority: Identity) -> (r: Result<
    MintData,
    ErrorCode,
>)
    ensures
        r == initialize_outcome(decimals, max_supply, authority),
        r matches Ok(md) ==> md.wf() && md.current_supply == 0 && md.max_supply == max_supply
            && md.authority == authority && md.decimals == decimals,
{
    if decimals > crate::supply::MAX_DECIMALS {
        return Err(ErrorCode::InvalidDecimals);
    }
    if max_supply == 0 {
        return Err(ErrorCode::InvalidMaxSupply);
    }
    if max_supply > crate::supply::MAX_SUPPLY_CEILING {
        return Err(ErrorCode::InvalidMaxSupply);
    }
    Ok(MintData { max_supply, current_supply: 0, authority, decimals })
}

/// What `mint_tokens` decides and returns.
pub open spec fn mint_outcome(
    md: MintData,
    caller: Identity,
    recipient: Identity,
    amount: u64,
) -> Result<TokensMinted, ErrorCode> {
    if amount == 0 {
        Err(ErrorCode::InvalidAmount)
    } else if caller@ != md.authority@ {
        Err(ErrorCode::InvalidAuthority)
    } else {
        match md.increase_outcome(amount) {
            Ok(ns) => Ok(TokensMinted { recipient, amount, new_supply: ns }),
            Err(e) => Err(e),
        }
    }
}

/// Local mint: only the authority may create units, and never past
/// `max_supply`. On success the caller owes the token ledger a mint of
/// `amount` to `recipient` and owes the returned event to the log; on
/// failure nothing changed and nothing is owed.
pub fn mint_tokens(
    mint_data: &mut MintData,
    caller: Identity,
    recipient: Identity,
    amount: u64,
) -> (r: Result<TokensMinted, ErrorCode>)
    requires
        old(mint_data).wf(),
    ensures
        r == mint_outcome(*old(mint_data), caller, recipient, amount),
        r is Ok ==> final(mint_data).current_supply == old(mint_data).current_supply + amount,
        r is Err ==> *final(mint_data) == *old(mint_data),
        final(mint_data).max_supply == old(mint_data).max_supply,
        final(mint_data).authority == old(mint_data).authority,
        final(mint_data).decimals == old(mint_data).decimals,
        final(mint_data).wf(),
{
    if amount == 0 {
        return Err(ErrorCode::InvalidAmount);
    }
    match mint_data.check_authority(&caller) {
        Err(e) => {
            return Err(e);
        },
        Ok(()) => {},
    }
    match mint_data.increase(amount) {
        Err(e) => Err(e),
        Ok(ns) => Ok(TokensMinted { recipient, amount, new_supply: ns }),
    }
}

/// What `cross_chain_transfer` decides and returns.
pub open spec fn transfer_outcome(
    md: MintData,
    caller: Identity,
    destination_chain: u16,
    recipient: Identity,
    amount: u64,
    nonce: Nonce,
    timestamp: i64,
) -> Result<CrossChainTransferInitiated, ErrorCode> {
    if amount == 0 {
        Err(ErrorCode::InvalidAmount)
    } else if spec_is_default(recipient) {
        Err(ErrorCode::InvalidRecipient)
    } else if destination_chain == 0 {
        Err(ErrorCode::InvalidChainId)
    } else if caller@ != md.authority@ {
        Err(ErrorCode::InvalidAuthority)
    } else {
        match md.decrease_outcome(amount) {
            Ok(_) => Ok(
                CrossChainTransferInitiated {
                    transfer_info: CrossChainTransferInfo {
                        source_chain: LOCAL_CHAIN_ID,
                        destination_chain,
                        recipient,
                        amount,
                        nonce,
                        timestamp,
                    },
                },
            ),
            Err(e) => Err(e),
        }
    }
}

/// Outbound transfer: burn locally, announce remotely. On success the
/// caller owes the token ledger a burn of `amount` from the sender and owes
/// the returned event to the relay layer; `timestamp` is the host clock's
/// reading, recorded untouched in the event. On failure nothing changed.
pub fn cross_chain_transfer(
    mint_data: &mut MintData,
    caller: Identity,
    destination_chain: u16,
    recipient: Identity,
    amount: u64,
    nonce: Nonce,
    timestamp: i64,
) -> (r: Result<CrossChainTransferInitiated, ErrorCode>)
    requires
        old(mint_data).wf(),
    ensures
        r == transfer_outcome(
            *old(mint_data),
            caller,
            destination_chain,
            recipient,
            amount,
            nonce,
            timestamp,
        ),
        r is Ok ==> final(mint_data).current_supply == old(mint_data).current_supply - amount,
        r is Err ==> *final(mint_data) == *old(mint_data),
        final(mint_data).max_supply == old(mint_data).max_supply,
        final(mint_data).authority == old(mint_data).authority,
        final(mint_data).decimals == old(mint_data).decimals,
        final(mint_data).wf(),
{
    if amount == 0 {
        return Err(ErrorCode::InvalidAmount);
    }
    if is_default_identity(&recipient) {
        return Err(ErrorCode::InvalidRecipient);
    }
    if destination_chain == 0 {
        return Err(ErrorCode::InvalidChainId);
    }
    match mint_data.check_authority(&caller) {
        Err(e) => {
            return Err(e);
        },
        Ok(()) => {},
    }
    match mint_data.decrease(amount) {
        Err(e) => Err(e),
        Ok(_) => Ok(
            CrossChainTransferInitiated {
                transfer_info: CrossChainTransferInfo {
                    source_chain: LOCAL_CHAIN_ID,
                    destination_chain,
                    recipient,
                    amount,
                    nonce,
                    timestamp,
                },
            },
        ),
    }
}

/// What `set_trusted_remote` decides and returns.
pub open spec fn set_remote_outcome(
    md: MintData,
    caller: Identity,
    chain_id: u16,
    address_length: u8,
) -> Result<(), ErrorCode> {
    if chain_id == 0 {
        Err(ErrorCode::InvalidChainId)
    } else if !(address_length == 20 || address_length == 32) {
        Err(ErrorCode::InvalidRecipient)
    } else if caller@ != md.authority@ {
        Err(ErrorCode::InvalidAuthority)
    } else {
        Ok(())
    }
}

/// Configure the authorized sender for one remote chain: create the entry
/// or replace it, leaving every other chain's entry untouched. Only the
/// authority may configure; a malformed address width or a zero chain id
/// leaves the registry exactly as it was.
pub fn set_trusted_remote(
    mint_data: &MintData,
    registry: &mut TrustedRemoteRegistry,
    caller: Identity,
    chain_id: u16,
    remote_address: [u8; 32],
    address_length: u8,
) -> (r: Result<(), ErrorCode>)
    requires
        old(registry).wf(),
    ensures
        r == set_remote_outcome(*mint_data, caller, chain_id, address_length),
        final(registry).wf(),
        r is Err ==> *final(registry) == *old(registry),
        r is Ok ==> has_entry(final(registry).entries@, chain_id),
        r is Ok ==> forall|i: int|
            0 <= i < final(registry).entries@.len()
                && (#[trigger] final(registry).entries@[i]).chain_id == chain_id
                ==> final(registry).entries@[i]
                == (TrustedRemote { chain_id, remote_address, address_length }),
        r is Ok ==> if has_entry(old(registry).entries@, chain_id) {
            &&& final(registry).entries@.len() == old(registry).entries@.len()
            &&& forall|i: int|
                0 <= i < old(registry).entries@.len()
                    && (#[trigger] old(registry).entries@[i]).chain_id != chain_id
                    ==> final(registry).entries@[i] == old(registry).entries@[i]
        } else {
            final(registry).entries@ == old(registry).entries@.push(
                (TrustedRemote { chain_id, remote_address, address_length }),
            )
        },
{
    if chain_id == 0 {
        return Err(ErrorCode::InvalidChainId);
    }
    if !(address_length == 20 || address_length == 32) {
        return Err(ErrorCode::InvalidRecipient);
    }
    match mint_data.check_authority(&caller) {
        Err(e) => {
            return Err(e);
        },
        Ok(()) => {},
    }
    registry.upsert(TrustedRemote { chain_id, remote_address, address_length });
    Ok(())
}

/// What `receive_cross_chain_transfer` decides and returns.
pub open spec fn receive_outcome(
    md: MintData,
    reg: NonceRegistry,
    tr: Option<TrustedRemote>,
    caller: Identity,
    source_chain: u16,
    sender: Identity,
    recipient: Identity,
    amount: u64,
    nonce: Nonce,
) -> Result<CrossChainTransferReceived, ErrorCode> {
    if amount == 0 {
        Err(ErrorCode::InvalidAmount)
    } else if spec_is_default(recipient) {
        Err(ErrorCode::InvalidRecipient)
    } else if source_chain == 0 {
        Err(ErrorCode::InvalidChainId)
    } else if spec_is_default(sender) {
        Err(ErrorCode::InvalidSender)
    } else if caller@ != md.authority@ {
        Err(ErrorCode::InvalidAuthority)
    } else if trusted_mismatch(tr, source_chain) {
        Err(ErrorCode::InvalidChainId)
    } else {
        match reg.mark_outcome(nonce) {
            Err(e) => Err(e),
            Ok(()) => match md.increase_outcome(amount) {
                Err(e) => Err(e),
                Ok(_) => Ok(
                    CrossChainTransferReceived { source_chain, sender, recipient, amount, nonce },
                ),
            },
        }
    }
}

/// Inbound transfer: apply a message from a remote chain exactly once.
/// Only the configured relayer authority may deliver; the nonce is recorded
/// strictly before any unit exists, so a replay finds it and is refused. On
/// success the caller owes the token ledger a mint of `amount` to
/// `recipient` and owes the returned event to the log. On any failure
/// neither the ledger record nor the nonce registry has moved; a host
/// whose token-ledger mint then fails must likewise roll the whole
/// operation back, nonce mark included, before it becomes observable.
pub fn receive_cross_chain_transfer(
    mint_data: &mut MintData,
    nonce_registry: &mut NonceRegistry,
    trusted_remote: Option<TrustedRemote>,
    caller: Identity,
    source_chain: u16,
    sender: Identity,
    recipient: Identity,
    amount: u64,
    nonce: Nonce,
) -> (r: Result<CrossChainTransferReceived, ErrorCode>)
    requires
        old(mint_data).wf(),
        old(nonce_registry).wf(),
    ensures
        r == receive_outcome(
            *old(mint_data),
            *old(nonce_registry),
            trusted_remote,
            caller,
            source_chain,
            sender,
            recipient,
            amount,
            nonce,
        ),
        r is Ok ==> final(mint_data).current_supply == old(mint_data).current_supply + amount,
        r is Ok ==> final(nonce_registry).used_nonces@ == old(
            nonce_registry,
        ).used_nonces@.push(nonce),
        r is Ok ==> registry_contains(final(nonce_registry).used_nonces@, nonce),
        r is Err ==> *final(mint_data) == *old(mint_data),
        r is Err ==> *final(nonce_registry) == *old(nonce_registry),
        final(mint_data).max_supply == old(mint_data).max_supply,
        final(mint_data).authority == old(mint_data).authority,
        final(mint_data).decimals == old(mint_data).decimals,
        final(mint_data).wf(),
        final(nonce_registry).wf(),
        forall|n: Nonce|
            registry_contains(old(nonce_registry).used_nonces@, n) ==> registry_contains(
                final(nonce_registry).used_nonces@,
                n,
            ),
{
    if amount == 0 {
        return Err(ErrorCode::InvalidAmount);
    }
    if is_default_identity(&recipient) {
        return Err(ErrorCode::InvalidRecipient);
    }
    if source_chain == 0 {
        return Err(ErrorCode::InvalidChainId);
    }
    if is_default_identity(&sender) {
        return Err(ErrorCode::InvalidSender);
    }
    match mint_data.check_authority(&caller) {
        Err(e) => {
            return Err(e);
        },
        Ok(()) => {},
    }
    if !validate_source(trusted_remote, source_chain) {
        return Err(ErrorCode::InvalidChainId);
    }
    if nonce_registry.is_nonce_used(nonce) {
        return Err(ErrorCode::NonceAlreadyUsed);
    }
    if nonce_registry.used_nonces.len() >= MAX_NONCES {
        return Err(ErrorCode::NonceRegistryFull);
    }
    if amount > u64::MAX - mint_data.current_supply {
        return Err(ErrorCode::SupplyOverflow);
    }
    if mint_data.current_supply + amount > mint_data.max_supply {
        return Err(ErrorCode::ExceedsMaxSupply);
    }
    // every check has passed: commit, the nonce strictly first
    match nonce_registry.mark_nonce_used(nonce) {
        Err(e) => {
            return Err(e);
        },
        Ok(()) => {},
    }
    match mint_data.increase(amount) {
        Err(e) => {
            return Err(e);
        },
        Ok(_) => {},
    }
    Ok(CrossChainTransferReceived { source_chain, sender, recipient, amount, nonce })
}

/// The checks of an inbound transfer that come before replay protection
/// all pass: the message is well formed, the caller is the authority, and
/// the presented trusted remote (if any) speaks for the claimed chain.
pub open spec fn receive_validation_passes(
    md: MintData,
    tr: Option<TrustedRemote>,
    caller: Identity,
    source_chain: u16,
    sender: Identity,
    recipient: Identity,
    amount: u64,
) -> bool {
    &&& amount != 0
    &&& !spec_is_default(recipient)
    &&& source_chain != 0
    &&& !spec_is_default(sender)
    &&& caller@ == md.authority@
    &&& !trusted_mismatch(tr, source_chain)
}

/// A nonce is applied at most once. A successful inbound transfer is
/// possible only while its nonce is unrecorded, and it leaves the nonce
/// recorded; since the registry never forgets, any later inbound transfer
/// carrying the same nonce — against any ledger, registry state holding
/// that nonce, presented remote and arguments whose earlier validations
/// pass — fails with NonceAlreadyUsed.
pub proof fn lemma_receive_at_most_once(
    md1: MintData,
    reg1: NonceRegistry,
    tr1: Option<TrustedRemote>,
    caller1: Identity,
    source_chain1: u16,
    sender1: Identity,
    recipient1: Identity,
    amount1: u64,
    md2: MintData,
    reg2: NonceRegistry,
    tr2: Option<TrustedRemote>,
    caller2: Identity,
    source_chain2: u16,
    sender2: Identity,
    recipient2: Identity,
    amount2: u64,
    nonce: Nonce,
)
    requires
        receive_outcome(
            md1,
            reg1,
            tr1,
            caller1,
            source_chain1,
            sender1,
            recipient1,
            amount1,
            nonce,
        ) is Ok,
        registry_contains(reg2.used_nonces@, nonce),
        receive_validation_passes(md2, tr2, caller2, source_chain2, sender2, recipient2, amount2),
    ensures
        !registry_contains(reg1.used_nonces@, nonce),
        receive_outcome(
            md2,
            reg2,
            tr2,
            caller2,
            source_chain2,
            sender2,
            recipient2,
            amount2,
            nonce,
        ) == Err::<CrossChainTransferReceived, ErrorCode>(ErrorCode::NonceAlreadyUsed),
{
}

/// Every privileged entry point turns away a caller who is not the
/// configured authority, with InvalidAuthority, whenever the validations
/// ahead of the authority check pass — and, by the operations' own
/// contracts, an error commits no state change at all.
pub proof fn lemma_non_authority_rejected(
    md: MintData,
    reg: NonceRegistry,
    tr: Option<TrustedRemote>,
    caller: Identity,
    destination_chain: u16,
    source_chain: u16,
    sender: Identity,
    recipient: Identity,
    amount: u64,
    nonce: Nonce,
    timestamp: i64,
)
    requires
        caller@ != md.authority@,
        amount != 0,
        !spec_is_default(recipient),
        !spec_is_default(sender),
        destination_chain != 0,
        source_chain != 0,
    ensures
        mint_outcome(md, caller, recipient, amount) == Err::<TokensMinted, ErrorCode>(
            ErrorCode::InvalidAuthority,
        ),
        transfer_outcome(md, caller, destination_chain, recipient, amount, nonce, timestamp)
            == Err::<CrossChainTransferInitiated, ErrorCode>(ErrorCode::InvalidAuthority),
        receive_outcome(md, reg, tr, caller, source_chain, sender, recipient, amount, nonce)
            == Err::<CrossChainTransferReceived, ErrorCode>(ErrorCode::InvalidAuthority),
{
}

/// A remote address width other than 20 or 32 bytes is turned away with
/// InvalidRecipient — and, by `set_trusted_remote`'s own contract, the
/// registry entry is neither created nor modified.
pub proof fn lemma_bad_address_length_rejected(
    md: MintData,
    caller: Identity,
    chain_id: u16,
    address_length: u8,
)
    requires
        chain_id != 0,
        address_length != 20,
        address_length != 32,
    ensures
        set_remote_outcome(md, caller, chain_id, address_length) == Err::<(), ErrorCode>(
            ErrorCode::InvalidRecipient,
        ),
{
}

} // verus!
