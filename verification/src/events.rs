use vstd::prelude::*;
use crate::identity::Identity;
use crate::nonce::Nonce;

verus! {

/// The payload of an outbound transfer, as handed to the relay layer. Not
/// persisted: it exists only inside the emitted event.
#[derive(Clone, Copy, Debug)]
pub struct CrossChainTransferInfo {
    /// The local chain the transfer leaves from.
    pub source_chain: u16,
    /// The remote chain the transfer is bound for; never zero.
    pub destination_chain: u16,
    /// Who receives the units on the destination chain.
    pub recipient: Identity,
    /// How many units were burned locally.
    pub amount: u64,
    /// Replay token for the message carrying this transfer.
    pub nonce: Nonce,
    /// Epoch seconds at which the transfer was initiated, as the host
    /// clock reported them.
    pub timestamp: i64,
}

/// Emitted after a successful local mint.
#[derive(Clone, Copy, Debug)]
pub struct TokensMinted {
    /// Who received the freshly minted units.
    pub recipient: Identity,
    /// How many units were minted.
    pub amount: u64,
    /// The current supply after the mint.
    pub new_supply: u64,
}

/// Emitted after a successful outbound transfer, for the relay layer to
/// pick up and deliver.
#[derive(Clone, Copy, Debug)]
pub struct CrossChainTransferInitiated {
    /// The full transfer payload.
    pub transfer_info: CrossChainTransferInfo,
}

/// Emitted after a successful inbound transfer was applied.
#[derive(Clone, Copy, Debug)]
pub struct CrossChainTransferReceived {
    /// The remote chain the message came from.
    pub source_chain: u16,
    /// The sender the message claims on the remote chain.
    pub sender: Identity,
    /// Who received the units locally.
    pub recipient: Identity,
    /// How many units were minted locally.
    pub amount: u64,
    /// The replay token the message carried, now marked used.
    pub nonce: Nonce,
}

} // verus!
