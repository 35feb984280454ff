use spiral_token::bridge::{
    LOCAL_CHAIN_ID, cross_chain_transfer, initialize_mint, mint_tokens,
    receive_cross_chain_transfer, set_trusted_remote,
};
use spiral_token::errors::ErrorCode;
use spiral_token::nonce::NonceRegistry;
use spiral_token::remote::{TrustedRemote, TrustedRemoteRegistry};
use spiral_token::supply::MintData;

const AUTHORITY: [u8; 32] = [1; 32];
const RELAYER_SENDER: [u8; 32] = [3; 32];
const RECIPIENT: [u8; 32] = [4; 32];
const DEFAULT_ID: [u8; 32] = [0; 32];

fn nonce_from(i: usize) -> [u8; 32] {
    let mut n = [0u8; 32];
    n[0] = (i & 0xff) as u8;
    n[1] = ((i >> 8) & 0xff) as u8;
    n
}

fn ledger(max_supply: u64) -> MintData {
    initialize_mint(8, max_supply, AUTHORITY).unwrap()
}

#[test]
fn mint_then_overmint_then_transfer_out() {
    // initialize with decimals 8 and max supply 1000
    let mut md = ledger(1000);

    // mint 600: supply becomes 600
    let minted = mint_tokens(&mut md, AUTHORITY, RECIPIENT, 600).unwrap();
    assert_eq!(md.current_supply, 600);
    assert_eq!(minted.recipient, RECIPIENT);
    assert_eq!(minted.amount, 600);
    assert_eq!(minted.new_supply, 600);

    // mint 500: refused, supply stays 600
    let r = mint_tokens(&mut md, AUTHORITY, RECIPIENT, 500);
    assert_eq!(r.unwrap_err(), ErrorCode::ExceedsMaxSupply);
    assert_eq!(md.current_supply, 600);

    // burn 600 towards chain 2: supply becomes 0, event carries the transfer
    let ev = cross_chain_transfer(&mut md, AUTHORITY, 2, RECIPIENT, 600, nonce_from(1), 1_700_000_000)
        .unwrap();
    assert_eq!(md.current_supply, 0);
    let info = ev.transfer_info;
    assert_eq!(info.source_chain, LOCAL_CHAIN_ID);
    assert_eq!(info.destination_chain, 2);
    assert_eq!(info.recipient, RECIPIENT);
    assert_eq!(info.amount, 600);
    assert_eq!(info.nonce, nonce_from(1));
    assert_eq!(info.timestamp, 1_700_000_000);
}

#[test]
fn receive_applies_once_and_rejects_replay() {
    // supply 900 of 1000; inbound 100 fills the asset exactly
    let mut md = ledger(1000);
    mint_tokens(&mut md, AUTHORITY, RECIPIENT, 900).unwrap();
    let mut reg = NonceRegistry::new();
    let n = nonce_from(42);

    let ev = receive_cross_chain_transfer(
        &mut md, &mut reg, None, AUTHORITY, 5, RELAYER_SENDER, RECIPIENT, 100, n,
    )
    .unwrap();
    assert_eq!(md.current_supply, 1000);
    assert!(reg.is_nonce_used(n));
    assert_eq!(ev.source_chain, 5);
    assert_eq!(ev.sender, RELAYER_SENDER);
    assert_eq!(ev.recipient, RECIPIENT);
    assert_eq!(ev.amount, 100);
    assert_eq!(ev.nonce, n);

    // the same nonce again: refused, supply stays 1000
    let r = receive_cross_chain_transfer(
        &mut md, &mut reg, None, AUTHORITY, 5, RELAYER_SENDER, RECIPIENT, 100, n,
    );
    assert_eq!(r.unwrap_err(), ErrorCode::NonceAlreadyUsed);
    assert_eq!(md.current_supply, 1000);

    // and refused even with different amount, chain and recipient
    let r = receive_cross_chain_transfer(
        &mut md, &mut reg, None, AUTHORITY, 6, RELAYER_SENDER, [5; 32], 1, n,
    );
    assert_eq!(r.unwrap_err(), ErrorCode::NonceAlreadyUsed);
}

#[test]
fn receive_rolls_back_whole_operation_when_ledger_mint_fails() {
    // The host runs each operation inside a transactional boundary: the
    // token-ledger mint comes after the core commit, and a ledger failure
    // rolls the whole operation back, nonce mark included. Simulate the
    // boundary with a snapshot, fail the ledger mint, and restore.
    let mut md = ledger(1000);
    mint_tokens(&mut md, AUTHORITY, RECIPIENT, 900).unwrap();
    let mut reg = NonceRegistry::new();
    let n = nonce_from(77);

    let md_before = md;
    let reg_before = reg.clone();
    let core = receive_cross_chain_transfer(
        &mut md, &mut reg, None, AUTHORITY, 5, RELAYER_SENDER, RECIPIENT, 100, n,
    );
    assert!(core.is_ok());
    let ledger_mint_failed = true; // injected fault in the external ledger
    if ledger_mint_failed {
        md = md_before;
        reg = reg_before;
    }

    // nothing of the failed operation is observable
    assert_eq!(md.current_supply, 900);
    assert!(!reg.is_nonce_used(n));

    // a retry of the same message is therefore possible and succeeds
    let retry = receive_cross_chain_transfer(
        &mut md, &mut reg, None, AUTHORITY, 5, RELAYER_SENDER, RECIPIENT, 100, n,
    );
    assert!(retry.is_ok());
    assert_eq!(md.current_supply, 1000);
    assert!(reg.is_nonce_used(n));
}

#[test]
fn non_authority_calls_fail_without_state_change() {
    let outsider: [u8; 32] = [9; 32];
    let mut md = ledger(1000);
    mint_tokens(&mut md, AUTHORITY, RECIPIENT, 500).unwrap();
    let mut reg = NonceRegistry::new();
    let mut remotes = TrustedRemoteRegistry::new();

    let r = mint_tokens(&mut md, outsider, RECIPIENT, 10);
    assert_eq!(r.unwrap_err(), ErrorCode::InvalidAuthority);
    assert_eq!(md.current_supply, 500);

    let r = cross_chain_transfer(&mut md, outsider, 2, RECIPIENT, 10, nonce_from(1), 0);
    assert_eq!(r.unwrap_err(), ErrorCode::InvalidAuthority);
    assert_eq!(md.current_supply, 500);

    let r = receive_cross_chain_transfer(
        &mut md, &mut reg, None, outsider, 5, RELAYER_SENDER, RECIPIENT, 10, nonce_from(2),
    );
    assert_eq!(r.unwrap_err(), ErrorCode::InvalidAuthority);
    assert_eq!(md.current_supply, 500);
    assert!(reg.used_nonces.is_empty());

    let r = set_trusted_remote(&md, &mut remotes, outsider, 2, [0xaa; 32], 20);
    assert_eq!(r.unwrap_err(), ErrorCode::InvalidAuthority);
    assert!(remotes.entries.is_empty());
}

#[test]
fn set_trusted_remote_rejects_bad_address_length() {
    let md = ledger(1000);
    let mut remotes = TrustedRemoteRegistry::new();
    for bad in [0u8, 1, 19, 21, 31, 33, 255] {
        let r = set_trusted_remote(&md, &mut remotes, AUTHORITY, 2, [0xaa; 32], bad);
        assert_eq!(r.unwrap_err(), ErrorCode::InvalidRecipient);
        assert!(remotes.entries.is_empty());
    }
    // and an existing entry survives a later malformed update untouched
    set_trusted_remote(&md, &mut remotes, AUTHORITY, 2, [0xaa; 32], 20).unwrap();
    let r = set_trusted_remote(&md, &mut remotes, AUTHORITY, 2, [0xbb; 32], 21);
    assert_eq!(r.unwrap_err(), ErrorCode::InvalidRecipient);
    assert_eq!(remotes.entries.len(), 1);
    assert_eq!(remotes.get(2).unwrap().remote_address, [0xaa; 32]);
    assert_eq!(remotes.get(2).unwrap().address_length, 20);
}

#[test]
fn set_trusted_remote_rejects_zero_chain() {
    let md = ledger(1000);
    let mut remotes = TrustedRemoteRegistry::new();
    let r = set_trusted_remote(&md, &mut remotes, AUTHORITY, 0, [0xaa; 32], 20);
    assert_eq!(r.unwrap_err(), ErrorCode::InvalidChainId);
    assert!(remotes.entries.is_empty());
}

#[test]
fn receive_checks_presented_remote_against_claimed_chain() {
    let mut md = ledger(1000);
    let mut reg = NonceRegistry::new();
    let entry = TrustedRemote { chain_id: 7, remote_address: [0xaa; 32], address_length: 20 };

    // entry for chain 7 presented against a message claiming chain 5: refused
    let r = receive_cross_chain_transfer(
        &mut md, &mut reg, Some(entry), AUTHORITY, 5, RELAYER_SENDER, RECIPIENT, 10, nonce_from(1),
    );
    assert_eq!(r.unwrap_err(), ErrorCode::InvalidChainId);
    assert_eq!(md.current_supply, 0);
    assert!(reg.used_nonces.is_empty());

    // matching chain: accepted
    let r = receive_cross_chain_transfer(
        &mut md, &mut reg, Some(entry), AUTHORITY, 7, RELAYER_SENDER, RECIPIENT, 10, nonce_from(1),
    );
    assert!(r.is_ok());
    assert_eq!(md.current_supply, 10);

    // no entry presented: the chain id alone decides (the documented gap)
    let r = receive_cross_chain_transfer(
        &mut md, &mut reg, None, AUTHORITY, 5, RELAYER_SENDER, RECIPIENT, 10, nonce_from(2),
    );
    assert!(r.is_ok());
    assert_eq!(md.current_supply, 20);
}

#[test]
fn mint_rejects_zero_amount() {
    let mut md = ledger(1000);
    assert_eq!(mint_tokens(&mut md, AUTHORITY, RECIPIENT, 0).unwrap_err(), ErrorCode::InvalidAmount);
    assert_eq!(md.current_supply, 0);
}

#[test]
fn transfer_rejects_malformed_requests() {
    let mut md = ledger(1000);
    mint_tokens(&mut md, AUTHORITY, RECIPIENT, 500).unwrap();

    let r = cross_chain_transfer(&mut md, AUTHORITY, 2, RECIPIENT, 0, nonce_from(1), 0);
    assert_eq!(r.unwrap_err(), ErrorCode::InvalidAmount);

    let r = cross_chain_transfer(&mut md, AUTHORITY, 2, DEFAULT_ID, 10, nonce_from(1), 0);
    assert_eq!(r.unwrap_err(), ErrorCode::InvalidRecipient);

    let r = cross_chain_transfer(&mut md, AUTHORITY, 0, RECIPIENT, 10, nonce_from(1), 0);
    assert_eq!(r.unwrap_err(), ErrorCode::InvalidChainId);

    let r = cross_chain_transfer(&mut md, AUTHORITY, 2, RECIPIENT, 501, nonce_from(1), 0);
    assert_eq!(r.unwrap_err(), ErrorCode::SupplyUnderflow);

    assert_eq!(md.current_supply, 500);
}

#[test]
fn receive_rejects_malformed_requests() {
    let mut md = ledger(1000);
    mint_tokens(&mut md, AUTHORITY, RECIPIENT, 900).unwrap();
    let mut reg = NonceRegistry::new();

    let r = receive_cross_chain_transfer(
        &mut md, &mut reg, None, AUTHORITY, 5, RELAYER_SENDER, RECIPIENT, 0, nonce_from(1),
    );
    assert_eq!(r.unwrap_err(), ErrorCode::InvalidAmount);

    let r = receive_cross_chain_transfer(
        &mut md, &mut reg, None, AUTHORITY, 5, RELAYER_SENDER, DEFAULT_ID, 10, nonce_from(1),
    );
    assert_eq!(r.unwrap_err(), ErrorCode::InvalidRecipient);

    let r = receive_cross_chain_transfer(
        &mut md, &mut reg, None, AUTHORITY, 0, RELAYER_SENDER, RECIPIENT, 10, nonce_from(1),
    );
    assert_eq!(r.unwrap_err(), ErrorCode::InvalidChainId);

    let r = receive_cross_chain_transfer(
        &mut md, &mut reg, None, AUTHORITY, 5, DEFAULT_ID, RECIPIENT, 10, nonce_from(1),
    );
    assert_eq!(r.unwrap_err(), ErrorCode::InvalidSender);

    let r = receive_cross_chain_transfer(
        &mut md, &mut reg, None, AUTHORITY, 5, RELAYER_SENDER, RECIPIENT, 101, nonce_from(1),
    );
    assert_eq!(r.unwrap_err(), ErrorCode::ExceedsMaxSupply);

    assert_eq!(md.current_supply, 900);
    assert!(reg.used_nonces.is_empty());
}

#[test]
fn receive_reports_full_registry() {
    let mut md = ledger(spiral_token::supply::MAX_SUPPLY_CEILING);
    let mut reg = NonceRegistry::new();
    for i in 0..spiral_token::nonce::MAX_NONCES {
        reg.mark_nonce_used(nonce_from(i)).unwrap();
    }
    let fresh = nonce_from(spiral_token::nonce::MAX_NONCES);
    let r = receive_cross_chain_transfer(
        &mut md, &mut reg, None, AUTHORITY, 5, RELAYER_SENDER, RECIPIENT, 10, fresh,
    );
    assert_eq!(r.unwrap_err(), ErrorCode::NonceRegistryFull);
    assert_eq!(md.current_supply, 0);
}

#[test]
fn receive_reports_supply_overflow() {
    let mut md = ledger(spiral_token::supply::MAX_SUPPLY_CEILING);
    mint_tokens(&mut md, AUTHORITY, RECIPIENT, 2).unwrap();
    let mut reg = NonceRegistry::new();
    let r = receive_cross_chain_transfer(
        &mut md, &mut reg, None, AUTHORITY, 5, RELAYER_SENDER, RECIPIENT, u64::MAX, nonce_from(1),
    );
    assert_eq!(r.unwrap_err(), ErrorCode::SupplyOverflow);
    assert_eq!(md.current_supply, 2);
    assert!(reg.used_nonces.is_empty());
}
