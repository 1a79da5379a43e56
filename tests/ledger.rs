use asterizm_client::codec::{serialize_init_message_eth, InitMessage};
use asterizm_client::hash_chain::build_crosschain_hash;
use asterizm_client::ledger::{ClientError, ClientLedger};
use asterizm_client::tables::TransferAccount;

const ACCOUNT: [u8; 32] = [1; 32];
const SIGNER: [u8; 32] = [2; 32];
const REMOTE: [u8; 32] = [3; 32];
const CHAIN: u64 = 56;
const HASH: [u8; 32] = [9; 32];

fn ledger() -> ClientLedger {
    let mut l = ClientLedger::new();
    l.register_trusted_address(&ACCOUNT, &ACCOUNT, CHAIN, &REMOTE).unwrap();
    l.authorize_sender(&ACCOUNT, &ACCOUNT, &SIGNER).unwrap();
    l
}

fn message() -> InitMessage {
    InitMessage {
        src_chain_id: 1,
        src_address: ACCOUNT,
        dst_chain_id: CHAIN,
        dst_address: REMOTE,
        tx_id: 4,
        payload: vec![10, 20, 30],
    }
}

fn fresh() -> TransferAccount {
    TransferAccount { success_receive: false, success_execute: false, bump: 0 }
}

#[test]
fn init_send_twice_is_duplicate() {
    let mut l = ledger();
    let ev = l.init_send(&SIGNER, &ACCOUNT, CHAIN, message()).unwrap();
    let encoded = serialize_init_message_eth(message());
    let id = build_crosschain_hash(&encoded);
    assert_eq!(ev.transfer_hash, id);
    assert_eq!(ev.payload, encoded);
    assert_eq!(ev.dst_chain_id, CHAIN);
    assert_eq!(ev.trusted_address, REMOTE);
    assert_eq!(ev.id, 4);
    assert_eq!(l.outgoing_transfer(&ACCOUNT, &id), Some(fresh()));
    let second = l.init_send(&SIGNER, &ACCOUNT, CHAIN, message());
    assert!(matches!(second, Err(ClientError::DuplicateTransfer)));
}

#[test]
fn init_send_by_unknown_signer() {
    let mut l = ledger();
    let r = l.init_send(&[7; 32], &ACCOUNT, CHAIN, message());
    assert!(matches!(r, Err(ClientError::UnauthorizedSigner)));
}

#[test]
fn init_send_without_trusted_address() {
    let mut l = ledger();
    let r = l.init_send(&SIGNER, &ACCOUNT, CHAIN + 1, message());
    assert!(matches!(r, Err(ClientError::UntrustedSource)));
}

#[test]
fn init_receive_twice_is_replay() {
    let mut l = ledger();
    let ev = l.init_receive(&ACCOUNT, CHAIN, &REMOTE, 11, &HASH).unwrap();
    assert_eq!(ev.src_chain_id, CHAIN);
    assert_eq!(ev.src_address, REMOTE);
    assert_eq!(ev.tx_id, 11);
    assert_eq!(ev.transfer_hash, HASH);
    let r = l.init_receive(&ACCOUNT, CHAIN, &REMOTE, 11, &HASH);
    assert_eq!(r.unwrap_err(), ClientError::ReplayedTransfer);
}

#[test]
fn init_receive_one_byte_off_is_untrusted() {
    let mut l = ledger();
    let mut other = REMOTE;
    other[31] ^= 1;
    let r = l.init_receive(&ACCOUNT, CHAIN, &other, 1, &HASH);
    assert_eq!(r.unwrap_err(), ClientError::UntrustedSource);
    assert_eq!(l.incoming_transfer(&ACCOUNT, &HASH), None);
    l.init_receive(&ACCOUNT, CHAIN, &REMOTE, 1, &HASH).unwrap();
    assert_eq!(l.incoming_transfer(&ACCOUNT, &HASH), Some(fresh()));
    assert_eq!(l.incoming_transfer(&[5; 32], &HASH), None);
    assert_eq!(l.outgoing_transfer(&ACCOUNT, &HASH), None);
}

#[test]
fn init_receive_from_unregistered_chain() {
    let mut l = ledger();
    let r = l.init_receive(&ACCOUNT, CHAIN + 1, &REMOTE, 1, &HASH);
    assert_eq!(r.unwrap_err(), ClientError::UntrustedSource);
}

#[test]
fn mark_executed_is_idempotent() {
    let mut l = ledger();
    l.init_receive(&ACCOUNT, CHAIN, &REMOTE, 1, &HASH).unwrap();
    assert_eq!(l.mark_executed(&ACCOUNT, &HASH), Ok(()));
    let once = l.incoming_transfer(&ACCOUNT, &HASH).unwrap();
    assert!(once.success_execute);
    assert!(!once.success_receive);
    assert_eq!(l.mark_executed(&ACCOUNT, &HASH), Ok(()));
    assert_eq!(l.incoming_transfer(&ACCOUNT, &HASH), Some(once));
}

#[test]
fn mark_executed_unknown() {
    let mut l = ledger();
    assert_eq!(l.mark_executed(&ACCOUNT, &HASH), Err(ClientError::UnknownTransfer));
}

#[test]
fn mark_send_result_sets_receive_flag() {
    let mut l = ledger();
    let ev = l.init_send(&SIGNER, &ACCOUNT, CHAIN, message()).unwrap();
    let id = ev.transfer_hash;
    let res = l.mark_send_result(&ACCOUNT, &id, 0).unwrap();
    assert_eq!(res.dst_address, ACCOUNT);
    assert_eq!(res.transfer_hash, id);
    assert_eq!(res.status_code, 0);
    assert!(l.outgoing_transfer(&ACCOUNT, &id).unwrap().success_receive);
    l.mark_send_result(&ACCOUNT, &id, 3).unwrap();
    assert!(!l.outgoing_transfer(&ACCOUNT, &id).unwrap().success_receive);
}

#[test]
fn mark_send_result_unknown() {
    let mut l = ledger();
    let r = l.mark_send_result(&ACCOUNT, &HASH, 0);
    assert!(matches!(r, Err(ClientError::UnknownTransfer)));
}

#[test]
fn dispatch_checks() {
    let mut l = ledger();
    assert_eq!(l.check_dispatch(&SIGNER, &ACCOUNT, CHAIN, &HASH), Err(ClientError::UnknownTransfer));
    let id = l.init_send(&SIGNER, &ACCOUNT, CHAIN, message()).unwrap().transfer_hash;
    assert_eq!(l.check_dispatch(&SIGNER, &ACCOUNT, CHAIN, &id), Ok(()));
    assert_eq!(l.check_dispatch(&[8; 32], &ACCOUNT, CHAIN, &id), Err(ClientError::UnauthorizedSigner));
    assert_eq!(l.check_dispatch(&SIGNER, &ACCOUNT, CHAIN + 1, &id), Err(ClientError::UntrustedSource));
}

#[test]
fn registry_writes_need_the_account() {
    let mut l = ClientLedger::new();
    assert_eq!(
        l.register_trusted_address(&SIGNER, &ACCOUNT, CHAIN, &REMOTE),
        Err(ClientError::UnauthorizedSigner)
    );
    assert_eq!(l.trusted_address_for(&ACCOUNT, CHAIN), None);
    assert_eq!(l.authorize_sender(&SIGNER, &ACCOUNT, &SIGNER), Err(ClientError::UnauthorizedSigner));
    assert!(!l.is_authorized_sender(&ACCOUNT, &SIGNER));
    l.register_trusted_address(&ACCOUNT, &ACCOUNT, CHAIN, &REMOTE).unwrap();
    assert_eq!(l.trusted_address_for(&ACCOUNT, CHAIN), Some(REMOTE));
    l.register_trusted_address(&ACCOUNT, &ACCOUNT, CHAIN, &[4; 32]).unwrap();
    assert_eq!(l.trusted_address_for(&ACCOUNT, CHAIN), Some([4; 32]));
    l.authorize_sender(&ACCOUNT, &ACCOUNT, &SIGNER).unwrap();
    assert!(l.is_authorized_sender(&ACCOUNT, &SIGNER));
    assert!(!l.is_authorized_sender(&SIGNER, &ACCOUNT));
}

#[test]
fn records_are_per_account() {
    let mut l = ledger();
    let other: [u8; 32] = [6; 32];
    l.register_trusted_address(&other, &other, CHAIN, &REMOTE).unwrap();
    l.init_receive(&ACCOUNT, CHAIN, &REMOTE, 1, &HASH).unwrap();
    assert!(l.init_receive(&other, CHAIN, &REMOTE, 1, &HASH).is_ok());
}
