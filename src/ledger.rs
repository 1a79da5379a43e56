//! The transfer ledger: outgoing and incoming transfer records, each created
//! at most once per account and identifier, and the trust and sender
//! registries that gate their creation.
use vstd::prelude::*;
use crate::codec::{encoding, serialize_init_message_eth, InitMessage, HEADER_LEN};
use crate::hash_chain::{build_crosschain_hash, crosschain_hash};
use crate::tables::{
    same_bytes, SenderKey, SenderTable, TransferAccount, TransferKey, TransferTable, TrustKey,
    TrustedTable,
};

verus! {

/// Why a ledger operation was refused. A refused operation changes nothing.
#[derive(Debug, Clone, Copy, PartialEq, Eq, Structural)]
pub enum ClientError {
    /// An outgoing record for this identifier exists already.
    DuplicateTransfer,
    /// An incoming record for this identifier exists already.
    ReplayedTransfer,
    /// The remote address is not the one trusted for the account and chain.
    UntrustedSource,
    /// The signer may not act for the account.
    UnauthorizedSigner,
    /// No record exists for this identifier.
    UnknownTransfer,
}

/// Emitted when an outgoing transfer is recorded.
#[derive(Debug, Clone)]
pub struct InitiateTransferEvent {
    pub dst_chain_id: u64,
    pub trusted_address: [u8; 32],
    pub id: u32,
    pub transfer_hash: [u8; 32],
    pub payload: Vec<u8>,
}

/// Emitted when an incoming transfer is recorded.
#[derive(Debug, Clone, Copy)]
pub struct PayloadReceivedEvent {
    pub src_chain_id: u64,
    pub src_address: [u8; 32],
    pub tx_id: u32,
    pub transfer_hash: [u8; 32],
}

/// Emitted when the relay reports the fate of an outgoing transfer.
#[derive(Debug, Clone, Copy)]
pub struct TransferSendingResultEvent {
    pub dst_address: [u8; 32],
    pub transfer_hash: [u8; 32],
    pub status_code: u8,
}

/// The status code with which the relay reports a delivered transfer.
pub const STATUS_SUCCESS: u8 = 0;

/// The ledger as plain values.
pub struct LedgerModel {
    /// Trusted remote address per (local account, remote chain id).
    pub trusted: Map<TrustKey, Seq<u8>>,
    /// Pairs (local account, signer) where the signer may send for the account.
    pub senders: Set<SenderKey>,
    /// Outgoing records per (local account, identifier).
    pub outgoing: Map<TransferKey, TransferAccount>,
    /// Incoming records per (local account, identifier).
    pub incoming: Map<TransferKey, TransferAccount>,
}

/// Why an outgoing transfer cannot be recorded, if it cannot.
pub open spec fn send_refusal(
    m: LedgerModel,
    signer: Seq<u8>,
    account: Seq<u8>,
    chain_id: u64,
    transfer_hash: Seq<u8>,
) -> Option<ClientError> {
    if !m.senders.contains((account, signer)) {
        Some(ClientError::UnauthorizedSigner)
    } else if !m.trusted.contains_key((account, chain_id)) {
        Some(ClientError::UntrustedSource)
    } else if m.outgoing.contains_key((account, transfer_hash)) {
        Some(ClientError::DuplicateTransfer)
    } else {
        None
    }
}

/// Why an incoming transfer cannot be recorded, if it cannot.
pub open spec fn receive_refusal(
    m: LedgerModel,
    account: Seq<u8>,
    chain_id: u64,
    remote_address: Seq<u8>,
    transfer_hash: Seq<u8>,
) -> Option<ClientError> {
    if !m.trusted.contains_key((account, chain_id)) || m.trusted[(account, chain_id)]
        != remote_address {
        Some(ClientError::UntrustedSource)
    } else if m.incoming.contains_key((account, transfer_hash)) {
        Some(ClientError::ReplayedTransfer)
    } else {
        None
    }
}

/// Why a recorded outgoing transfer cannot be handed to the relay, if it cannot.
pub open spec fn dispatch_refusal(
    m: LedgerModel,
    signer: Seq<u8>,
    account: Seq<u8>,
    chain_id: u64,
    transfer_hash: Seq<u8>,
) -> Option<ClientError> {
    if !m.senders.contains((account, signer)) {
        Some(ClientError::UnauthorizedSigner)
    } else if !m.trusted.contains_key((account, chain_id)) {
        Some(ClientError::UntrustedSource)
    } else if !m.outgoing.contains_key((account, transfer_hash)) {
        Some(ClientError::UnknownTransfer)
    } else {
        None
    }
}

/// The ledger with a fresh outgoing record.
pub open spec fn with_outgoing(m: LedgerModel, account: Seq<u8>, transfer_hash: Seq<u8>) -> LedgerModel {
    LedgerModel {
        outgoing: m.outgoing.insert((account, transfer_hash), TransferAccount::fresh()),
        ..m
    }
}

/// The ledger with a fresh incoming record.
pub open spec fn with_incoming(m: LedgerModel, account: Seq<u8>, transfer_hash: Seq<u8>) -> LedgerModel {
    LedgerModel {
        incoming: m.incoming.insert((account, transfer_hash), TransferAccount::fresh()),
        ..m
    }
}

/// The ledger with an incoming record marked executed.
pub open spec fn executed(m: LedgerModel, account: Seq<u8>, transfer_hash: Seq<u8>) -> LedgerModel {
    let k = (account, transfer_hash);
    LedgerModel {
        incoming: m.incoming.insert(k, TransferAccount { success_execute: true, ..m.incoming[k] }),
        ..m
    }
}

/// The ledger with the relay's report on an outgoing record.
pub open spec fn send_reported(
    m: LedgerModel,
    account: Seq<u8>,
    transfer_hash: Seq<u8>,
    status_code: u8,
) -> LedgerModel {
    let k = (account, transfer_hash);
    LedgerModel {
        outgoing: m.outgoing.insert(
            k,
            TransferAccount { success_receive: status_code == STATUS_SUCCESS, ..m.outgoing[k] },
        ),
        ..m
    }
}

/// The records and registries of one client program.
pub struct ClientLedger {
    trusted: TrustedTable,
    senders: SenderTable,
    outgoing: TransferTable,
    incoming: TransferTable,
}

impl View for ClientLedger {
    type V = LedgerModel;

    closed spec fn view(&self) -> LedgerModel {
        LedgerModel {
            trusted: self.trusted@,
            senders: self.senders@,
            outgoing: self.outgoing@,
            incoming: self.incoming@,
        }
    }
}

impl ClientLedger {
    /// Every table is well formed.
    pub closed spec fn wf(&self) -> bool {
        self.trusted.wf() && self.outgoing.wf() && self.incoming.wf()
    }

    /// An empty ledger.
    pub fn new() -> (r: ClientLedger)
        ensures
            r.wf(),
            r@.trusted == Map::<TrustKey, Seq<u8>>::empty(),
            r@.senders == Set::<SenderKey>::empty(),
            r@.outgoing == Map::<TransferKey, TransferAccount>::empty(),
            r@.incoming == Map::<TransferKey, TransferAccount>::empty(),
    {
        ClientLedger {
            trusted: TrustedTable::new(),
            senders: SenderTable::new(),
            outgoing: TransferTable::new(),
            incoming: TransferTable::new(),
        }
    }

    /// The remote address trusted for `account` on `chain_id`, if any.
    pub fn trusted_address_for(&self, account: &[u8; 32], chain_id: u64) -> (r: Option<[u8; 32]>)
        requires
            self.wf(),
        ensures
            r is Some == self@.trusted.contains_key((account@, chain_id)),
            r matches Some(a) ==> a@ == self@.trusted[(account@, chain_id)],
    {
        self.trusted.get(account, chain_id)
    }

    /// Whether `signer` may send on behalf of `account`.
    pub fn is_authorized_sender(&self, account: &[u8; 32], signer: &[u8; 32]) -> (r: bool)
        ensures
            r == self@.senders.contains((account@, signer@)),
    {
        self.senders.contains(account, signer)
    }

    /// The outgoing record of `account` for `transfer_hash`, if any.
    pub fn outgoing_transfer(&self, account: &[u8; 32], transfer_hash: &[u8; 32]) -> (r: Option<
        TransferAccount,
    >)
        requires
            self.wf(),
        ensures
            r == (if self@.outgoing.contains_key((account@, transfer_hash@)) {
                Some(self@.outgoing[(account@, transfer_hash@)])
            } else {
                None
            }),
    {
        self.outgoing.get(account, transfer_hash)
    }

    /// The incoming record of `account` for `transfer_hash`, if any.
    pub fn incoming_transfer(&self, account: &[u8; 32], transfer_hash: &[u8; 32]) -> (r: Option<
        TransferAccount,
    >)
        requires
            self.wf(),
        ensures
            r == (if self@.incoming.contains_key((account@, transfer_hash@)) {
                Some(self@.incoming[(account@, transfer_hash@)])
            } else {
                None
            }),
    {
        self.incoming.get(account, transfer_hash)
    }

    /// Trusts `address` as the one source on `chain_id` for `account`. Only
    /// the account itself may do so.
    pub fn register_trusted_address(
        &mut self,
        authority: &[u8; 32],
        account: &[u8; 32],
        chain_id: u64,
        address: &[u8; 32],
    ) -> (r: Result<(), ClientError>)
        requires
            old(self).wf(),
        ensures
            final(self).wf(),
            authority@ != account@ ==> r == Err::<(), ClientError>(ClientError::UnauthorizedSigner)
                && final(self)@ == old(self)@,
            authority@ == account@ ==> r is Ok && final(self)@ == (LedgerModel {
                trusted: old(self)@.trusted.insert((account@, chain_id), address@),
                ..old(self)@
            }),
    {
        if !same_bytes(authority, account) {
            return Err(ClientError::UnauthorizedSigner);
        }
        self.trusted.set(account, chain_id, address);
        Ok(())
    }

    /// Lets `signer` send on behalf of `account`. Only the account itself may
    /// do so.
    pub fn authorize_sender(&mut self, authority: &[u8; 32], account: &[u8; 32], signer: &[u8; 32]) -> (r:
        Result<(), ClientError>)
        requires
            old(self).wf(),
        ensures
            final(self).wf(),
            authority@ != account@ ==> r == Err::<(), ClientError>(ClientError::UnauthorizedSigner)
                && final(self)@ == old(self)@,
            authority@ == account@ ==> r is Ok && final(self)@ == (LedgerModel {
                senders: old(self)@.senders.insert((account@, signer@)),
                ..old(self)@
            }),
    {
        if !same_bytes(authority, account) {
            return Err(ClientError::UnauthorizedSigner);
        }
        self.senders.insert(account, signer);
        Ok(())
    }

    /// Records an outgoing transfer whose encoding and identifier are given:
    /// checks the signer, the trusted address for the chain, and that no
    /// outgoing record of the account has this identifier yet.
    pub fn init_send_identified(
        &mut self,
        signer: &[u8; 32],
        account: &[u8; 32],
        chain_id: u64,
        tx_id: u32,
        encoded: Vec<u8>,
        transfer_hash: [u8; 32],
    ) -> (r: Result<InitiateTransferEvent, ClientError>)
        requires
            old(self).wf(),
        ensures
            final(self).wf(),
            match send_refusal(old(self)@, signer@, account@, chain_id, transfer_hash@) {
                Some(e) => r matches Err(x) && x == e && final(self)@ == old(self)@,
                None => r matches Ok(ev) && final(self)@ == with_outgoing(
                    old(self)@,
                    account@,
                    transfer_hash@,
                ) && ev.dst_chain_id == chain_id && ev.trusted_address@ == old(self)@.trusted[(account@, chain_id)] && ev.id == tx_id && ev.transfer_hash
                    == transfer_hash && ev.payload@ == encoded@,
            },
    {
        if !self.senders.contains(account, signer) {
            return Err(ClientError::UnauthorizedSigner);
        }
        let trusted_address = match self.trusted.get(account, chain_id) {
            Some(a) => a,
            None => {
                return Err(ClientError::UntrustedSource);
            },
        };
        if !self.outgoing.create(account, &transfer_hash) {
            return Err(ClientError::DuplicateTransfer);
        }
        Ok(InitiateTransferEvent {
            dst_chain_id: chain_id,
            trusted_address,
            id: tx_id,
            transfer_hash,
            payload: encoded,
        })
    }

    /// Records an outgoing transfer of `message` on behalf of `account`: the
    /// message is encoded, its identifier computed, and a fresh outgoing record
    /// created under it. Refused, with nothing changed, where the signer may not
    /// send for the account, no address is trusted for the chain, or the
    /// identifier was sent before.
    pub fn init_send(
        &mut self,
        signer: &[u8; 32],
        account: &[u8; 32],
        chain_id: u64,
        message: InitMessage,
    ) -> (r: Result<InitiateTransferEvent, ClientError>)
        requires
            old(self).wf(),
            message.payload@.len() <= u32::MAX,
        ensures
            final(self).wf(),
            ({
                let id = crosschain_hash(encoding(message));
                match send_refusal(old(self)@, signer@, account@, chain_id, id) {
                    Some(e) => r matches Err(x) && x == e && final(self)@ == old(self)@,
                    None => r matches Ok(ev) && final(self)@ == with_outgoing(
                        old(self)@,
                        account@,
                        id,
                    ) && ev.dst_chain_id == chain_id && ev.trusted_address@ == old(self)@.trusted[(account@, chain_id)] && ev.id == message.tx_id && ev.transfer_hash@
                        == id && ev.payload@ == encoding(message),
                }
            }),
    {
        let tx_id = message.tx_id;
        let encoded = serialize_init_message_eth(message);
        proof {
            assert(encoded@.len() >= HEADER_LEN);
        }
        let transfer_hash = build_crosschain_hash(encoded.as_slice());
        self.init_send_identified(signer, account, chain_id, tx_id, encoded, transfer_hash)
    }

    /// Records an incoming transfer for `account`: `remote_address` must be the
    /// address trusted on `chain_id`, and no incoming record of the account may
    /// have this identifier yet.
    pub fn init_receive(
        &mut self,
        account: &[u8; 32],
        chain_id: u64,
        remote_address: &[u8; 32],
        tx_id: u32,
        transfer_hash: &[u8; 32],
    ) -> (r: Result<PayloadReceivedEvent, ClientError>)
        requires
            old(self).wf(),
        ensures
            final(self).wf(),
            match receive_refusal(old(self)@, account@, chain_id, remote_address@, transfer_hash@) {
                Some(e) => r matches Err(x) && x == e && final(self)@ == old(self)@,
                None => r matches Ok(ev) && final(self)@ == with_incoming(
                    old(self)@,
                    account@,
                    transfer_hash@,
                ) && ev.src_chain_id == chain_id && ev.src_address == *remote_address && ev.tx_id
                    == tx_id && ev.transfer_hash == *transfer_hash,
            },
    {
        match self.trusted.get(account, chain_id) {
            Some(a) => {
                if !same_bytes(&a, remote_address) {
                    return Err(ClientError::UntrustedSource);
                }
            },
            None => {
                return Err(ClientError::UntrustedSource);
            },
        }
        if !self.incoming.create(account, transfer_hash) {
            return Err(ClientError::ReplayedTransfer);
        }
        Ok(PayloadReceivedEvent {
            src_chain_id: chain_id,
            src_address: *remote_address,
            tx_id,
            transfer_hash: *transfer_hash,
        })
    }

    /// Marks the incoming transfer of `account` with this identifier executed.
    /// Marking it again changes nothing and succeeds.
    pub fn mark_executed(&mut self, account: &[u8; 32], transfer_hash: &[u8; 32]) -> (r: Result<
        (),
        ClientError,
    >)
        requires
            old(self).wf(),
        ensures
            final(self).wf(),
            !old(self)@.incoming.contains_key((account@, transfer_hash@)) ==> r == Err::<
                (),
                ClientError,
            >(ClientError::UnknownTransfer) && final(self)@ == old(self)@,
            old(self)@.incoming.contains_key((account@, transfer_hash@)) ==> r is Ok && final(self)@ == executed(old(self)@, account@, transfer_hash@),
    {
        match self.incoming.get(account, transfer_hash) {
            Some(rec) => {
                let updated = TransferAccount { success_execute: true, ..rec };
                self.incoming.set(account, transfer_hash, updated);
                Ok(())
            },
            None => Err(ClientError::UnknownTransfer),
        }
    }

    /// Records the relay's report on the outgoing transfer of `account` with
    /// this identifier: it was received where `status_code` is
    /// [`STATUS_SUCCESS`].
    pub fn mark_send_result(&mut self, account: &[u8; 32], transfer_hash: &[u8; 32], status_code: u8) -> (r:
        Result<TransferSendingResultEvent, ClientError>)
        requires
            old(self).wf(),
        ensures
            final(self).wf(),
            !old(self)@.outgoing.contains_key((account@, transfer_hash@)) ==> (r matches Err(x)
                && x == ClientError::UnknownTransfer && final(self)@ == old(self)@),
            old(self)@.outgoing.contains_key((account@, transfer_hash@)) ==> (r matches Ok(ev)
                && final(self)@ == send_reported(old(self)@, account@, transfer_hash@, status_code)
                && ev.dst_address == *account && ev.transfer_hash == *transfer_hash
                && ev.status_code == status_code),
    {
        match self.outgoing.get(account, transfer_hash) {
            Some(rec) => {
                let updated = TransferAccount { success_receive: status_code == STATUS_SUCCESS, ..rec };
                self.outgoing.set(account, transfer_hash, updated);
                Ok(TransferSendingResultEvent {
                    dst_address: *account,
                    transfer_hash: *transfer_hash,
                    status_code,
                })
            },
            None => Err(ClientError::UnknownTransfer),
        }
    }

    /// Decides whether the recorded outgoing transfer of `account` with this
    /// identifier may be handed to the relay by `signer`.
    pub fn check_dispatch(
        &self,
        signer: &[u8; 32],
        account: &[u8; 32],
        chain_id: u64,
        transfer_hash: &[u8; 32],
    ) -> (r: Result<(), ClientError>)
        requires
            self.wf(),
        ensures
            match dispatch_refusal(self@, signer@, account@, chain_id, transfer_hash@) {
                Some(e) => r == Err::<(), ClientError>(e),
                None => r is Ok,
            },
    {
        if !self.senders.contains(account, signer) {
            return Err(ClientError::UnauthorizedSigner);
        }
        if self.trusted.get(account, chain_id).is_none() {
            return Err(ClientError::UntrustedSource);
        }
        if self.outgoing.get(account, transfer_hash).is_none() {
            return Err(ClientError::UnknownTransfer);
        }
        Ok(())
    }
}

} // verus!
