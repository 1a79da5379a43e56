//! Properties that relate several operations of the library.
use vstd::prelude::*;
use crate::codec::{encoding, InitMessage, HEADER_LEN};
use crate::hash_chain::{chain_after, chunk_count_of, crosschain_hash, CHUNK_LEN, STATIC_LEN};
use crate::ledger::{
    executed, receive_refusal, send_refusal, with_incoming, with_outgoing, ClientError, LedgerModel,
};

verus! {

/// Encoding is a function of the message's fields: two messages with the same
/// fields have the same encoding, of 256 bytes plus the payload.
pub proof fn lemma_encoding_deterministic(a: InitMessage, b: InitMessage)
    requires
        a.src_chain_id == b.src_chain_id,
        a.src_address == b.src_address,
        a.dst_chain_id == b.dst_chain_id,
        a.dst_address == b.dst_address,
        a.tx_id == b.tx_id,
        a.payload@ == b.payload@,
    ensures
        encoding(a) == encoding(b),
        encoding(a).len() == HEADER_LEN + a.payload@.len(),
{
}

/// The identifier is a function of the encoding, and is 32 bytes long
/// whatever the payload's length, an empty payload included.
pub proof fn lemma_identifier_deterministic(a: Seq<u8>, b: Seq<u8>)
    requires
        a.len() >= STATIC_LEN,
        a == b,
    ensures
        crosschain_hash(a) == crosschain_hash(b),
        crosschain_hash(a).len() == 32,
{
}

proof fn lemma_chain_prefix(p: Seq<u8>, q: Seq<u8>, n: nat)
    requires
        q.len() >= STATIC_LEN + CHUNK_LEN * n,
        p.len() >= q.len(),
        q == p.subrange(0, q.len() as int),
    ensures
        chain_after(p, n) == chain_after(q, n),
    decreases n,
{
    if n == 0 {
        assert(p.subrange(0, STATIC_LEN as int) =~= q.subrange(0, STATIC_LEN as int));
    } else {
        let i = (n - 1) as nat;
        assert(CHUNK_LEN * n == CHUNK_LEN * i + CHUNK_LEN) by (nonlinear_arith)
            requires
                i == n - 1,
        ;
        lemma_chain_prefix(p, q, i);
        assert(p.subrange(STATIC_LEN + CHUNK_LEN * i, STATIC_LEN + CHUNK_LEN * i + CHUNK_LEN)
            =~= q.subrange(STATIC_LEN + CHUNK_LEN * i, STATIC_LEN + CHUNK_LEN * i + CHUNK_LEN));
    }
}

/// Only whole 127-byte chunks after the 112-byte prefix enter the
/// identifier: the bytes after the last whole chunk do not change it.
pub proof fn lemma_partial_tail_ignored(packed: Seq<u8>)
    requires
        packed.len() >= STATIC_LEN,
    ensures
        ({
            let kept = packed.subrange(
                0,
                STATIC_LEN + CHUNK_LEN * chunk_count_of(packed.len()),
            );
            crosschain_hash(kept) == crosschain_hash(packed)
        }),
{
    let n = chunk_count_of(packed.len());
    let len = STATIC_LEN + CHUNK_LEN * n;
    assert(CHUNK_LEN * n <= packed.len() - STATIC_LEN) by (nonlinear_arith)
        requires
            n == (packed.len() - 112) / 127,
            packed.len() >= 112,
    ;
    let kept = packed.subrange(0, len as int);
    assert(chunk_count_of(kept.len()) == n) by (nonlinear_arith)
        requires
            kept.len() == 112 + 127 * n,
    ;
    lemma_chain_prefix(packed, kept, n);
}

/// Recording an outgoing transfer that was accepted, and then the same one
/// again, refuses the second as a duplicate.
pub proof fn lemma_send_twice_refused(
    m: LedgerModel,
    signer: Seq<u8>,
    account: Seq<u8>,
    chain_id: u64,
    transfer_hash: Seq<u8>,
)
    requires
        send_refusal(m, signer, account, chain_id, transfer_hash) is None,
    ensures
        send_refusal(with_outgoing(m, account, transfer_hash), signer, account, chain_id, transfer_hash)
            == Some(ClientError::DuplicateTransfer),
{
}

/// Receiving a transfer that was accepted, and then the same one again,
/// refuses the second as a replay.
pub proof fn lemma_receive_twice_replayed(
    m: LedgerModel,
    account: Seq<u8>,
    chain_id: u64,
    remote_address: Seq<u8>,
    transfer_hash: Seq<u8>,
)
    requires
        receive_refusal(m, account, chain_id, remote_address, transfer_hash) is None,
    ensures
        receive_refusal(
            with_incoming(m, account, transfer_hash),
            account,
            chain_id,
            remote_address,
            transfer_hash,
        ) == Some(ClientError::ReplayedTransfer),
{
}

/// A transfer from any address but the one trusted for the account and
/// chain is refused as untrusted, whatever records exist.
pub proof fn lemma_untrusted_source_refused(
    m: LedgerModel,
    account: Seq<u8>,
    chain_id: u64,
    remote_address: Seq<u8>,
    transfer_hash: Seq<u8>,
)
    requires
        !(m.trusted.contains_key((account, chain_id)) && m.trusted[(account, chain_id)]
            == remote_address),
    ensures
        receive_refusal(m, account, chain_id, remote_address, transfer_hash) == Some(
            ClientError::UntrustedSource,
        ),
{
}

/// Marking an incoming transfer executed twice leaves the ledger as marking
/// it once does; the record exists for the second call, which succeeds.
pub proof fn lemma_mark_executed_idempotent(m: LedgerModel, account: Seq<u8>, transfer_hash: Seq<u8>)
    requires
        m.incoming.contains_key((account, transfer_hash)),
    ensures
        executed(m, account, transfer_hash).incoming.contains_key((account, transfer_hash)),
        executed(m, account, transfer_hash).incoming[(account, transfer_hash)].success_execute,
        executed(executed(m, account, transfer_hash), account, transfer_hash) == executed(
            m,
            account,
            transfer_hash,
        ),
{
    let once = executed(m, account, transfer_hash);
    let twice = executed(once, account, transfer_hash);
    assert(twice.incoming =~= once.incoming);
}

} // verus!
