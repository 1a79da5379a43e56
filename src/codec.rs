//! Canonical encoding of a cross-chain message: a fixed 256-byte head of
//! 32-byte words, laid out as the remote chain's contract calls expect,
//! followed by the raw payload.
use vstd::prelude::*;

verus! {

/// Length of the fixed head of an encoded message.
pub const HEADER_LEN: usize = 256;

/// A message on its way to another chain. Addresses are 32 raw bytes.
#[derive(Debug, Clone)]
pub struct InitMessage {
    pub src_chain_id: u64,
    pub src_address: [u8; 32],
    pub dst_chain_id: u64,
    pub dst_address: [u8; 32],
    pub tx_id: u32,
    pub payload: Vec<u8>,
}

/// `n` zero bytes.
pub open spec fn zeros(n: nat) -> Seq<u8> {
    Seq::new(n, |i: int| 0u8)
}

/// Big-endian bytes of a `u32`.
pub open spec fn be_u32(x: u32) -> Seq<u8> {
    seq![(x >> 24u32) as u8, (x >> 16u32) as u8, (x >> 8u32) as u8, x as u8]
}

/// Big-endian bytes of a `u64`.
pub open spec fn be_u64(x: u64) -> Seq<u8> {
    seq![
        (x >> 56u64) as u8,
        (x >> 48u64) as u8,
        (x >> 40u64) as u8,
        (x >> 32u64) as u8,
        (x >> 24u64) as u8,
        (x >> 16u64) as u8,
        (x >> 8u64) as u8,
        x as u8,
    ]
}

/// The 256-byte head: eight 32-byte words holding, right-aligned, the offset
/// marker 32, the source chain id, the source address, the destination chain
/// id, the destination address, the transfer id, the payload offset marker 192
/// and the payload length.
pub open spec fn header(
    src_chain_id: u64,
    src_address: Seq<u8>,
    dst_chain_id: u64,
    dst_address: Seq<u8>,
    tx_id: u32,
    payload_len: u32,
) -> Seq<u8> {
    zeros(28) + be_u32(32) + zeros(24) + be_u64(src_chain_id) + src_address + zeros(24) + be_u64(
        dst_chain_id,
    ) + dst_address + zeros(28) + be_u32(tx_id) + zeros(28) + be_u32(192) + zeros(28) + be_u32(
        payload_len,
    )
}

/// The canonical encoding of a message: its head, then its payload.
pub open spec fn encoding(m: InitMessage) -> Seq<u8>
    recommends
        m.payload@.len() <= u32::MAX,
{
    header(
        m.src_chain_id,
        m.src_address@,
        m.dst_chain_id,
        m.dst_address@,
        m.tx_id,
        m.payload@.len() as u32,
    ) + m.payload@
}

fn push_zeros(out: &mut Vec<u8>, n: usize)
    ensures
        final(out)@ == old(out)@ + zeros(n as nat),
{
    let ghost start = out@;
    let mut i: usize = 0;
    while i < n
        invariant
            i <= n,
            out@ == start + zeros(i as nat),
        decreases n - i,
    {
        out.push(0u8);
        i = i + 1;
        assert(out@ =~= start + zeros(i as nat));
    }
}

fn push_be_u32(out: &mut Vec<u8>, x: u32)
    ensures
        final(out)@ == old(out)@ + be_u32(x),
{
    let ghost start = out@;
    out.push((x >> 24u32) as u8);
    out.push((x >> 16u32) as u8);
    out.push((x >> 8u32) as u8);
    out.push(x as u8);
    assert(out@ =~= start + be_u32(x));
}

fn push_be_u64(out: &mut Vec<u8>, x: u64)
    ensures
        final(out)@ == old(out)@ + be_u64(x),
{
    let ghost start = out@;
    out.push((x >> 56u64) as u8);
    out.push((x >> 48u64) as u8);
    out.push((x >> 40u64) as u8);
    out.push((x >> 32u64) as u8);
    out.push((x >> 24u64) as u8);
    out.push((x >> 16u64) as u8);
    out.push((x >> 8u64) as u8);
    out.push(x as u8);
    assert(out@ =~= start + be_u64(x));
}

fn push_bytes(out: &mut Vec<u8>, bytes: &[u8])
    ensures
        final(out)@ == old(out)@ + bytes@,
{
    let ghost start = out@;
    let mut i: usize = 0;
    while i < bytes.len()
        invariant
            i <= bytes@.len(),
            out@ == start + bytes@.subrange(0, i as int),
        decreases bytes@.len() - i,
    {
        out.push(bytes[i]);
        i = i + 1;
        assert(out@ =~= start + bytes@.subrange(0, i as int));
    }
    assert(bytes@.subrange(0, i as int) =~= bytes@);
}

/// Encodes `message` canonically: the 256-byte head of [`header`], then the
/// payload bytes. The payload length must fit the head's 4-byte field.
pub fn serialize_init_message_eth(message: InitMessage) -> (r: Vec<u8>)
    requires
        message.payload@.len() <= u32::MAX,
    ensures
        r@ == encoding(message),
        r@.len() == HEADER_LEN + message.payload@.len(),
{
    let mut result: Vec<u8> = Vec::new();
    push_zeros(&mut result, 28);
    push_be_u32(&mut result, 32);
    push_zeros(&mut result, 24);
    push_be_u64(&mut result, message.src_chain_id);
    push_bytes(&mut result, message.src_address.as_slice());
    push_zeros(&mut result, 24);
    push_be_u64(&mut result, message.dst_chain_id);
    push_bytes(&mut result, message.dst_address.as_slice());
    push_zeros(&mut result, 28);
    push_be_u32(&mut result, message.tx_id);
    push_zeros(&mut result, 28);
    push_be_u32(&mut result, 192);
    push_zeros(&mut result, 28);
    push_be_u32(&mut result, message.payload.len() as u32);
    push_bytes(&mut result, message.payload.as_slice());
    result
}

} // verus!
