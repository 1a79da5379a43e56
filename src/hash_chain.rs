//! The transfer identifier: a SHA-256 hash chain over an encoded message.
//! The first 112 bytes are hashed at once; the rest is cut into 127-byte
//! chunks, and each chunk's digest is folded into the running digest.
use vstd::prelude::*;

verus! {

/// Length of the prefix that seeds the chain.
pub const STATIC_LEN: usize = 112;

/// Length of one chunk of the rest.
pub const CHUNK_LEN: usize = 127;

/// The SHA-256 digest of a byte string.
pub uninterp spec fn sha256_of(data: Seq<u8>) -> [u8; 32];

/// Relies on solana_program's `hash::hash` (re-exported by anchor_lang): the
/// SHA-256 digest of `data`, which depends on the bytes alone.
#[verifier::external_body]
fn sha256(data: &[u8]) -> (r: [u8; 32])
    ensures
        r == sha256_of(data@),
{
    anchor_lang::solana_program::hash::hash(data).to_bytes()
}

/// How many chunks the chain folds in for an encoding of `len` bytes: the
/// whole chunks after the prefix. A shorter tail is left out.
pub open spec fn chunk_count_of(len: nat) -> nat {
    ((len - STATIC_LEN) as nat) / (CHUNK_LEN as nat)
}

/// Chunk `i` of the part after the prefix.
pub open spec fn chunk(packed: Seq<u8>, i: nat) -> Seq<u8> {
    packed.subrange(STATIC_LEN + CHUNK_LEN * i, STATIC_LEN + CHUNK_LEN * i + CHUNK_LEN)
}

/// One link of the chain: the digest of the running digest followed by the
/// chunk's digest.
pub open spec fn link(running: Seq<u8>, chunk_digest: Seq<u8>) -> Seq<u8> {
    sha256_of(running + chunk_digest)@
}

/// The running digest after the first `n` chunks.
pub open spec fn chain_after(packed: Seq<u8>, n: nat) -> Seq<u8>
    decreases n,
{
    if n == 0 {
        sha256_of(packed.subrange(0, STATIC_LEN as int))@
    } else {
        link(chain_after(packed, (n - 1) as nat), sha256_of(chunk(packed, (n - 1) as nat))@)
    }
}

/// The transfer identifier of an encoding of at least 112 bytes.
pub open spec fn crosschain_hash(packed: Seq<u8>) -> Seq<u8> {
    chain_after(packed, chunk_count_of(packed.len()))
}

/// Number of chunks that the chain folds in for an encoding of `packed_len`
/// bytes.
pub fn chunk_count(packed_len: usize) -> (r: usize)
    requires
        packed_len >= STATIC_LEN,
    ensures
        r == chunk_count_of(packed_len as nat),
{
    (packed_len - STATIC_LEN) / CHUNK_LEN
}

/// The 64-byte input of one link: the running digest, then the chunk's digest.
pub fn link_input(running: &[u8; 32], chunk_digest: &[u8; 32]) -> (r: [u8; 64])
    ensures
        r@ == running@ + chunk_digest@,
{
    let mut buf = [0u8; 64];
    let mut i: usize = 0;
    while i < 32
        invariant
            0 <= i <= 32,
            forall|j: int| 0 <= j < i ==> buf@[j] == running@[j],
            forall|j: int| 0 <= j < i ==> buf@[32 + j] == chunk_digest@[j],
        decreases 32 - i,
    {
        buf[i] = running[i];
        buf[32 + i] = chunk_digest[i];
        i = i + 1;
    }
    assert(buf@ =~= running@ + chunk_digest@);
    buf
}

/// Computes the transfer identifier of an encoded message.
pub fn build_crosschain_hash(packed: &[u8]) -> (r: [u8; 32])
    requires
        packed@.len() >= STATIC_LEN,
    ensures
        r@ == crosschain_hash(packed@),
{
    let mut hash = sha256(&packed[0..STATIC_LEN]);
    let n = chunk_count(packed.len());
    let mut i: usize = 0;
    while i < n
        invariant
            STATIC_LEN <= packed@.len() <= usize::MAX,
            n == chunk_count_of(packed@.len()),
            i <= n,
            hash@ == chain_after(packed@, i as nat),
        decreases n - i,
    {
        assert(112 + 127 * (i as int) + 127 <= packed@.len()) by (nonlinear_arith)
            requires
                i < n,
                n == (packed@.len() - 112) / 127,
                packed@.len() >= 112,
        ;
        let from = STATIC_LEN + CHUNK_LEN * i;
        proof {
            assert(packed@.subrange(from as int, from + CHUNK_LEN) =~= chunk(packed@, i as nat));
        }
        let chunk_digest = sha256(&packed[from..from + CHUNK_LEN]);
        let buf = link_input(&hash, &chunk_digest);
        hash = sha256(buf.as_slice());
        i = i + 1;
    }
    hash
}

} // verus!
