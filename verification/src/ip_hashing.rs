//! IP-hash: the backend is a function of the client's rendered address.

use crate::algorithm::{share, Algorithm};
use crate::load_balancer::PickServerError;
use crate::server::SyncServer;
use sha2::{Digest, Sha256};
use std::sync::Arc;
use vstd::prelude::*;
use vstd::utf8::encode_utf8;

verus! {

/// The SHA-256 digest of a byte string.
pub uninterp spec fn sha256(data: Seq<u8>) -> Seq<u8>;

/// `<Sha256 as Digest>::digest`: hashes `data` in one go and hands the
/// 32-byte output over as an array.
#[verifier::external_body]
pub(crate) fn sha256_digest(data: &[u8]) -> (digest: [u8; 32])
    ensures
        digest@ == sha256(data@),
{
    Sha256::digest(data).into()
}

/// The number that `bytes` spell in base 256, most significant byte first.
pub open spec fn big_endian(bytes: Seq<u8>) -> nat
    decreases bytes.len(),
{
    if bytes.len() == 0 {
        0
    } else {
        big_endian(bytes.drop_last()) * 256 + bytes.last() as nat
    }
}

/// The index a digest selects in a pool of `n` backends: its first eight
/// bytes, read as a big-endian number, modulo `n`.
pub open spec fn digest_index(digest: Seq<u8>, n: nat) -> nat
    recommends
        digest.len() >= 8,
        n > 0,
{
    big_endian(digest.subrange(0, 8)) % n
}

/// The index of the client whose rendered address is `client_addr` in a
/// pool of `n` backends.
pub open spec fn ip_hash_index(client_addr: Seq<char>, n: nat) -> nat
    recommends
        n > 0,
{
    digest_index(sha256(encode_utf8(client_addr)), n)
}

/// `k` bytes spell a number below `256^k`; stated for the eight bytes that
/// an index is read from.
proof fn lemma_big_endian_bound(bytes: Seq<u8>)
    requires
        bytes.len() <= 8,
    ensures
        bytes.len() == 0 ==> big_endian(bytes) == 0,
        bytes.len() == 1 ==> big_endian(bytes) < 0x100,
        bytes.len() == 2 ==> big_endian(bytes) < 0x1_0000,
        bytes.len() == 3 ==> big_endian(bytes) < 0x100_0000,
        bytes.len() == 4 ==> big_endian(bytes) < 0x1_0000_0000,
        bytes.len() == 5 ==> big_endian(bytes) < 0x100_0000_0000,
        bytes.len() == 6 ==> big_endian(bytes) < 0x1_0000_0000_0000,
        bytes.len() == 7 ==> big_endian(bytes) < 0x100_0000_0000_0000,
        bytes.len() == 8 ==> big_endian(bytes) < 0x1_0000_0000_0000_0000,
    decreases bytes.len(),
{
    if bytes.len() > 0 {
        lemma_big_endian_bound(bytes.drop_last());
    }
}

/// Reads an index for a pool of `n` backends out of `digest`.
///
/// Fails with `EmptyPool` where `n` is zero and with `IndexArithmetic`
/// where the digest has fewer than eight bytes.
pub fn index_from_digest(digest: &[u8], n: usize) -> (index: Result<usize, PickServerError>)
    ensures
        n == 0 ==> index == Err::<usize, _>(PickServerError::EmptyPool),
        n > 0 && digest@.len() < 8 ==> index == Err::<usize, _>(PickServerError::IndexArithmetic),
        n > 0 && digest@.len() >= 8 ==> index == Ok::<_, PickServerError>(
            digest_index(digest@, n as nat) as usize,
        ) && digest_index(digest@, n as nat) < n,
{
    if n == 0 {
        return Err(PickServerError::EmptyPool);
    }
    if digest.len() < 8 {
        return Err(PickServerError::IndexArithmetic);
    }
    let ghost head = digest@.subrange(0, 8);
    let mut value: u64 = 0;
    let mut i: usize = 0;
    while i < 8
        invariant
            i <= 8,
            digest@.len() >= 8,
            head == digest@.subrange(0, 8),
            value == big_endian(head.subrange(0, i as int)),
        decreases 8 - i,
    {
        proof {
            lemma_big_endian_bound(head.subrange(0, i as int));
            assert(head.subrange(0, i + 1).drop_last() == head.subrange(0, i as int));
            assert(head.subrange(0, i + 1).last() == digest@[i as int]);
        }
        value = value * 256 + digest[i] as u64;
        i += 1;
    }
    assert(head.subrange(0, 8) == head);
    let index = (value % (n as u64)) as usize;
    Ok(index)
}

/// IP-hash scheduler. It keeps no state.
pub struct IpHashing {}

impl Algorithm for IpHashing {
    open spec fn accepts(&self, pool: Seq<SyncServer>) -> bool {
        true
    }

    fn new() -> Self {
        IpHashing {  }
    }

    /// Returns the backend at `ip_hash_index(client_addr, N)`. The whole
    /// rendered address is hashed, its port included.
    fn pick_server(&mut self, servers: Arc<Vec<SyncServer>>, client_addr: &str) -> (picked: Result<
        (usize, SyncServer),
        PickServerError,
    >)
        ensures
            picked matches Ok((index, _)) ==> index == ip_hash_index(
                client_addr@,
                servers@.len(),
            ),
            *final(self) == *old(self),
    {
        let n = servers.len();
        let digest = sha256_digest(client_addr.as_bytes());
        match index_from_digest(digest.as_slice(), n) {
            Ok(index) => Ok((index, share(&servers[index]))),
            Err(error) => Err(error),
        }
    }
}

/// The index depends on nothing but the rendered address and the size of
/// the pool: two picks for the same address on pools of one size agree.
pub proof fn lemma_same_address_same_index(first: Seq<char>, second: Seq<char>, n: nat)
    requires
        first == second,
    ensures
        ip_hash_index(first, n) == ip_hash_index(second, n),
{
}

/// Whatever the address, the index lies inside a pool that is not empty.
pub proof fn lemma_index_in_pool(client_addr: Seq<char>, n: nat)
    requires
        n > 0,
    ensures
        ip_hash_index(client_addr, n) < n,
{
}

} // verus!
