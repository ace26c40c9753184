use vstd::prelude::*;
use crate::buffer::zeros;
use crate::endian::be_bytes;
use crate::permutation::compress;
use crate::state::{initial_chain, next_count, truncated_output, valid_config};

verus! {

/// What a hasher is, as far as its results go: the chaining value, the
/// bytes taken in but not yet compressed, the count of compressed blocks
/// and the digest length.
#[verifier::ext_equal]
pub struct HasherModel {
    pub chain: Seq<u8>,
    pub pending: Seq<u8>,
    pub blocks: u64,
    pub digest_len: nat,
}

impl HasherModel {
    /// The block length in bytes.
    pub open spec fn block_len(self) -> nat {
        self.chain.len()
    }

    /// The configuration is an admitted one and less than a block is pending.
    pub open spec fn wf(self) -> bool {
        &&& valid_config(self.digest_len, self.chain.len())
        &&& self.pending.len() < self.chain.len()
    }
}

/// The hasher before any input.
pub open spec fn initial_model(d: nat, l: nat) -> HasherModel {
    HasherModel {
        chain: initial_chain(d, l),
        pending: Seq::empty(),
        blocks: 0,
        digest_len: d,
    }
}

/// Block number `k` of `data`, cut into blocks of `block_len` bytes.
pub open spec fn block_at(data: Seq<u8>, block_len: nat, k: int) -> Seq<u8> {
    data.subrange(k * block_len, (k + 1) * block_len)
}

/// `(k + 1) * l` is `k * l + l`, and not beyond `n * l` while `k < n`.
pub proof fn lemma_block_bounds(k: int, n: int, l: int)
    requires
        0 <= k < n,
        0 < l,
    ensures
        0 <= k * l,
        (k + 1) * l == k * l + l,
        (k + 1) * l <= n * l,
{
    assert(0 <= k * l && (k + 1) * l == k * l + l && (k + 1) * l <= n * l) by (nonlinear_arith)
        requires
            0 <= k < n,
            0 < l,
    ;
}

/// The chaining value `h` after the first `n` blocks of `data` have been
/// compressed into it, one after the other.
pub open spec fn compress_all(h: Seq<u8>, data: Seq<u8>, block_len: nat, n: nat) -> Seq<u8>
    decreases n,
{
    if n == 0 {
        h
    } else {
        compress(
            compress_all(h, data, block_len, (n - 1) as nat),
            block_at(data, block_len, n - 1),
        )
    }
}

/// The block counter `start` after `n` more blocks; it wraps at 2^64.
pub open spec fn count_after(start: u64, n: nat) -> u64
    decreases n,
{
    if n == 0 {
        start
    } else {
        next_count(count_after(start, (n - 1) as nat))
    }
}

/// The hasher after it has taken `input` in: every whole block that the
/// pending bytes and the input make up is compressed, the rest is pending.
pub open spec fn absorb(s: HasherModel, input: Seq<u8>) -> HasherModel {
    let l = s.chain.len();
    let data = s.pending + input;
    let n = data.len() / l;
    HasherModel {
        chain: compress_all(s.chain, data, l, n),
        pending: data.subrange((n * l) as int, data.len() as int),
        blocks: count_after(s.blocks, n),
        digest_len: s.digest_len,
    }
}

/// The digest of a hasher. The pending bytes are closed with the marker
/// 0x80 and zeros, and the last eight bytes of the last block hold the
/// number of all blocks compressed, that one included, big-endian. Where
/// the marker leaves fewer than eight bytes free, the block is filled up
/// with zeros and compressed, and the count goes into one more block. The
/// digest is the end of the output transformation of the chaining value.
pub open spec fn finish(s: HasherModel) -> Seq<u8> {
    let l = s.chain.len();
    let marked = s.pending.push(0x80u8);
    if l - marked.len() < 8 {
        let carried = compress(s.chain, marked + zeros((l - marked.len()) as nat));
        let last = zeros((l - 8) as nat) + be_bytes(next_count(next_count(s.blocks)));
        truncated_output(compress(carried, last), s.digest_len)
    } else {
        let last = marked + zeros((l - 8 - marked.len()) as nat) + be_bytes(next_count(s.blocks));
        truncated_output(compress(s.chain, last), s.digest_len)
    }
}

/// The number of blocks of the padded message: the least number of blocks
/// that hold the message, the marker byte and the eight bytes of the count.
pub open spec fn padded_blocks(msg_len: nat, block_len: nat) -> nat {
    (msg_len + 8 + block_len) / block_len
}

/// The padded message: the message, the marker 0x80, zeros, and the number
/// of blocks as eight bytes, big-endian, at the end of the last block.
pub open spec fn padded(msg: Seq<u8>, block_len: nat) -> Seq<u8> {
    let n = padded_blocks(msg.len(), block_len);
    msg.push(0x80u8) + zeros((n * block_len - msg.len() - 9) as nat) + be_bytes(count_after(0, n))
}

/// The digest of `d` bytes of the message `msg` over blocks of `l` bytes:
/// the blocks of the padded message are compressed into the first chaining
/// value, and the digest is the end of the output transformation.
pub open spec fn groestl(msg: Seq<u8>, d: nat, l: nat) -> Seq<u8> {
    truncated_output(
        compress_all(initial_chain(d, l), padded(msg, l), l, padded_blocks(msg.len(), l)),
        d,
    )
}

} // verus!
