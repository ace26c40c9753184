use vstd::prelude::*;
use digest_buffer::DigestBuffer;
use generic_array::typenum::{U128, U64};

verus! {

/// `n` zero bytes.
pub open spec fn zeros(n: nat) -> Seq<u8> {
    Seq::new(n, |i: int| 0u8)
}

/// The longest prefix of `data` that is made of whole blocks of
/// `block_len` bytes.
pub open spec fn whole_blocks(data: Seq<u8>, block_len: nat) -> Seq<u8> {
    data.subrange(0, ((data.len() / block_len) * block_len) as int)
}

/// What is left of `data` behind its whole blocks.
pub open spec fn leftover(data: Seq<u8>, block_len: nat) -> Seq<u8> {
    data.subrange(((data.len() / block_len) * block_len) as int, data.len() as int)
}

/// Whether the marker byte leaves fewer than `rem` bytes free in the
/// block, so that the padding runs over into a block of its own.
pub open spec fn padding_spills(pending: Seq<u8>, rem: nat, block_len: nat) -> bool {
    block_len - (pending.len() + 1) < rem
}

/// The block that padding completes and hands out where it spills: the
/// pending bytes, the marker 0x80, and zeros to the end of the block.
/// Empty where it does not spill.
pub open spec fn padding_block(pending: Seq<u8>, rem: nat, block_len: nat) -> Seq<u8> {
    if padding_spills(pending, rem, block_len) {
        pending.push(0x80u8) + zeros((block_len - (pending.len() + 1)) as nat)
    } else {
        Seq::empty()
    }
}

/// The bytes pending after padding: all of a block but its last `rem`
/// bytes. They start with the pending bytes and the marker unless those
/// went out with the block that spilled.
pub open spec fn padding_rest(pending: Seq<u8>, rem: nat, block_len: nat) -> Seq<u8> {
    if padding_spills(pending, rem, block_len) {
        zeros((block_len - rem) as nat)
    } else {
        pending.push(0x80u8) + zeros((block_len - rem - (pending.len() + 1)) as nat)
    }
}

/// Appends a block to the blocks collected so far.
pub fn collect_block(blocks: &mut Vec<u8>, block: &[u8])
    ensures
        final(blocks)@ == old(blocks)@ + block@,
{
    blocks.extend_from_slice(block);
}

/// A `digest_buffer::DigestBuffer` over blocks of 64 bytes.
#[verifier::external_body]
pub struct ShortBuffer {
    inner: DigestBuffer<U64>,
}

/// A `digest_buffer::DigestBuffer` over blocks of 128 bytes.
#[verifier::external_body]
pub struct WideBuffer {
    inner: DigestBuffer<U128>,
}

/// The bytes that a 64-byte buffer holds back: the first `position()`
/// bytes of its block.
pub uninterp spec fn short_pending(buffer: ShortBuffer) -> Seq<u8>;

/// The bytes that a 128-byte buffer holds back: the first `position()`
/// bytes of its block.
pub uninterp spec fn wide_pending(buffer: WideBuffer) -> Seq<u8>;

/// `DigestBuffer::new`: the new buffer holds nothing back.
#[verifier::external_body]
fn short_new() -> (buffer: ShortBuffer)
    ensures
        short_pending(buffer) == Seq::<u8>::empty(),
{
    ShortBuffer { inner: DigestBuffer::new() }
}

/// `DigestBuffer::new`: the new buffer holds nothing back.
#[verifier::external_body]
fn wide_new() -> (buffer: WideBuffer)
    ensures
        wide_pending(buffer) == Seq::<u8>::empty(),
{
    WideBuffer { inner: DigestBuffer::new() }
}

/// `DigestBuffer::input`, with a closure that collects the blocks it is
/// handed. Trusted: the pending bytes followed by the input are cut into
/// blocks of 64 bytes, the whole blocks are handed out in order, and the
/// rest stays pending.
#[verifier::external_body]
fn short_input(buffer: &mut ShortBuffer, input: &[u8]) -> (blocks: Vec<u8>)
    requires
        short_pending(*old(buffer)).len() < 64,
    ensures
        blocks@ == whole_blocks(short_pending(*old(buffer)) + input@, 64),
        short_pending(*final(buffer)) == leftover(short_pending(*old(buffer)) + input@, 64),
{
    let mut blocks: Vec<u8> = Vec::new();
    buffer.inner.input(input, |block| collect_block(&mut blocks, block));
    blocks
}

/// `DigestBuffer::input`, with a closure that collects the blocks it is
/// handed. Trusted: the pending bytes followed by the input are cut into
/// blocks of 128 bytes, the whole blocks are handed out in order, and the
/// rest stays pending.
#[verifier::external_body]
fn wide_input(buffer: &mut WideBuffer, input: &[u8]) -> (blocks: Vec<u8>)
    requires
        wide_pending(*old(buffer)).len() < 128,
    ensures
        blocks@ == whole_blocks(wide_pending(*old(buffer)) + input@, 128),
        wide_pending(*final(buffer)) == leftover(wide_pending(*old(buffer)) + input@, 128),
{
    let mut blocks: Vec<u8> = Vec::new();
    buffer.inner.input(input, |block| collect_block(&mut blocks, block));
    blocks
}

/// `DigestBuffer::standard_padding`, with a closure that collects the
/// block it may be handed. Trusted: the marker 0x80 is appended; where
/// fewer than `rem` bytes are then free, the block is filled with zeros
/// and handed out; zeros then fill the block up to its last `rem` bytes.
#[verifier::external_body]
fn short_standard_padding(buffer: &mut ShortBuffer, rem: usize) -> (blocks: Vec<u8>)
    requires
        short_pending(*old(buffer)).len() < 64,
        rem <= 64,
    ensures
        blocks@ == padding_block(short_pending(*old(buffer)), rem as nat, 64),
        short_pending(*final(buffer)) == padding_rest(short_pending(*old(buffer)), rem as nat, 64),
{
    let mut blocks: Vec<u8> = Vec::new();
    buffer.inner.standard_padding(rem, |block| collect_block(&mut blocks, block));
    blocks
}

/// `DigestBuffer::standard_padding`, with a closure that collects the
/// block it may be handed. Trusted: the marker 0x80 is appended; where
/// fewer than `rem` bytes are then free, the block is filled with zeros
/// and handed out; zeros then fill the block up to its last `rem` bytes.
#[verifier::external_body]
fn wide_standard_padding(buffer: &mut WideBuffer, rem: usize) -> (blocks: Vec<u8>)
    requires
        wide_pending(*old(buffer)).len() < 128,
        rem <= 128,
    ensures
        blocks@ == padding_block(wide_pending(*old(buffer)), rem as nat, 128),
        wide_pending(*final(buffer)) == padding_rest(wide_pending(*old(buffer)), rem as nat, 128),
{
    let mut blocks: Vec<u8> = Vec::new();
    buffer.inner.standard_padding(rem, |block| collect_block(&mut blocks, block));
    blocks
}

/// `DigestBuffer::next`, filled with `bytes`. Trusted: the buffer moves
/// on by the length of `bytes` and hands out that stretch of its block,
/// so that what is written there is pending behind what was.
#[verifier::external_body]
fn short_next(buffer: &mut ShortBuffer, bytes: &[u8])
    requires
        short_pending(*old(buffer)).len() + bytes@.len() <= 64,
    ensures
        short_pending(*final(buffer)) == short_pending(*old(buffer)) + bytes@,
{
    buffer.inner.next(bytes.len()).copy_from_slice(bytes);
}

/// `DigestBuffer::next`, filled with `bytes`. Trusted: the buffer moves
/// on by the length of `bytes` and hands out that stretch of its block,
/// so that what is written there is pending behind what was.
#[verifier::external_body]
fn wide_next(buffer: &mut WideBuffer, bytes: &[u8])
    requires
        wide_pending(*old(buffer)).len() + bytes@.len() <= 128,
    ensures
        wide_pending(*final(buffer)) == wide_pending(*old(buffer)) + bytes@,
{
    buffer.inner.next(bytes.len()).copy_from_slice(bytes);
}

/// `DigestBuffer::full_buffer`. Trusted: a buffer whose block is full
/// hands the block out and holds nothing back afterwards.
#[verifier::external_body]
fn short_full_buffer(buffer: &mut ShortBuffer) -> (block: Vec<u8>)
    requires
        short_pending(*old(buffer)).len() == 64,
    ensures
        block@ == short_pending(*old(buffer)),
        short_pending(*final(buffer)) == Seq::<u8>::empty(),
{
    buffer.inner.full_buffer().to_vec()
}

/// `DigestBuffer::full_buffer`. Trusted: a buffer whose block is full
/// hands the block out and holds nothing back afterwards.
#[verifier::external_body]
fn wide_full_buffer(buffer: &mut WideBuffer) -> (block: Vec<u8>)
    requires
        wide_pending(*old(buffer)).len() == 128,
    ensures
        block@ == wide_pending(*old(buffer)),
        wide_pending(*final(buffer)) == Seq::<u8>::empty(),
{
    buffer.inner.full_buffer().to_vec()
}

/// The block buffer of a hasher, for either block length.
pub enum BlockBuffer {
    Short(ShortBuffer),
    Wide(WideBuffer),
}

impl BlockBuffer {
    /// The bytes taken in and not yet handed out as part of a block.
    pub open spec fn pending(self) -> Seq<u8> {
        match self {
            BlockBuffer::Short(b) => short_pending(b),
            BlockBuffer::Wide(b) => wide_pending(b),
        }
    }

    /// The block length in bytes.
    pub open spec fn block_len(self) -> nat {
        match self {
            BlockBuffer::Short(_) => 64,
            BlockBuffer::Wide(_) => 128,
        }
    }

    /// An empty buffer for blocks of 128 bytes if `wide`, of 64 if not.
    pub fn new(wide: bool) -> (buffer: BlockBuffer)
        ensures
            buffer.pending() == Seq::<u8>::empty(),
            buffer.block_len() == (if wide {
                128nat
            } else {
                64nat
            }),
    {
        if wide {
            BlockBuffer::Wide(wide_new())
        } else {
            BlockBuffer::Short(short_new())
        }
    }

    /// Takes `input` in and returns the whole blocks that the pending
    /// bytes and the input make up, one behind the other.
    pub fn input(&mut self, input: &[u8]) -> (blocks: Vec<u8>)
        requires
            old(self).pending().len() < old(self).block_len(),
        ensures
            final(self).block_len() == old(self).block_len(),
            blocks@ == whole_blocks(old(self).pending() + input@, old(self).block_len()),
            final(self).pending() == leftover(old(self).pending() + input@, old(self).block_len()),
    {
        match self {
            BlockBuffer::Short(b) => short_input(b, input),
            BlockBuffer::Wide(b) => wide_input(b, input),
        }
    }

    /// Appends the marker byte and zeros up to the last `rem` bytes of a
    /// block, and returns the block that this completed on the way, if any.
    pub fn standard_padding(&mut self, rem: usize) -> (blocks: Vec<u8>)
        requires
            old(self).pending().len() < old(self).block_len(),
            rem <= old(self).block_len(),
        ensures
            final(self).block_len() == old(self).block_len(),
            blocks@ == padding_block(old(self).pending(), rem as nat, old(self).block_len()),
            final(self).pending() == padding_rest(
                old(self).pending(),
                rem as nat,
                old(self).block_len(),
            ),
    {
        match self {
            BlockBuffer::Short(b) => short_standard_padding(b, rem),
            BlockBuffer::Wide(b) => wide_standard_padding(b, rem),
        }
    }

    /// Appends `bytes` to the pending bytes.
    pub fn next(&mut self, bytes: &[u8])
        requires
            old(self).pending().len() + bytes@.len() <= old(self).block_len(),
        ensures
            final(self).block_len() == old(self).block_len(),
            final(self).pending() == old(self).pending() + bytes@,
    {
        match self {
            BlockBuffer::Short(b) => short_next(b, bytes),
            BlockBuffer::Wide(b) => wide_next(b, bytes),
        }
    }

    /// Hands out the pending bytes where they fill a block.
    pub fn full_buffer(&mut self) -> (block: Vec<u8>)
        requires
            old(self).pending().len() == old(self).block_len(),
        ensures
            final(self).block_len() == old(self).block_len(),
            block@ == old(self).pending(),
            final(self).pending() == Seq::<u8>::empty(),
    {
        match self {
            BlockBuffer::Short(b) => short_full_buffer(b),
            BlockBuffer::Wide(b) => wide_full_buffer(b),
        }
    }
}

} // verus!
