use vstd::prelude::*;
use vstd::slice::slice_subrange;
use crate::buffer::{leftover, padding_spills, whole_blocks, zeros, BlockBuffer};
use crate::endian::u64_be_bytes;
use crate::hash::{
    absorb,
    block_at,
    compress_all,
    count_after,
    finish,
    initial_model,
    lemma_block_bounds,
    HasherModel,
};
use crate::state::{valid_config, ConfigError, GroestlState};

verus! {

/// A hasher: bytes go in with `process`, in as many pieces as the caller
/// likes, and `finalize` gives the digest of all of them.
pub struct Groestl {
    buffer: BlockBuffer,
    state: GroestlState,
}

impl View for Groestl {
    type V = HasherModel;

    closed spec fn view(&self) -> HasherModel {
        HasherModel {
            chain: self.state.chain(),
            pending: self.buffer.pending(),
            blocks: self.state.blocks(),
            digest_len: self.state.digest_len(),
        }
    }
}

impl Groestl {
    /// The buffer and the chaining state agree on the block length.
    pub closed spec fn inv(&self) -> bool {
        &&& self.state.wf()
        &&& self.buffer.block_len() == self.state.block_len()
    }

    /// The hasher is usable: its parts agree, its configuration is an
    /// admitted one, and less than a block is pending.
    pub open spec fn wf(&self) -> bool {
        &&& self.inv()
        &&& self@.wf()
    }

    /// A hasher for digests of `output_bytes` bytes over blocks of
    /// `block_bytes` bytes, or the reason why there is none.
    pub fn new(output_bytes: usize, block_bytes: usize) -> (r: Result<Groestl, ConfigError>)
        ensures
            match r {
                Ok(g) => {
                    &&& valid_config(output_bytes as nat, block_bytes as nat)
                    &&& g.wf()
                    &&& g@ == initial_model(output_bytes as nat, block_bytes as nat)
                },
                Err(ConfigError::BlockSize) => block_bytes != 64 && block_bytes != 128,
                Err(ConfigError::OutputSize) => {
                    &&& block_bytes == 64 || block_bytes == 128
                    &&& !valid_config(output_bytes as nat, block_bytes as nat)
                },
            },
    {
        match GroestlState::new(output_bytes, block_bytes) {
            Ok(state) => {
                let buffer = BlockBuffer::new(state.wide());
                Ok(Groestl { buffer, state })
            },
            Err(e) => Err(e),
        }
    }

    /// The chaining state.
    pub fn state(&self) -> (s: &GroestlState)
        requires
            self.wf(),
        ensures
            s.wf(),
            s.chain() == self@.chain,
            s.blocks() == self@.blocks,
            s.digest_len() == self@.digest_len,
    {
        &self.state
    }

    /// Takes `input` in.
    pub fn process(&mut self, input: &[u8])
        requires
            old(self).wf(),
        ensures
            final(self).wf(),
            final(self)@ == absorb(old(self)@, input@),
    {
        let ghost data = self.buffer.pending() + input@;
        let ghost h0 = self.state.chain();
        let ghost b0 = self.state.blocks();
        let blocks = self.buffer.input(input);
        let l: usize = self.state.block_bytes();
        let n: usize = blocks.len() / l;
        proof {
            let m = data.len() / (l as nat);
            vstd::arithmetic::div_mod::lemma_fundamental_div_mod(data.len() as int, l as int);
            vstd::arithmetic::div_mod::lemma_mod_bound(data.len() as int, l as int);
            vstd::arithmetic::div_mod::lemma_div_pos_is_pos(data.len() as int, l as int);
            assert(m * l == l * m) by (nonlinear_arith);
            assert(0 <= m * l <= data.len());
            assert(blocks@.len() == m * l);
            vstd::arithmetic::div_mod::lemma_div_multiples_vanish(m as int, l as int);
            assert(n == m);
        }
        let mut k: usize = 0;
        while k < n
            invariant
                k <= n,
                l == self.state.block_len(),
                n == data.len() / (l as nat),
                blocks@.len() == n * l,
                blocks@.len() <= usize::MAX,
                n * l <= data.len(),
                blocks@ == whole_blocks(data, l as nat),
                self.state.wf(),
                self.buffer.block_len() == l,
                self.buffer.pending() == leftover(data, l as nat),
                self.state.digest_len() == old(self).state.digest_len(),
                self.state.chain() == compress_all(h0, data, l as nat, k as nat),
                self.state.blocks() == count_after(b0, k as nat),
            decreases n - k,
        {
            proof {
                lemma_block_bounds(k as int, n as int, l as int);
            }
            let block = slice_subrange(blocks.as_slice(), k * l, k * l + l);
            proof {
                let want = block_at(data, l as nat, k as int);
                assert(want.len() == l);
                assert forall|i: int| 0 <= i < l implies block@[i] == want[i] by {
                    assert(block@[i] == blocks@[k * l + i]);
                    assert(blocks@[k * l + i] == data[k * l + i]);
                }
                assert(block@ =~= want);
            }
            self.state.compress(block);
            k += 1;
        }
        proof {
            vstd::arithmetic::div_mod::lemma_fundamental_div_mod(data.len() as int, l as int);
            vstd::arithmetic::div_mod::lemma_mod_bound(data.len() as int, l as int);
            assert(n * l == l * n) by (nonlinear_arith);
            assert(self@ =~= absorb(old(self)@, input@));
        }
    }

    /// The digest of all the input taken in.
    pub fn finalize(self) -> (digest: Vec<u8>)
        requires
            self.wf(),
        ensures
            digest@ == finish(self@),
            digest@.len() == self@.digest_len,
    {
        let mut hasher = self;
        let ghost pending = hasher.buffer.pending();
        let ghost l = hasher.state.block_len();
        let carried = hasher.buffer.standard_padding(8);
        if carried.len() > 0 {
            hasher.state.compress(carried.as_slice());
        }
        let count = u64_be_bytes(hasher.state.num_blocks().wrapping_add(1));
        hasher.buffer.next(count.as_slice());
        let last = hasher.buffer.full_buffer();
        hasher.state.compress(last.as_slice());
        proof {
            if padding_spills(pending, 8, l) {
                assert(carried@ =~= pending.push(0x80u8) + zeros((l - (pending.len() + 1)) as nat));
            } else {
                assert(carried@.len() == 0);
            }
        }
        hasher.state.finalize()
    }
}

} // verus!
