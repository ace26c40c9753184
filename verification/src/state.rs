use vstd::prelude::*;
use crate::consts::{B, C_P, C_Q, SBOX, SHIFTS_P, SHIFTS_P_WIDE, SHIFTS_Q, SHIFTS_Q_WIDE};
use crate::endian::{be_bytes, u64_be_bytes};
use crate::matrix::{well_shaped, Matrix};
use crate::permutation::{
    add_round_constant,
    block_rows,
    compress,
    lemma_compress_len,
    lemma_permute_len,
    mix_bytes,
    output_transform,
    permute_p,
    permute_q,
    round_count,
    rounds,
    rows_block,
    shift_bytes,
    shifts_p,
    shifts_q,
    sub_bytes,
    xor_seq,
};
use crate::rotation::{lemma_rotate_zero, rotate_left, rotate_row};

verus! {

/// Why a pair of digest length and block length was turned down.
#[derive(Debug, Clone, Copy, PartialEq, Eq)]
pub enum ConfigError {
    /// The block length is neither 64 nor 128 bytes.
    BlockSize,
    /// The digest length is not one that the block length admits.
    OutputSize,
}

/// The pairs of digest length `d` and block length `l`, in bytes, that a
/// hasher can be made for: 224 or 256 bits on 64-byte blocks, and 256, 384
/// or 512 bits on 128-byte blocks.
pub open spec fn valid_config(d: nat, l: nat) -> bool {
    (l == 64 && (d == 28 || d == 32)) || (l == 128 && (d == 32 || d == 48 || d == 64))
}

/// The first chaining value: zero but for the digest length in bits,
/// written big-endian into the last eight bytes.
pub open spec fn initial_chain(d: nat, l: nat) -> Seq<u8> {
    Seq::new(
        l,
        |i: int|
            if i < l - 8 {
                0u8
            } else {
                be_bytes((8 * d) as u64)[i - (l - 8)]
            },
    )
}

/// The last `d` bytes of the output transformation of the chaining value `h`.
pub open spec fn truncated_output(h: Seq<u8>, d: nat) -> Seq<u8> {
    output_transform(h).subrange(h.len() - d, h.len() as int)
}

/// The counter of compressed blocks after one more block; it wraps at 2^64.
pub open spec fn next_count(n: u64) -> u64 {
    if n == u64::MAX {
        0u64
    } else {
        (n + 1) as u64
    }
}

/// Bytewise exclusive or of two blocks of one length.
pub fn xor_blocks(a1: &[u8], a2: &[u8]) -> (res: Vec<u8>)
    requires
        a1@.len() == a2@.len(),
    ensures
        res@ == xor_seq(a1@, a2@),
{
    let mut res: Vec<u8> = Vec::new();
    let mut i: usize = 0;
    while i < a1.len()
        invariant
            i <= a1@.len(),
            a1@.len() == a2@.len(),
            res@.len() == i,
            forall|k: int| 0 <= k < i ==> res@[k] == a1@[k] ^ a2@[k],
        decreases a1@.len() - i,
    {
        res.push(a1[i] ^ a2[i]);
        i += 1;
    }
    assert(res@ =~= xor_seq(a1@, a2@));
    res
}

/// The chaining state of a hasher: the chaining value, the number of
/// rounds that goes with its length, the count of blocks compressed so far
/// and the digest length.
pub struct GroestlState {
    state: Vec<u8>,
    rounds: u8,
    num_blocks: u64,
    output_bytes: usize,
}

impl GroestlState {
    /// The chaining value.
    pub closed spec fn chain(&self) -> Seq<u8> {
        self.state@
    }

    /// The number of blocks compressed so far, modulo 2^64.
    pub closed spec fn blocks(&self) -> u64 {
        self.num_blocks
    }

    /// The digest length in bytes.
    pub closed spec fn digest_len(&self) -> nat {
        self.output_bytes as nat
    }

    /// The block length in bytes.
    pub open spec fn block_len(&self) -> nat {
        self.chain().len()
    }

    /// The stored number of rounds is the one that belongs to the block length.
    pub closed spec fn rounds_match(&self) -> bool {
        self.rounds as nat == round_count(self.state@.len())
    }

    /// The state belongs to one of the admitted configurations.
    pub open spec fn wf(&self) -> bool {
        &&& valid_config(self.digest_len(), self.block_len())
        &&& self.rounds_match()
    }

    /// The state before any input for digests of `output_bytes` bytes over
    /// blocks of `block_bytes` bytes, or the reason why there is none.
    pub fn new(output_bytes: usize, block_bytes: usize) -> (r: Result<GroestlState, ConfigError>)
        ensures
            match r {
                Ok(s) => {
                    &&& valid_config(output_bytes as nat, block_bytes as nat)
                    &&& s.wf()
                    &&& s.chain() == initial_chain(output_bytes as nat, block_bytes as nat)
                    &&& s.blocks() == 0
                    &&& s.digest_len() == output_bytes
                },
                Err(ConfigError::BlockSize) => block_bytes != 64 && block_bytes != 128,
                Err(ConfigError::OutputSize) => {
                    &&& block_bytes == 64 || block_bytes == 128
                    &&& !valid_config(output_bytes as nat, block_bytes as nat)
                },
            },
    {
        let rounds: u8 = if block_bytes == 128 {
            14
        } else if block_bytes == 64 {
            10
        } else {
            return Err(ConfigError::BlockSize);
        };
        let fits = if block_bytes == 64 {
            output_bytes == 28 || output_bytes == 32
        } else {
            output_bytes == 32 || output_bytes == 48 || output_bytes == 64
        };
        if !fits {
            return Err(ConfigError::OutputSize);
        }
        let output_bits: u64 = (output_bytes * 8) as u64;
        let length = u64_be_bytes(output_bits);
        let mut iv: Vec<u8> = Vec::new();
        let mut i: usize = 0;
        while i < block_bytes
            invariant
                i <= block_bytes,
                block_bytes == 64 || block_bytes == 128,
                length@ == be_bytes(output_bits),
                iv@.len() == i,
                forall|k: int|
                    0 <= k < i ==> iv@[k] == (if k < block_bytes - 8 {
                        0u8
                    } else {
                        be_bytes(output_bits)[k - (block_bytes - 8)]
                    }),
            decreases block_bytes - i,
        {
            if i < block_bytes - 8 {
                iv.push(0u8);
            } else {
                iv.push(length[i - (block_bytes - 8)]);
            }
            i += 1;
        }
        assert(iv@ =~= initial_chain(output_bytes as nat, block_bytes as nat));
        Ok(GroestlState { state: iv, rounds, num_blocks: 0, output_bytes })
    }

    /// The chaining value.
    pub fn state(&self) -> (s: &Vec<u8>)
        ensures
            s@ == self.chain(),
    {
        &self.state
    }

    /// The number of blocks compressed so far, modulo 2^64.
    pub fn num_blocks(&self) -> (n: u64)
        ensures
            n == self.blocks(),
    {
        self.num_blocks
    }

    /// The digest length in bytes.
    pub fn output_bytes(&self) -> (d: usize)
        ensures
            d == self.digest_len(),
    {
        self.output_bytes
    }

    /// The block length in bytes.
    pub fn block_bytes(&self) -> (l: usize)
        ensures
            l == self.block_len(),
    {
        self.state.len()
    }

    /// Whether the state is the wide one, of 128 bytes.
    pub fn wide(&self) -> (w: bool)
        requires
            self.wf(),
        ensures
            w == (self.block_len() == 128),
            !w == (self.block_len() == 64),
    {
        self.state.len() == 128
    }

    /// Compresses one block into the chaining value and counts it.
    pub fn compress(&mut self, input_block: &[u8])
        requires
            old(self).wf(),
            input_block@.len() == old(self).block_len(),
        ensures
            final(self).wf(),
            final(self).chain() == compress(old(self).chain(), input_block@),
            final(self).blocks() == next_count(old(self).blocks()),
            final(self).digest_len() == old(self).digest_len(),
            final(self).block_len() == old(self).block_len(),
    {
        let mixed = xor_blocks(self.state.as_slice(), input_block);
        let left = self.p(mixed.as_slice());
        let right = self.q(input_block);
        proof {
            lemma_permute_len(mixed@);
            lemma_permute_len(input_block@);
        }
        let sum = xor_blocks(left.as_slice(), right.as_slice());
        let next = xor_blocks(sum.as_slice(), self.state.as_slice());
        proof {
            lemma_compress_len(self.state@, input_block@);
        }
        self.state = next;
        self.num_blocks = self.num_blocks.wrapping_add(1);
    }

    /// Lays a block out as a matrix, column after column.
    pub fn block_to_matrix(&self, block: &[u8]) -> (matrix: Matrix)
        requires
            self.wf(),
            block@.len() == self.block_len(),
        ensures
            matrix.wf(),
            matrix.spec_cols() == block@.len() / 8,
            matrix@ == block_rows(block@),
    {
        let cols: usize = block.len() / 8;
        let mut matrix = Matrix::new(cols);
        let rows = matrix.rows();
        let mut i: usize = 0;
        while i < cols
            invariant
                i <= cols,
                rows == 8,
                cols == block@.len() / 8,
                block@.len() == 64 || block@.len() == 128,
                matrix.wf(),
                matrix.spec_cols() == cols,
                forall|r: int, c: int|
                    0 <= r < 8 && 0 <= c < i ==> #[trigger] matrix@[r][c] == block@[c * 8 + r],
            decreases cols - i,
        {
            let mut j: usize = 0;
            while j < rows
                invariant
                    j <= rows,
                    i < cols,
                    rows == 8,
                    cols == block@.len() / 8,
                    block@.len() == 64 || block@.len() == 128,
                    matrix.wf(),
                    matrix.spec_cols() == cols,
                    forall|r: int, c: int|
                        0 <= r < 8 && 0 <= c < i ==> #[trigger] matrix@[r][c] == block@[c * 8 + r],
                    forall|r: int| 0 <= r < j ==> #[trigger] matrix@[r][i as int] == block@[i * 8 + r],
                decreases rows - j,
            {
                matrix.set(j, i, block[i * rows + j]);
                j += 1;
            }
            i += 1;
        }
        proof {
            let want = block_rows(block@);
            assert forall|r: int| 0 <= r < 8 implies #[trigger] matrix@[r] == want[r] by {
                assert(matrix@[r] =~= want[r]);
            }
            assert(matrix@ =~= want);
        }
        matrix
    }

    /// Reads a matrix out as a block, column after column.
    pub fn matrix_to_block(&self, matrix: &Matrix) -> (block: Vec<u8>)
        requires
            matrix.wf(),
        ensures
            block@ == rows_block(matrix@),
            block@.len() == 8 * matrix.spec_cols(),
    {
        let mut block: Vec<u8> = Vec::new();
        let rows = matrix.rows();
        let cols = matrix.cols();
        let mut i: usize = 0;
        while i < cols
            invariant
                i <= cols,
                rows == 8,
                cols == matrix.spec_cols(),
                matrix.wf(),
                block@.len() == i * 8,
                forall|k: int| 0 <= k < i * 8 ==> block@[k] == matrix@[k % 8][k / 8],
            decreases cols - i,
        {
            let mut j: usize = 0;
            while j < rows
                invariant
                    j <= rows,
                    i < cols,
                    rows == 8,
                    cols == matrix.spec_cols(),
                    matrix.wf(),
                    block@.len() == i * 8 + j,
                    forall|k: int| 0 <= k < i * 8 + j ==> block@[k] == matrix@[k % 8][k / 8],
                decreases rows - j,
            {
                block.push(matrix.get(j, i));
                j += 1;
            }
            i += 1;
        }
        assert(block@ =~= rows_block(matrix@));
        block
    }

    /// The permutation P.
    pub fn p(&self, block: &[u8]) -> (out: Vec<u8>)
        requires
            self.wf(),
            block@.len() == self.block_len(),
        ensures
            out@ == permute_p(block@),
    {
        let shifts = if self.wide() {
            SHIFTS_P_WIDE
        } else {
            SHIFTS_P
        };
        let mut matrix = self.block_to_matrix(block);
        let mut round: u8 = 0;
        while round < self.rounds
            invariant
                round <= self.rounds,
                self.wf(),
                block@.len() == self.block_len(),
                shifts@ == shifts_p(block@.len()),
                matrix.wf(),
                matrix.spec_cols() == block@.len() / 8,
                matrix@ == rounds(block_rows(block@), C_P@, shifts@, round as nat),
            decreases self.rounds - round,
        {
            self.add_round_constant(&mut matrix, C_P, round);
            self.sub_bytes(&mut matrix);
            self.shift_bytes(&mut matrix, shifts);
            matrix = self.mix_bytes(&matrix);
            round += 1;
        }
        self.matrix_to_block(&matrix)
    }

    /// The permutation Q.
    pub fn q(&self, block: &[u8]) -> (out: Vec<u8>)
        requires
            self.wf(),
            block@.len() == self.block_len(),
        ensures
            out@ == permute_q(block@),
    {
        let shifts = if self.wide() {
            SHIFTS_Q_WIDE
        } else {
            SHIFTS_Q
        };
        let mut matrix = self.block_to_matrix(block);
        let mut round: u8 = 0;
        while round < self.rounds
            invariant
                round <= self.rounds,
                self.wf(),
                block@.len() == self.block_len(),
                shifts@ == shifts_q(block@.len()),
                matrix.wf(),
                matrix.spec_cols() == block@.len() / 8,
                matrix@ == rounds(block_rows(block@), C_Q@, shifts@, round as nat),
            decreases self.rounds - round,
        {
            self.add_round_constant(&mut matrix, C_Q, round);
            self.sub_bytes(&mut matrix);
            self.shift_bytes(&mut matrix, shifts);
            matrix = self.mix_bytes(&matrix);
            round += 1;
        }
        self.matrix_to_block(&matrix)
    }

    /// AddRoundConstant with the table `c` and the round number `round`.
    pub fn add_round_constant(&self, matrix: &mut Matrix, c: [u8; 128], round: u8)
        requires
            old(matrix).wf(),
            old(matrix).spec_cols() <= 16,
        ensures
            final(matrix).wf(),
            final(matrix).spec_cols() == old(matrix).spec_cols(),
            final(matrix)@ == add_round_constant(old(matrix)@, c@, round),
    {
        let ghost before = matrix@;
        let rows = matrix.rows();
        let cols = matrix.cols();
        let mut i: usize = 0;
        while i < rows
            invariant
                i <= rows,
                rows == 8,
                cols == matrix.spec_cols(),
                cols <= 16,
                matrix.wf(),
                well_shaped(before, cols as nat),
                forall|r: int, k: int|
                    0 <= r < i && 0 <= k < cols ==> #[trigger] matrix@[r][k] == add_round_constant(
                        before,
                        c@,
                        round,
                    )[r][k],
                forall|r: int| i <= r < 8 ==> #[trigger] matrix@[r] == before[r],
            decreases rows - i,
        {
            let mut j: usize = 0;
            while j < cols
                invariant
                    j <= cols,
                    i < rows,
                    rows == 8,
                    cols == matrix.spec_cols(),
                    cols <= 16,
                    matrix.wf(),
                    well_shaped(before, cols as nat),
                    forall|r: int, k: int|
                        0 <= r < i && 0 <= k < cols ==> #[trigger] matrix@[r][k]
                            == add_round_constant(before, c@, round)[r][k],
                    forall|r: int| i < r < 8 ==> #[trigger] matrix@[r] == before[r],
                    forall|k: int|
                        0 <= k < j ==> #[trigger] matrix@[i as int][k] == add_round_constant(
                            before,
                            c@,
                            round,
                        )[i as int][k],
                    forall|k: int| j <= k < cols ==> #[trigger] matrix@[i as int][k] == before[i as int][k],
                decreases cols - j,
            {
                let mut v: u8 = matrix.get(i, j) ^ c[i * 16 + j];
                if c[0] == 0x00 && i == 0 {
                    v = v ^ round;
                } else if c[0] == 0xff && i == 7 {
                    v = v ^ round;
                }
                matrix.set(i, j, v);
                j += 1;
            }
            i += 1;
        }
        proof {
            let want = add_round_constant(before, c@, round);
            assert forall|r: int| 0 <= r < 8 implies #[trigger] matrix@[r] == want[r] by {
                assert(matrix@[r] =~= want[r]);
            }
            assert(matrix@ =~= want);
        }
    }

    /// SubBytes.
    pub fn sub_bytes(&self, matrix: &mut Matrix)
        requires
            old(matrix).wf(),
        ensures
            final(matrix).wf(),
            final(matrix).spec_cols() == old(matrix).spec_cols(),
            final(matrix)@ == sub_bytes(old(matrix)@),
    {
        let ghost before = matrix@;
        let rows = matrix.rows();
        let cols = matrix.cols();
        let mut i: usize = 0;
        while i < rows
            invariant
                i <= rows,
                rows == 8,
                cols == matrix.spec_cols(),
                matrix.wf(),
                well_shaped(before, cols as nat),
                forall|r: int, k: int|
                    0 <= r < i && 0 <= k < cols ==> #[trigger] matrix@[r][k] == SBOX[before[r][k] as int],
                forall|r: int| i <= r < 8 ==> #[trigger] matrix@[r] == before[r],
            decreases rows - i,
        {
            let mut j: usize = 0;
            while j < cols
                invariant
                    j <= cols,
                    i < rows,
                    rows == 8,
                    cols == matrix.spec_cols(),
                    matrix.wf(),
                    well_shaped(before, cols as nat),
                    forall|r: int, k: int|
                        0 <= r < i && 0 <= k < cols ==> #[trigger] matrix@[r][k] == SBOX[before[r][k] as int],
                    forall|r: int| i < r < 8 ==> #[trigger] matrix@[r] == before[r],
                    forall|k: int|
                        0 <= k < j ==> #[trigger] matrix@[i as int][k] == SBOX[before[i as int][k] as int],
                    forall|k: int| j <= k < cols ==> #[trigger] matrix@[i as int][k] == before[i as int][k],
                decreases cols - j,
            {
                let v: u8 = SBOX[matrix.get(i, j) as usize];
                matrix.set(i, j, v);
                j += 1;
            }
            i += 1;
        }
        proof {
            let want = sub_bytes(before);
            assert forall|r: int| 0 <= r < 8 implies #[trigger] matrix@[r] == want[r] by {
                assert(matrix@[r] =~= want[r]);
            }
            assert(matrix@ =~= want);
        }
    }

    /// ShiftBytes with the row shifts `shifts`.
    pub fn shift_bytes(&self, matrix: &mut Matrix, shifts: [u8; 8])
        requires
            old(matrix).wf(),
        ensures
            final(matrix).wf(),
            final(matrix).spec_cols() == old(matrix).spec_cols(),
            final(matrix)@ == shift_bytes(old(matrix)@, shifts@),
    {
        let ghost before = matrix@;
        let rows = matrix.rows();
        let mut i: usize = 0;
        while i < rows
            invariant
                i <= rows,
                rows == 8,
                matrix.wf(),
                matrix.spec_cols() == old(matrix).spec_cols(),
                well_shaped(before, matrix.spec_cols()),
                forall|r: int| 0 <= r < i ==> #[trigger] matrix@[r] == rotate_left(before[r], shifts@[r] as nat),
                forall|r: int| i <= r < 8 ==> #[trigger] matrix@[r] == before[r],
            decreases rows - i,
        {
            let shift = shifts[i] as usize;
            if shift != 0 {
                rotate_row(matrix, i, shift);
            } else {
                proof {
                    lemma_rotate_zero(before[i as int]);
                }
            }
            i += 1;
        }
        assert(matrix@ =~= shift_bytes(before, shifts@));
    }

    /// MixBytes.
    pub fn mix_bytes(&self, matrix: &Matrix) -> (out: Matrix)
        requires
            matrix.wf(),
        ensures
            out.wf(),
            out.spec_cols() == matrix.spec_cols(),
            out@ == mix_bytes(matrix@),
    {
        matrix.mul_array(&B)
    }

    /// The digest: the last bytes of the output transformation of the
    /// chaining value, as many as the digest length says.
    pub fn finalize(self) -> (digest: Vec<u8>)
        requires
            self.wf(),
        ensures
            digest@ == truncated_output(self.chain(), self.digest_len()),
            digest@.len() == self.digest_len(),
    {
        let image = self.p(self.state.as_slice());
        proof {
            lemma_permute_len(self.state@);
        }
        let a = xor_blocks(image.as_slice(), self.state.as_slice());
        let start: usize = a.len() - self.output_bytes;
        let mut digest: Vec<u8> = Vec::new();
        let mut i: usize = start;
        while i < a.len()
            invariant
                start <= i <= a@.len(),
                digest@.len() == i - start,
                forall|k: int| 0 <= k < i - start ==> digest@[k] == a@[start + k],
            decreases a@.len() - i,
        {
            digest.push(a[i]);
            i += 1;
        }
        assert(digest@ =~= a@.subrange(start as int, a@.len() as int));
        digest
    }
}

} // verus!
