use vstd::prelude::*;
use crate::consts::{B, C_P, C_Q, SBOX, SHIFTS_P, SHIFTS_P_WIDE, SHIFTS_Q, SHIFTS_Q_WIDE};
use crate::matrix::{mat_mul, well_shaped};
use crate::rotation::rotate_left;

verus! {

/// The matrix of a block: byte `col * 8 + row` of the block is the entry
/// at (row, col).
pub open spec fn block_rows(block: Seq<u8>) -> Seq<Seq<u8>> {
    Seq::new(8, |i: int| Seq::new(block.len() / 8, |j: int| block[j * 8 + i]))
}

/// The block of a matrix, column after column.
pub open spec fn rows_block(m: Seq<Seq<u8>>) -> Seq<u8> {
    Seq::new(8 * m[0].len(), |k: int| m[k % 8][k / 8])
}

/// Whether the table `table` puts the round number into row `row`: a table
/// that starts with 0x00 marks the top row, one that starts with 0xff the
/// bottom row.
pub open spec fn carries_round(table: Seq<u8>, row: int) -> bool {
    (table[0] == 0x00 && row == 0) || (table[0] == 0xff && row == 7)
}

/// AddRoundConstant: every entry is added to the table's entry at the same
/// place, and the marked row to the round number as well.
pub open spec fn add_round_constant(m: Seq<Seq<u8>>, table: Seq<u8>, round: u8) -> Seq<Seq<u8>> {
    Seq::new(
        8,
        |i: int|
            Seq::new(
                m[i].len(),
                |j: int|
                    if carries_round(table, i) {
                        (m[i][j] ^ table[i * 16 + j]) ^ round
                    } else {
                        m[i][j] ^ table[i * 16 + j]
                    },
            ),
    )
}

/// SubBytes: every entry is sent through the substitution box.
pub open spec fn sub_bytes(m: Seq<Seq<u8>>) -> Seq<Seq<u8>> {
    Seq::new(8, |i: int| Seq::new(m[i].len(), |j: int| SBOX[m[i][j] as int]))
}

/// ShiftBytes: row `i` is turned left by `shifts[i]` places.
pub open spec fn shift_bytes(m: Seq<Seq<u8>>, shifts: Seq<u8>) -> Seq<Seq<u8>> {
    Seq::new(8, |i: int| rotate_left(m[i], shifts[i] as nat))
}

/// MixBytes: the matrix is multiplied from the left by `B`.
pub open spec fn mix_bytes(m: Seq<Seq<u8>>) -> Seq<Seq<u8>> {
    mat_mul(B, m)
}

/// One round: AddRoundConstant, SubBytes, ShiftBytes, MixBytes.
pub open spec fn round(m: Seq<Seq<u8>>, table: Seq<u8>, shifts: Seq<u8>, r: u8) -> Seq<Seq<u8>> {
    mix_bytes(shift_bytes(sub_bytes(add_round_constant(m, table, r)), shifts))
}

/// The rounds numbered `0` to `n - 1`, in that order.
pub open spec fn rounds(m: Seq<Seq<u8>>, table: Seq<u8>, shifts: Seq<u8>, n: nat) -> Seq<Seq<u8>>
    decreases n,
{
    if n == 0 {
        m
    } else {
        round(rounds(m, table, shifts, (n - 1) as nat), table, shifts, (n - 1) as u8)
    }
}

/// The number of rounds for a block of `block_len` bytes.
pub open spec fn round_count(block_len: nat) -> nat {
    if block_len == 128 {
        14
    } else {
        10
    }
}

/// The row shifts of P for a block of `block_len` bytes.
pub open spec fn shifts_p(block_len: nat) -> Seq<u8> {
    if block_len == 128 {
        SHIFTS_P_WIDE@
    } else {
        SHIFTS_P@
    }
}

/// The row shifts of Q for a block of `block_len` bytes.
pub open spec fn shifts_q(block_len: nat) -> Seq<u8> {
    if block_len == 128 {
        SHIFTS_Q_WIDE@
    } else {
        SHIFTS_Q@
    }
}

/// The permutation P of a block.
pub open spec fn permute_p(block: Seq<u8>) -> Seq<u8> {
    rows_block(
        rounds(block_rows(block), C_P@, shifts_p(block.len()), round_count(block.len())),
    )
}

/// The permutation Q of a block.
pub open spec fn permute_q(block: Seq<u8>) -> Seq<u8> {
    rows_block(
        rounds(block_rows(block), C_Q@, shifts_q(block.len()), round_count(block.len())),
    )
}

/// Bytewise exclusive or, over the length of `a`.
pub open spec fn xor_seq(a: Seq<u8>, b: Seq<u8>) -> Seq<u8> {
    Seq::new(a.len(), |i: int| a[i] ^ b[i])
}

/// The compression function: `P(h + m) + Q(m) + h`.
pub open spec fn compress(h: Seq<u8>, m: Seq<u8>) -> Seq<u8> {
    xor_seq(xor_seq(permute_p(xor_seq(h, m)), permute_q(m)), h)
}

/// The output transformation before truncation: `P(h) + h`.
pub open spec fn output_transform(h: Seq<u8>) -> Seq<u8> {
    xor_seq(permute_p(h), h)
}

/// The matrix of a block whose length is a multiple of eight has eight
/// rows of an eighth of that length.
pub proof fn lemma_block_rows_shape(block: Seq<u8>)
    ensures
        well_shaped(block_rows(block), block.len() / 8),
{
}

/// One round keeps the shape of the matrix.
pub proof fn lemma_round_shape(m: Seq<Seq<u8>>, table: Seq<u8>, shifts: Seq<u8>, r: u8, cols: nat)
    requires
        well_shaped(m, cols),
    ensures
        well_shaped(round(m, table, shifts, r), cols),
{
    let a = add_round_constant(m, table, r);
    assert(well_shaped(a, cols));
    let s = sub_bytes(a);
    assert(well_shaped(s, cols));
    let t = shift_bytes(s, shifts);
    assert(well_shaped(t, cols));
}

/// Any number of rounds keeps the shape of the matrix.
pub proof fn lemma_rounds_shape(
    m: Seq<Seq<u8>>,
    table: Seq<u8>,
    shifts: Seq<u8>,
    n: nat,
    cols: nat,
)
    requires
        well_shaped(m, cols),
    ensures
        well_shaped(rounds(m, table, shifts, n), cols),
    decreases n,
{
    if n > 0 {
        lemma_rounds_shape(m, table, shifts, (n - 1) as nat, cols);
        lemma_round_shape(
            rounds(m, table, shifts, (n - 1) as nat),
            table,
            shifts,
            (n - 1) as u8,
            cols,
        );
    }
}

/// Both permutations keep the length of a block that is a multiple of
/// eight bytes long.
pub proof fn lemma_permute_len(block: Seq<u8>)
    requires
        block.len() % 8 == 0,
    ensures
        permute_p(block).len() == block.len(),
        permute_q(block).len() == block.len(),
{
    let cols = block.len() / 8;
    lemma_block_rows_shape(block);
    lemma_rounds_shape(
        block_rows(block),
        C_P@,
        shifts_p(block.len()),
        round_count(block.len()),
        cols,
    );
    lemma_rounds_shape(
        block_rows(block),
        C_Q@,
        shifts_q(block.len()),
        round_count(block.len()),
        cols,
    );
}

/// Compression and the output transformation keep the length of the
/// chaining value.
pub proof fn lemma_compress_len(h: Seq<u8>, m: Seq<u8>)
    requires
        h.len() % 8 == 0,
    ensures
        compress(h, m).len() == h.len(),
        output_transform(h).len() == h.len(),
{
    lemma_permute_len(xor_seq(h, m));
    lemma_permute_len(h);
}

} // verus!
