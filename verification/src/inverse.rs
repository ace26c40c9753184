use vstd::prelude::*;
use vstd::arithmetic::div_mod::{lemma_fundamental_div_mod, lemma_mod_bound};
use crate::consts::{B, C_P, C_Q, SBOX};
use crate::laws::{
    lemma_block_round_trip,
    lemma_matrix_round_trip,
    lemma_rotate_compose,
    lemma_rotate_full_turns,
};
use crate::matrix::{mat_mul, well_shaped};
use crate::mds::{lemma_b_inverse, lemma_mat_mul_undoes, B_INV};
use crate::permutation::{
    add_round_constant,
    block_rows,
    lemma_block_rows_shape,
    lemma_rounds_shape,
    mix_bytes,
    permute_p,
    permute_q,
    round,
    round_count,
    rounds,
    rows_block,
    shift_bytes,
    shifts_p,
    shifts_q,
    sub_bytes,
};
use crate::rotation::rotate_left;

verus! {

/// The inverse of the substitution box: `INV_SBOX[SBOX[x]]` is `x`.
pub const INV_SBOX: [u8; 256] = [
    0x52, 0x09, 0x6a, 0xd5, 0x30, 0x36, 0xa5, 0x38, 0xbf, 0x40, 0xa3, 0x9e, 0x81, 0xf3, 0xd7, 0xfb,
    0x7c, 0xe3, 0x39, 0x82, 0x9b, 0x2f, 0xff, 0x87, 0x34, 0x8e, 0x43, 0x44, 0xc4, 0xde, 0xe9, 0xcb,
    0x54, 0x7b, 0x94, 0x32, 0xa6, 0xc2, 0x23, 0x3d, 0xee, 0x4c, 0x95, 0x0b, 0x42, 0xfa, 0xc3, 0x4e,
    0x08, 0x2e, 0xa1, 0x66, 0x28, 0xd9, 0x24, 0xb2, 0x76, 0x5b, 0xa2, 0x49, 0x6d, 0x8b, 0xd1, 0x25,
    0x72, 0xf8, 0xf6, 0x64, 0x86, 0x68, 0x98, 0x16, 0xd4, 0xa4, 0x5c, 0xcc, 0x5d, 0x65, 0xb6, 0x92,
    0x6c, 0x70, 0x48, 0x50, 0xfd, 0xed, 0xb9, 0xda, 0x5e, 0x15, 0x46, 0x57, 0xa7, 0x8d, 0x9d, 0x84,
    0x90, 0xd8, 0xab, 0x00, 0x8c, 0xbc, 0xd3, 0x0a, 0xf7, 0xe4, 0x58, 0x05, 0xb8, 0xb3, 0x45, 0x06,
    0xd0, 0x2c, 0x1e, 0x8f, 0xca, 0x3f, 0x0f, 0x02, 0xc1, 0xaf, 0xbd, 0x03, 0x01, 0x13, 0x8a, 0x6b,
    0x3a, 0x91, 0x11, 0x41, 0x4f, 0x67, 0xdc, 0xea, 0x97, 0xf2, 0xcf, 0xce, 0xf0, 0xb4, 0xe6, 0x73,
    0x96, 0xac, 0x74, 0x22, 0xe7, 0xad, 0x35, 0x85, 0xe2, 0xf9, 0x37, 0xe8, 0x1c, 0x75, 0xdf, 0x6e,
    0x47, 0xf1, 0x1a, 0x71, 0x1d, 0x29, 0xc5, 0x89, 0x6f, 0xb7, 0x62, 0x0e, 0xaa, 0x18, 0xbe, 0x1b,
    0xfc, 0x56, 0x3e, 0x4b, 0xc6, 0xd2, 0x79, 0x20, 0x9a, 0xdb, 0xc0, 0xfe, 0x78, 0xcd, 0x5a, 0xf4,
    0x1f, 0xdd, 0xa8, 0x33, 0x88, 0x07, 0xc7, 0x31, 0xb1, 0x12, 0x10, 0x59, 0x27, 0x80, 0xec, 0x5f,
    0x60, 0x51, 0x7f, 0xa9, 0x19, 0xb5, 0x4a, 0x0d, 0x2d, 0xe5, 0x7a, 0x9f, 0x93, 0xc9, 0x9c, 0xef,
    0xa0, 0xe0, 0x3b, 0x4d, 0xae, 0x2a, 0xf5, 0xb0, 0xc8, 0xeb, 0xbb, 0x3c, 0x83, 0x53, 0x99, 0x61,
    0x17, 0x2b, 0x04, 0x7e, 0xba, 0x77, 0xd6, 0x26, 0xe1, 0x69, 0x14, 0x63, 0x55, 0x21, 0x0c, 0x7d,
];

/// The two substitution tables undo each other.
pub proof fn lemma_sbox_inverse()
    ensures
        forall|x: u8| INV_SBOX[#[trigger] SBOX[x as int] as int] == x,
        forall|x: u8| SBOX[#[trigger] INV_SBOX[x as int] as int] == x,
{
}

/// The shift that turns a row of `cols` places back after a turn by `shift`.
pub open spec fn back_shift(cols: nat, shift: nat) -> nat {
    if cols == 0 {
        0
    } else {
        (cols - shift % cols) as nat
    }
}

/// SubBytes undone: every entry is sent through the inverse box.
pub open spec fn inv_sub_bytes(m: Seq<Seq<u8>>) -> Seq<Seq<u8>> {
    Seq::new(8, |i: int| Seq::new(m[i].len(), |j: int| INV_SBOX[m[i][j] as int]))
}

/// ShiftBytes undone: row `i` is turned on until it is back in place.
pub open spec fn inv_shift_bytes(m: Seq<Seq<u8>>, shifts: Seq<u8>) -> Seq<Seq<u8>> {
    Seq::new(8, |i: int| rotate_left(m[i], back_shift(m[i].len(), shifts[i] as nat)))
}

/// MixBytes undone: the matrix is multiplied from the left by `B_INV`.
pub open spec fn inv_mix_bytes(m: Seq<Seq<u8>>) -> Seq<Seq<u8>> {
    mat_mul(B_INV, m)
}

/// One round undone: its four steps undone in the opposite order.
pub open spec fn inv_round(m: Seq<Seq<u8>>, table: Seq<u8>, shifts: Seq<u8>, r: u8) -> Seq<
    Seq<u8>,
> {
    add_round_constant(inv_sub_bytes(inv_shift_bytes(inv_mix_bytes(m), shifts)), table, r)
}

/// The rounds numbered `n - 1` down to `0` undone, in that order.
pub open spec fn inv_rounds(m: Seq<Seq<u8>>, table: Seq<u8>, shifts: Seq<u8>, n: nat) -> Seq<
    Seq<u8>,
>
    decreases n,
{
    if n == 0 {
        m
    } else {
        inv_rounds(inv_round(m, table, shifts, (n - 1) as u8), table, shifts, (n - 1) as nat)
    }
}

/// The inverse of the permutation P.
pub open spec fn invert_p(block: Seq<u8>) -> Seq<u8> {
    rows_block(
        inv_rounds(block_rows(block), C_P@, shifts_p(block.len()), round_count(block.len())),
    )
}

/// The inverse of the permutation Q.
pub open spec fn invert_q(block: Seq<u8>) -> Seq<u8> {
    rows_block(
        inv_rounds(block_rows(block), C_Q@, shifts_q(block.len()), round_count(block.len())),
    )
}

/// Adding the same bytes twice gives the first byte again.
proof fn lemma_xor_cancel(x: u8, t: u8, r: u8)
    by (bit_vector)
    ensures
        (x ^ t) ^ t == x,
        (((x ^ t) ^ r) ^ t) ^ r == x,
{
}

/// AddRoundConstant is its own inverse.
pub proof fn lemma_add_round_constant_twice(m: Seq<Seq<u8>>, table: Seq<u8>, r: u8, cols: nat)
    requires
        well_shaped(m, cols),
    ensures
        add_round_constant(add_round_constant(m, table, r), table, r) == m,
{
    let once = add_round_constant(m, table, r);
    let twice = add_round_constant(once, table, r);
    assert forall|i: int| 0 <= i < 8 implies #[trigger] twice[i] == m[i] by {
        assert forall|j: int| 0 <= j < cols implies twice[i][j] == m[i][j] by {
            lemma_xor_cancel(m[i][j], table[i * 16 + j], r);
        }
        assert(twice[i] =~= m[i]);
    }
    assert(twice =~= m);
}

/// SubBytes and its inverse undo each other.
pub proof fn lemma_sub_bytes_undone(m: Seq<Seq<u8>>, cols: nat)
    requires
        well_shaped(m, cols),
    ensures
        inv_sub_bytes(sub_bytes(m)) == m,
        sub_bytes(inv_sub_bytes(m)) == m,
{
    lemma_sbox_inverse();
    let there = inv_sub_bytes(sub_bytes(m));
    let back = sub_bytes(inv_sub_bytes(m));
    assert forall|i: int| 0 <= i < 8 implies #[trigger] there[i] == m[i] by {
        assert(there[i] =~= m[i]);
    }
    assert forall|i: int| 0 <= i < 8 implies #[trigger] back[i] == m[i] by {
        assert(back[i] =~= m[i]);
    }
    assert(there =~= m);
    assert(back =~= m);
}

/// A turn and the turn back undo each other.
pub proof fn lemma_rotate_back(row: Seq<u8>, shift: nat)
    ensures
        rotate_left(rotate_left(row, shift), back_shift(row.len(), shift)) == row,
        rotate_left(rotate_left(row, back_shift(row.len(), shift)), shift) == row,
{
    let c = row.len();
    let back = back_shift(c, shift);
    if c > 0 {
        lemma_fundamental_div_mod(shift as int, c as int);
        lemma_mod_bound(shift as int, c as int);
        let turns = shift / c + 1;
        let q = (shift / c) as int;
        assert((q + 1) * c == c * q + c) by (nonlinear_arith);
        assert(shift + back == turns * c);
        lemma_rotate_compose(row, shift, back);
        lemma_rotate_compose(row, back, shift);
        lemma_rotate_full_turns(row, turns);
        assert(back + shift == shift + back);
    } else {
        assert(rotate_left(rotate_left(row, shift), back) =~= row);
        assert(rotate_left(rotate_left(row, back), shift) =~= row);
    }
}

/// ShiftBytes and its inverse undo each other.
pub proof fn lemma_shift_bytes_undone(m: Seq<Seq<u8>>, shifts: Seq<u8>, cols: nat)
    requires
        well_shaped(m, cols),
    ensures
        inv_shift_bytes(shift_bytes(m, shifts), shifts) == m,
        shift_bytes(inv_shift_bytes(m, shifts), shifts) == m,
{
    let there = inv_shift_bytes(shift_bytes(m, shifts), shifts);
    let back = shift_bytes(inv_shift_bytes(m, shifts), shifts);
    assert forall|i: int| 0 <= i < 8 implies #[trigger] there[i] == m[i] by {
        lemma_rotate_back(m[i], shifts[i] as nat);
    }
    assert forall|i: int| 0 <= i < 8 implies #[trigger] back[i] == m[i] by {
        lemma_rotate_back(m[i], shifts[i] as nat);
    }
    assert(there =~= m);
    assert(back =~= m);
}

/// MixBytes and its inverse undo each other.
pub proof fn lemma_mix_bytes_undone(m: Seq<Seq<u8>>, cols: nat)
    requires
        well_shaped(m, cols),
    ensures
        inv_mix_bytes(mix_bytes(m)) == m,
        mix_bytes(inv_mix_bytes(m)) == m,
{
    lemma_b_inverse();
    lemma_mat_mul_undoes(B_INV, B, m, cols);
    lemma_mat_mul_undoes(B, B_INV, m, cols);
}

/// One round undone keeps the shape of the matrix.
pub proof fn lemma_inv_round_shape(
    m: Seq<Seq<u8>>,
    table: Seq<u8>,
    shifts: Seq<u8>,
    r: u8,
    cols: nat,
)
    requires
        well_shaped(m, cols),
    ensures
        well_shaped(inv_round(m, table, shifts, r), cols),
{
    let a = inv_mix_bytes(m);
    assert(well_shaped(a, cols));
    let s = inv_shift_bytes(a, shifts);
    assert(well_shaped(s, cols));
    let t = inv_sub_bytes(s);
    assert(well_shaped(t, cols));
}

/// Any number of rounds undone keeps the shape of the matrix.
pub proof fn lemma_inv_rounds_shape(
    m: Seq<Seq<u8>>,
    table: Seq<u8>,
    shifts: Seq<u8>,
    n: nat,
    cols: nat,
)
    requires
        well_shaped(m, cols),
    ensures
        well_shaped(inv_rounds(m, table, shifts, n), cols),
    decreases n,
{
    if n > 0 {
        lemma_inv_round_shape(m, table, shifts, (n - 1) as u8, cols);
        lemma_inv_rounds_shape(
            inv_round(m, table, shifts, (n - 1) as u8),
            table,
            shifts,
            (n - 1) as nat,
            cols,
        );
    }
}

/// A round and the round undone undo each other.
pub proof fn lemma_round_undone(
    m: Seq<Seq<u8>>,
    table: Seq<u8>,
    shifts: Seq<u8>,
    r: u8,
    cols: nat,
)
    requires
        well_shaped(m, cols),
    ensures
        inv_round(round(m, table, shifts, r), table, shifts, r) == m,
        round(inv_round(m, table, shifts, r), table, shifts, r) == m,
{
    let x1 = add_round_constant(m, table, r);
    assert(well_shaped(x1, cols));
    let x2 = sub_bytes(x1);
    assert(well_shaped(x2, cols));
    let x3 = shift_bytes(x2, shifts);
    assert(well_shaped(x3, cols));
    lemma_mix_bytes_undone(x3, cols);
    lemma_shift_bytes_undone(x2, shifts, cols);
    lemma_sub_bytes_undone(x1, cols);
    lemma_add_round_constant_twice(m, table, r, cols);

    let y1 = inv_mix_bytes(m);
    assert(well_shaped(y1, cols));
    let y2 = inv_shift_bytes(y1, shifts);
    assert(well_shaped(y2, cols));
    let y3 = inv_sub_bytes(y2);
    assert(well_shaped(y3, cols));
    lemma_add_round_constant_twice(y3, table, r, cols);
    lemma_sub_bytes_undone(y2, cols);
    lemma_shift_bytes_undone(y1, shifts, cols);
    lemma_mix_bytes_undone(m, cols);
}

/// The rounds undone undo the rounds.
pub proof fn lemma_rounds_then_back(
    m: Seq<Seq<u8>>,
    table: Seq<u8>,
    shifts: Seq<u8>,
    n: nat,
    cols: nat,
)
    requires
        well_shaped(m, cols),
    ensures
        inv_rounds(rounds(m, table, shifts, n), table, shifts, n) == m,
    decreases n,
{
    if n > 0 {
        let before = rounds(m, table, shifts, (n - 1) as nat);
        lemma_rounds_shape(m, table, shifts, (n - 1) as nat, cols);
        lemma_round_undone(before, table, shifts, (n - 1) as u8, cols);
        lemma_rounds_then_back(m, table, shifts, (n - 1) as nat, cols);
    }
}

/// The rounds undo the rounds undone.
pub proof fn lemma_back_then_rounds(
    m: Seq<Seq<u8>>,
    table: Seq<u8>,
    shifts: Seq<u8>,
    n: nat,
    cols: nat,
)
    requires
        well_shaped(m, cols),
    ensures
        rounds(inv_rounds(m, table, shifts, n), table, shifts, n) == m,
    decreases n,
{
    if n > 0 {
        let last = inv_round(m, table, shifts, (n - 1) as u8);
        lemma_inv_round_shape(m, table, shifts, (n - 1) as u8, cols);
        lemma_back_then_rounds(last, table, shifts, (n - 1) as nat, cols);
        lemma_round_undone(m, table, shifts, (n - 1) as u8, cols);
    }
}

/// P and Q are one-to-one and onto the blocks of each length that is a
/// multiple of eight: `invert_p` undoes P and P undoes `invert_p`, and
/// likewise for Q, and all four keep the length of the block.
pub proof fn lemma_permutations_bijective(block: Seq<u8>)
    requires
        block.len() % 8 == 0,
    ensures
        invert_p(permute_p(block)) == block,
        permute_p(invert_p(block)) == block,
        invert_q(permute_q(block)) == block,
        permute_q(invert_q(block)) == block,
        permute_p(block).len() == block.len(),
        permute_q(block).len() == block.len(),
        invert_p(block).len() == block.len(),
        invert_q(block).len() == block.len(),
{
    let len = block.len();
    let cols = len / 8;
    let n = round_count(len);
    let m = block_rows(block);
    lemma_block_rows_shape(block);
    lemma_block_round_trip(block);

    let sp = shifts_p(len);
    let fp = rounds(m, C_P@, sp, n);
    lemma_rounds_shape(m, C_P@, sp, n, cols);
    lemma_matrix_round_trip(fp, cols);
    lemma_rounds_then_back(m, C_P@, sp, n, cols);
    let bp = inv_rounds(m, C_P@, sp, n);
    lemma_inv_rounds_shape(m, C_P@, sp, n, cols);
    lemma_matrix_round_trip(bp, cols);
    lemma_back_then_rounds(m, C_P@, sp, n, cols);
    assert(rows_block(fp).len() == len);
    assert(rows_block(bp).len() == len);

    let sq = shifts_q(len);
    let fq = rounds(m, C_Q@, sq, n);
    lemma_rounds_shape(m, C_Q@, sq, n, cols);
    lemma_matrix_round_trip(fq, cols);
    lemma_rounds_then_back(m, C_Q@, sq, n, cols);
    let bq = inv_rounds(m, C_Q@, sq, n);
    lemma_inv_rounds_shape(m, C_Q@, sq, n, cols);
    lemma_matrix_round_trip(bq, cols);
    lemma_back_then_rounds(m, C_Q@, sq, n, cols);
    assert(rows_block(fq).len() == len);
    assert(rows_block(bq).len() == len);
}

/// Two blocks of one length with the same image under P, or under Q, are
/// the same block.
pub proof fn lemma_permutations_injective(a: Seq<u8>, b: Seq<u8>)
    requires
        a.len() % 8 == 0,
        b.len() % 8 == 0,
    ensures
        permute_p(a) == permute_p(b) ==> a == b,
        permute_q(a) == permute_q(b) ==> a == b,
{
    lemma_permutations_bijective(a);
    lemma_permutations_bijective(b);
}

} // verus!
