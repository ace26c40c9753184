use vstd::prelude::*;
use crate::consts::B;
use crate::field::{gf_mul, lemma_xor_zero, xtime};
use crate::matrix::{dot, mat_mul, well_shaped};

verus! {

/// The inverse of the MixBytes matrix over GF(2^8): the circulant whose
/// first row is (0x13, 0x5a, 0x54, 0x72, 0x50, 0xdf, 0x45, 0x53).
pub const B_INV: [[u8; 8]; 8] = [
    [0x13, 0x5a, 0x54, 0x72, 0x50, 0xdf, 0x45, 0x53],
    [0x53, 0x13, 0x5a, 0x54, 0x72, 0x50, 0xdf, 0x45],
    [0x45, 0x53, 0x13, 0x5a, 0x54, 0x72, 0x50, 0xdf],
    [0xdf, 0x45, 0x53, 0x13, 0x5a, 0x54, 0x72, 0x50],
    [0x50, 0xdf, 0x45, 0x53, 0x13, 0x5a, 0x54, 0x72],
    [0x72, 0x50, 0xdf, 0x45, 0x53, 0x13, 0x5a, 0x54],
    [0x54, 0x72, 0x50, 0xdf, 0x45, 0x53, 0x13, 0x5a],
    [0x5a, 0x54, 0x72, 0x50, 0xdf, 0x45, 0x53, 0x13],
];

/// Multiplication by x is additive.
pub proof fn lemma_xtime_linear(a: u8, b: u8)
    by (bit_vector)
    ensures
        xtime(a ^ b) == xtime(a) ^ xtime(b),
        xtime(0u8) == 0u8,
{
}

/// Two sums of two are added term by term.
pub proof fn lemma_xor_pairs(p: u8, q: u8, r: u8, s: u8)
    by (bit_vector)
    ensures
        (p ^ q) ^ (r ^ s) == (p ^ r) ^ (q ^ s),
{
}

/// The product with a fixed element is additive in the other factor.
pub proof fn lemma_gf_mul_linear(a: u8, b: u8, c: u8)
    ensures
        gf_mul(a ^ b, c) == gf_mul(a, c) ^ gf_mul(b, c),
    decreases c,
{
    lemma_xor_zero(0u8);
    if c != 0 {
        lemma_xtime_linear(a, b);
        lemma_gf_mul_linear(xtime(a), xtime(b), c / 2);
        let ga = gf_mul(xtime(a), c / 2);
        let gb = gf_mul(xtime(b), c / 2);
        if c % 2 == 1 {
            lemma_xor_pairs(a, b, ga, gb);
        } else {
            lemma_xor_pairs(0u8, 0u8, ga, gb);
        }
    }
}

/// The product of zero with anything is zero.
pub proof fn lemma_gf_mul_zero(c: u8)
    ensures
        gf_mul(0u8, c) == 0u8,
    decreases c,
{
    lemma_xor_zero(0u8);
    if c != 0 {
        lemma_xtime_linear(0u8, 0u8);
        lemma_gf_mul_zero(c / 2);
    }
}

/// The sum over `k < n` of `x * b[k][t] * a[i][k]`: what the entry `x` at
/// row `t` of a column adds to row `i` of the column once it has been
/// multiplied by `b` and then by `a`.
pub open spec fn unit_sum(a: [[u8; 8]; 8], b: [[u8; 8]; 8], i: int, t: int, x: u8, n: nat) -> u8
    decreases n,
{
    if n == 0 {
        0u8
    } else {
        unit_sum(a, b, i, t, x, (n - 1) as nat) ^ gf_mul(gf_mul(x, b[n - 1][t]), a[i][n - 1])
    }
}

/// The product `a * b` is the unit matrix: an entry comes back in its own
/// row and in no other.
pub open spec fn undoes(a: [[u8; 8]; 8], b: [[u8; 8]; 8]) -> bool {
    forall|i: int, t: int, x: u8|
        0 <= i < 8 && 0 <= t < 8 ==> #[trigger] unit_sum(a, b, i, t, x, 8) == (if i == t {
            x
        } else {
            0u8
        })
}

/// The entries of `B_INV * B`, applied to a byte `x`.
proof fn lemma_unit_sums_left(x: u8)
    by (bit_vector)
    ensures
        0u8 ^ gf_mul(gf_mul(x, 0x02), 0x13) ^ gf_mul(gf_mul(x, 0x07), 0x5a) ^ gf_mul(gf_mul(x, 0x05), 0x54) ^ gf_mul(gf_mul(x, 0x03), 0x72) ^ gf_mul(gf_mul(x, 0x05), 0x50) ^ gf_mul(gf_mul(x, 0x04), 0xdf) ^ gf_mul(gf_mul(x, 0x03), 0x45) ^ gf_mul(gf_mul(x, 0x02), 0x53) == x,
        0u8 ^ gf_mul(gf_mul(x, 0x02), 0x13) ^ gf_mul(gf_mul(x, 0x02), 0x5a) ^ gf_mul(gf_mul(x, 0x07), 0x54) ^ gf_mul(gf_mul(x, 0x05), 0x72) ^ gf_mul(gf_mul(x, 0x03), 0x50) ^ gf_mul(gf_mul(x, 0x05), 0xdf) ^ gf_mul(gf_mul(x, 0x04), 0x45) ^ gf_mul(gf_mul(x, 0x03), 0x53) == 0u8,
        0u8 ^ gf_mul(gf_mul(x, 0x03), 0x13) ^ gf_mul(gf_mul(x, 0x02), 0x5a) ^ gf_mul(gf_mul(x, 0x02), 0x54) ^ gf_mul(gf_mul(x, 0x07), 0x72) ^ gf_mul(gf_mul(x, 0x05), 0x50) ^ gf_mul(gf_mul(x, 0x03), 0xdf) ^ gf_mul(gf_mul(x, 0x05), 0x45) ^ gf_mul(gf_mul(x, 0x04), 0x53) == 0u8,
        0u8 ^ gf_mul(gf_mul(x, 0x04), 0x13) ^ gf_mul(gf_mul(x, 0x03), 0x5a) ^ gf_mul(gf_mul(x, 0x02), 0x54) ^ gf_mul(gf_mul(x, 0x02), 0x72) ^ gf_mul(gf_mul(x, 0x07), 0x50) ^ gf_mul(gf_mul(x, 0x05), 0xdf) ^ gf_mul(gf_mul(x, 0x03), 0x45) ^ gf_mul(gf_mul(x, 0x05), 0x53) == 0u8,
        0u8 ^ gf_mul(gf_mul(x, 0x05), 0x13) ^ gf_mul(gf_mul(x, 0x04), 0x5a) ^ gf_mul(gf_mul(x, 0x03), 0x54) ^ gf_mul(gf_mul(x, 0x02), 0x72) ^ gf_mul(gf_mul(x, 0x02), 0x50) ^ gf_mul(gf_mul(x, 0x07), 0xdf) ^ gf_mul(gf_mul(x, 0x05), 0x45) ^ gf_mul(gf_mul(x, 0x03), 0x53) == 0u8,
        0u8 ^ gf_mul(gf_mul(x, 0x03), 0x13) ^ gf_mul(gf_mul(x, 0x05), 0x5a) ^ gf_mul(gf_mul(x, 0x04), 0x54) ^ gf_mul(gf_mul(x, 0x03), 0x72) ^ gf_mul(gf_mul(x, 0x02), 0x50) ^ gf_mul(gf_mul(x, 0x02), 0xdf) ^ gf_mul(gf_mul(x, 0x07), 0x45) ^ gf_mul(gf_mul(x, 0x05), 0x53) == 0u8,
        0u8 ^ gf_mul(gf_mul(x, 0x05), 0x13) ^ gf_mul(gf_mul(x, 0x03), 0x5a) ^ gf_mul(gf_mul(x, 0x05), 0x54) ^ gf_mul(gf_mul(x, 0x04), 0x72) ^ gf_mul(gf_mul(x, 0x03), 0x50) ^ gf_mul(gf_mul(x, 0x02), 0xdf) ^ gf_mul(gf_mul(x, 0x02), 0x45) ^ gf_mul(gf_mul(x, 0x07), 0x53) == 0u8,
        0u8 ^ gf_mul(gf_mul(x, 0x07), 0x13) ^ gf_mul(gf_mul(x, 0x05), 0x5a) ^ gf_mul(gf_mul(x, 0x03), 0x54) ^ gf_mul(gf_mul(x, 0x05), 0x72) ^ gf_mul(gf_mul(x, 0x04), 0x50) ^ gf_mul(gf_mul(x, 0x03), 0xdf) ^ gf_mul(gf_mul(x, 0x02), 0x45) ^ gf_mul(gf_mul(x, 0x02), 0x53) == 0u8,
        0u8 ^ gf_mul(gf_mul(x, 0x02), 0x53) ^ gf_mul(gf_mul(x, 0x07), 0x13) ^ gf_mul(gf_mul(x, 0x05), 0x5a) ^ gf_mul(gf_mul(x, 0x03), 0x54) ^ gf_mul(gf_mul(x, 0x05), 0x72) ^ gf_mul(gf_mul(x, 0x04), 0x50) ^ gf_mul(gf_mul(x, 0x03), 0xdf) ^ gf_mul(gf_mul(x, 0x02), 0x45) == 0u8,
        0u8 ^ gf_mul(gf_mul(x, 0x02), 0x53) ^ gf_mul(gf_mul(x, 0x02), 0x13) ^ gf_mul(gf_mul(x, 0x07), 0x5a) ^ gf_mul(gf_mul(x, 0x05), 0x54) ^ gf_mul(gf_mul(x, 0x03), 0x72) ^ gf_mul(gf_mul(x, 0x05), 0x50) ^ gf_mul(gf_mul(x, 0x04), 0xdf) ^ gf_mul(gf_mul(x, 0x03), 0x45) == x,
        0u8 ^ gf_mul(gf_mul(x, 0x03), 0x53) ^ gf_mul(gf_mul(x, 0x02), 0x13) ^ gf_mul(gf_mul(x, 0x02), 0x5a) ^ gf_mul(gf_mul(x, 0x07), 0x54) ^ gf_mul(gf_mul(x, 0x05), 0x72) ^ gf_mul(gf_mul(x, 0x03), 0x50) ^ gf_mul(gf_mul(x, 0x05), 0xdf) ^ gf_mul(gf_mul(x, 0x04), 0x45) == 0u8,
        0u8 ^ gf_mul(gf_mul(x, 0x04), 0x53) ^ gf_mul(gf_mul(x, 0x03), 0x13) ^ gf_mul(gf_mul(x, 0x02), 0x5a) ^ gf_mul(gf_mul(x, 0x02), 0x54) ^ gf_mul(gf_mul(x, 0x07), 0x72) ^ gf_mul(gf_mul(x, 0x05), 0x50) ^ gf_mul(gf_mul(x, 0x03), 0xdf) ^ gf_mul(gf_mul(x, 0x05), 0x45) == 0u8,
        0u8 ^ gf_mul(gf_mul(x, 0x05), 0x53) ^ gf_mul(gf_mul(x, 0x04), 0x13) ^ gf_mul(gf_mul(x, 0x03), 0x5a) ^ gf_mul(gf_mul(x, 0x02), 0x54) ^ gf_mul(gf_mul(x, 0x02), 0x72) ^ gf_mul(gf_mul(x, 0x07), 0x50) ^ gf_mul(gf_mul(x, 0x05), 0xdf) ^ gf_mul(gf_mul(x, 0x03), 0x45) == 0u8,
        0u8 ^ gf_mul(gf_mul(x, 0x03), 0x53) ^ gf_mul(gf_mul(x, 0x05), 0x13) ^ gf_mul(gf_mul(x, 0x04), 0x5a) ^ gf_mul(gf_mul(x, 0x03), 0x54) ^ gf_mul(gf_mul(x, 0x02), 0x72) ^ gf_mul(gf_mul(x, 0x02), 0x50) ^ gf_mul(gf_mul(x, 0x07), 0xdf) ^ gf_mul(gf_mul(x, 0x05), 0x45) == 0u8,
        0u8 ^ gf_mul(gf_mul(x, 0x05), 0x53) ^ gf_mul(gf_mul(x, 0x03), 0x13) ^ gf_mul(gf_mul(x, 0x05), 0x5a) ^ gf_mul(gf_mul(x, 0x04), 0x54) ^ gf_mul(gf_mul(x, 0x03), 0x72) ^ gf_mul(gf_mul(x, 0x02), 0x50) ^ gf_mul(gf_mul(x, 0x02), 0xdf) ^ gf_mul(gf_mul(x, 0x07), 0x45) == 0u8,
        0u8 ^ gf_mul(gf_mul(x, 0x07), 0x53) ^ gf_mul(gf_mul(x, 0x05), 0x13) ^ gf_mul(gf_mul(x, 0x03), 0x5a) ^ gf_mul(gf_mul(x, 0x05), 0x54) ^ gf_mul(gf_mul(x, 0x04), 0x72) ^ gf_mul(gf_mul(x, 0x03), 0x50) ^ gf_mul(gf_mul(x, 0x02), 0xdf) ^ gf_mul(gf_mul(x, 0x02), 0x45) == 0u8,
        0u8 ^ gf_mul(gf_mul(x, 0x02), 0x45) ^ gf_mul(gf_mul(x, 0x07), 0x53) ^ gf_mul(gf_mul(x, 0x05), 0x13) ^ gf_mul(gf_mul(x, 0x03), 0x5a) ^ gf_mul(gf_mul(x, 0x05), 0x54) ^ gf_mul(gf_mul(x, 0x04), 0x72) ^ gf_mul(gf_mul(x, 0x03), 0x50) ^ gf_mul(gf_mul(x, 0x02), 0xdf) == 0u8,
        0u8 ^ gf_mul(gf_mul(x, 0x02), 0x45) ^ gf_mul(gf_mul(x, 0x02), 0x53) ^ gf_mul(gf_mul(x, 0x07), 0x13) ^ gf_mul(gf_mul(x, 0x05), 0x5a) ^ gf_mul(gf_mul(x, 0x03), 0x54) ^ gf_mul(gf_mul(x, 0x05), 0x72) ^ gf_mul(gf_mul(x, 0x04), 0x50) ^ gf_mul(gf_mul(x, 0x03), 0xdf) == 0u8,
        0u8 ^ gf_mul(gf_mul(x, 0x03), 0x45) ^ gf_mul(gf_mul(x, 0x02), 0x53) ^ gf_mul(gf_mul(x, 0x02), 0x13) ^ gf_mul(gf_mul(x, 0x07), 0x5a) ^ gf_mul(gf_mul(x, 0x05), 0x54) ^ gf_mul(gf_mul(x, 0x03), 0x72) ^ gf_mul(gf_mul(x, 0x05), 0x50) ^ gf_mul(gf_mul(x, 0x04), 0xdf) == x,
        0u8 ^ gf_mul(gf_mul(x, 0x04), 0x45) ^ gf_mul(gf_mul(x, 0x03), 0x53) ^ gf_mul(gf_mul(x, 0x02), 0x13) ^ gf_mul(gf_mul(x, 0x02), 0x5a) ^ gf_mul(gf_mul(x, 0x07), 0x54) ^ gf_mul(gf_mul(x, 0x05), 0x72) ^ gf_mul(gf_mul(x, 0x03), 0x50) ^ gf_mul(gf_mul(x, 0x05), 0xdf) == 0u8,
        0u8 ^ gf_mul(gf_mul(x, 0x05), 0x45) ^ gf_mul(gf_mul(x, 0x04), 0x53) ^ gf_mul(gf_mul(x, 0x03), 0x13) ^ gf_mul(gf_mul(x, 0x02), 0x5a) ^ gf_mul(gf_mul(x, 0x02), 0x54) ^ gf_mul(gf_mul(x, 0x07), 0x72) ^ gf_mul(gf_mul(x, 0x05), 0x50) ^ gf_mul(gf_mul(x, 0x03), 0xdf) == 0u8,
        0u8 ^ gf_mul(gf_mul(x, 0x03), 0x45) ^ gf_mul(gf_mul(x, 0x05), 0x53) ^ gf_mul(gf_mul(x, 0x04), 0x13) ^ gf_mul(gf_mul(x, 0x03), 0x5a) ^ gf_mul(gf_mul(x, 0x02), 0x54) ^ gf_mul(gf_mul(x, 0x02), 0x72) ^ gf_mul(gf_mul(x, 0x07), 0x50) ^ gf_mul(gf_mul(x, 0x05), 0xdf) == 0u8,
        0u8 ^ gf_mul(gf_mul(x, 0x05), 0x45) ^ gf_mul(gf_mul(x, 0x03), 0x53) ^ gf_mul(gf_mul(x, 0x05), 0x13) ^ gf_mul(gf_mul(x, 0x04), 0x5a) ^ gf_mul(gf_mul(x, 0x03), 0x54) ^ gf_mul(gf_mul(x, 0x02), 0x72) ^ gf_mul(gf_mul(x, 0x02), 0x50) ^ gf_mul(gf_mul(x, 0x07), 0xdf) == 0u8,
        0u8 ^ gf_mul(gf_mul(x, 0x07), 0x45) ^ gf_mul(gf_mul(x, 0x05), 0x53) ^ gf_mul(gf_mul(x, 0x03), 0x13) ^ gf_mul(gf_mul(x, 0x05), 0x5a) ^ gf_mul(gf_mul(x, 0x04), 0x54) ^ gf_mul(gf_mul(x, 0x03), 0x72) ^ gf_mul(gf_mul(x, 0x02), 0x50) ^ gf_mul(gf_mul(x, 0x02), 0xdf) == 0u8,
        0u8 ^ gf_mul(gf_mul(x, 0x02), 0xdf) ^ gf_mul(gf_mul(x, 0x07), 0x45) ^ gf_mul(gf_mul(x, 0x05), 0x53) ^ gf_mul(gf_mul(x, 0x03), 0x13) ^ gf_mul(gf_mul(x, 0x05), 0x5a) ^ gf_mul(gf_mul(x, 0x04), 0x54) ^ gf_mul(gf_mul(x, 0x03), 0x72) ^ gf_mul(gf_mul(x, 0x02), 0x50) == 0u8,
        0u8 ^ gf_mul(gf_mul(x, 0x02), 0xdf) ^ gf_mul(gf_mul(x, 0x02), 0x45) ^ gf_mul(gf_mul(x, 0x07), 0x53) ^ gf_mul(gf_mul(x, 0x05), 0x13) ^ gf_mul(gf_mul(x, 0x03), 0x5a) ^ gf_mul(gf_mul(x, 0x05), 0x54) ^ gf_mul(gf_mul(x, 0x04), 0x72) ^ gf_mul(gf_mul(x, 0x03), 0x50) == 0u8,
        0u8 ^ gf_mul(gf_mul(x, 0x03), 0xdf) ^ gf_mul(gf_mul(x, 0x02), 0x45) ^ gf_mul(gf_mul(x, 0x02), 0x53) ^ gf_mul(gf_mul(x, 0x07), 0x13) ^ gf_mul(gf_mul(x, 0x05), 0x5a) ^ gf_mul(gf_mul(x, 0x03), 0x54) ^ gf_mul(gf_mul(x, 0x05), 0x72) ^ gf_mul(gf_mul(x, 0x04), 0x50) == 0u8,
        0u8 ^ gf_mul(gf_mul(x, 0x04), 0xdf) ^ gf_mul(gf_mul(x, 0x03), 0x45) ^ gf_mul(gf_mul(x, 0x02), 0x53) ^ gf_mul(gf_mul(x, 0x02), 0x13) ^ gf_mul(gf_mul(x, 0x07), 0x5a) ^ gf_mul(gf_mul(x, 0x05), 0x54) ^ gf_mul(gf_mul(x, 0x03), 0x72) ^ gf_mul(gf_mul(x, 0x05), 0x50) == x,
        0u8 ^ gf_mul(gf_mul(x, 0x05), 0xdf) ^ gf_mul(gf_mul(x, 0x04), 0x45) ^ gf_mul(gf_mul(x, 0x03), 0x53) ^ gf_mul(gf_mul(x, 0x02), 0x13) ^ gf_mul(gf_mul(x, 0x02), 0x5a) ^ gf_mul(gf_mul(x, 0x07), 0x54) ^ gf_mul(gf_mul(x, 0x05), 0x72) ^ gf_mul(gf_mul(x, 0x03), 0x50) == 0u8,
        0u8 ^ gf_mul(gf_mul(x, 0x03), 0xdf) ^ gf_mul(gf_mul(x, 0x05), 0x45) ^ gf_mul(gf_mul(x, 0x04), 0x53) ^ gf_mul(gf_mul(x, 0x03), 0x13) ^ gf_mul(gf_mul(x, 0x02), 0x5a) ^ gf_mul(gf_mul(x, 0x02), 0x54) ^ gf_mul(gf_mul(x, 0x07), 0x72) ^ gf_mul(gf_mul(x, 0x05), 0x50) == 0u8,
        0u8 ^ gf_mul(gf_mul(x, 0x05), 0xdf) ^ gf_mul(gf_mul(x, 0x03), 0x45) ^ gf_mul(gf_mul(x, 0x05), 0x53) ^ gf_mul(gf_mul(x, 0x04), 0x13) ^ gf_mul(gf_mul(x, 0x03), 0x5a) ^ gf_mul(gf_mul(x, 0x02), 0x54) ^ gf_mul(gf_mul(x, 0x02), 0x72) ^ gf_mul(gf_mul(x, 0x07), 0x50) == 0u8,
        0u8 ^ gf_mul(gf_mul(x, 0x07), 0xdf) ^ gf_mul(gf_mul(x, 0x05), 0x45) ^ gf_mul(gf_mul(x, 0x03), 0x53) ^ gf_mul(gf_mul(x, 0x05), 0x13) ^ gf_mul(gf_mul(x, 0x04), 0x5a) ^ gf_mul(gf_mul(x, 0x03), 0x54) ^ gf_mul(gf_mul(x, 0x02), 0x72) ^ gf_mul(gf_mul(x, 0x02), 0x50) == 0u8,
        0u8 ^ gf_mul(gf_mul(x, 0x02), 0x50) ^ gf_mul(gf_mul(x, 0x07), 0xdf) ^ gf_mul(gf_mul(x, 0x05), 0x45) ^ gf_mul(gf_mul(x, 0x03), 0x53) ^ gf_mul(gf_mul(x, 0x05), 0x13) ^ gf_mul(gf_mul(x, 0x04), 0x5a) ^ gf_mul(gf_mul(x, 0x03), 0x54) ^ gf_mul(gf_mul(x, 0x02), 0x72) == 0u8,
        0u8 ^ gf_mul(gf_mul(x, 0x02), 0x50) ^ gf_mul(gf_mul(x, 0x02), 0xdf) ^ gf_mul(gf_mul(x, 0x07), 0x45) ^ gf_mul(gf_mul(x, 0x05), 0x53) ^ gf_mul(gf_mul(x, 0x03), 0x13) ^ gf_mul(gf_mul(x, 0x05), 0x5a) ^ gf_mul(gf_mul(x, 0x04), 0x54) ^ gf_mul(gf_mul(x, 0x03), 0x72) == 0u8,
        0u8 ^ gf_mul(gf_mul(x, 0x03), 0x50) ^ gf_mul(gf_mul(x, 0x02), 0xdf) ^ gf_mul(gf_mul(x, 0x02), 0x45) ^ gf_mul(gf_mul(x, 0x07), 0x53) ^ gf_mul(gf_mul(x, 0x05), 0x13) ^ gf_mul(gf_mul(x, 0x03), 0x5a) ^ gf_mul(gf_mul(x, 0x05), 0x54) ^ gf_mul(gf_mul(x, 0x04), 0x72) == 0u8,
        0u8 ^ gf_mul(gf_mul(x, 0x04), 0x50) ^ gf_mul(gf_mul(x, 0x03), 0xdf) ^ gf_mul(gf_mul(x, 0x02), 0x45) ^ gf_mul(gf_mul(x, 0x02), 0x53) ^ gf_mul(gf_mul(x, 0x07), 0x13) ^ gf_mul(gf_mul(x, 0x05), 0x5a) ^ gf_mul(gf_mul(x, 0x03), 0x54) ^ gf_mul(gf_mul(x, 0x05), 0x72) == 0u8,
        0u8 ^ gf_mul(gf_mul(x, 0x05), 0x50) ^ gf_mul(gf_mul(x, 0x04), 0xdf) ^ gf_mul(gf_mul(x, 0x03), 0x45) ^ gf_mul(gf_mul(x, 0x02), 0x53) ^ gf_mul(gf_mul(x, 0x02), 0x13) ^ gf_mul(gf_mul(x, 0x07), 0x5a) ^ gf_mul(gf_mul(x, 0x05), 0x54) ^ gf_mul(gf_mul(x, 0x03), 0x72) == x,
        0u8 ^ gf_mul(gf_mul(x, 0x03), 0x50) ^ gf_mul(gf_mul(x, 0x05), 0xdf) ^ gf_mul(gf_mul(x, 0x04), 0x45) ^ gf_mul(gf_mul(x, 0x03), 0x53) ^ gf_mul(gf_mul(x, 0x02), 0x13) ^ gf_mul(gf_mul(x, 0x02), 0x5a) ^ gf_mul(gf_mul(x, 0x07), 0x54) ^ gf_mul(gf_mul(x, 0x05), 0x72) == 0u8,
        0u8 ^ gf_mul(gf_mul(x, 0x05), 0x50) ^ gf_mul(gf_mul(x, 0x03), 0xdf) ^ gf_mul(gf_mul(x, 0x05), 0x45) ^ gf_mul(gf_mul(x, 0x04), 0x53) ^ gf_mul(gf_mul(x, 0x03), 0x13) ^ gf_mul(gf_mul(x, 0x02), 0x5a) ^ gf_mul(gf_mul(x, 0x02), 0x54) ^ gf_mul(gf_mul(x, 0x07), 0x72) == 0u8,
        0u8 ^ gf_mul(gf_mul(x, 0x07), 0x50) ^ gf_mul(gf_mul(x, 0x05), 0xdf) ^ gf_mul(gf_mul(x, 0x03), 0x45) ^ gf_mul(gf_mul(x, 0x05), 0x53) ^ gf_mul(gf_mul(x, 0x04), 0x13) ^ gf_mul(gf_mul(x, 0x03), 0x5a) ^ gf_mul(gf_mul(x, 0x02), 0x54) ^ gf_mul(gf_mul(x, 0x02), 0x72) == 0u8,
        0u8 ^ gf_mul(gf_mul(x, 0x02), 0x72) ^ gf_mul(gf_mul(x, 0x07), 0x50) ^ gf_mul(gf_mul(x, 0x05), 0xdf) ^ gf_mul(gf_mul(x, 0x03), 0x45) ^ gf_mul(gf_mul(x, 0x05), 0x53) ^ gf_mul(gf_mul(x, 0x04), 0x13) ^ gf_mul(gf_mul(x, 0x03), 0x5a) ^ gf_mul(gf_mul(x, 0x02), 0x54) == 0u8,
        0u8 ^ gf_mul(gf_mul(x, 0x02), 0x72) ^ gf_mul(gf_mul(x, 0x02), 0x50) ^ gf_mul(gf_mul(x, 0x07), 0xdf) ^ gf_mul(gf_mul(x, 0x05), 0x45) ^ gf_mul(gf_mul(x, 0x03), 0x53) ^ gf_mul(gf_mul(x, 0x05), 0x13) ^ gf_mul(gf_mul(x, 0x04), 0x5a) ^ gf_mul(gf_mul(x, 0x03), 0x54) == 0u8,
        0u8 ^ gf_mul(gf_mul(x, 0x03), 0x72) ^ gf_mul(gf_mul(x, 0x02), 0x50) ^ gf_mul(gf_mul(x, 0x02), 0xdf) ^ gf_mul(gf_mul(x, 0x07), 0x45) ^ gf_mul(gf_mul(x, 0x05), 0x53) ^ gf_mul(gf_mul(x, 0x03), 0x13) ^ gf_mul(gf_mul(x, 0x05), 0x5a) ^ gf_mul(gf_mul(x, 0x04), 0x54) == 0u8,
        0u8 ^ gf_mul(gf_mul(x, 0x04), 0x72) ^ gf_mul(gf_mul(x, 0x03), 0x50) ^ gf_mul(gf_mul(x, 0x02), 0xdf) ^ gf_mul(gf_mul(x, 0x02), 0x45) ^ gf_mul(gf_mul(x, 0x07), 0x53) ^ gf_mul(gf_mul(x, 0x05), 0x13) ^ gf_mul(gf_mul(x, 0x03), 0x5a) ^ gf_mul(gf_mul(x, 0x05), 0x54) == 0u8,
        0u8 ^ gf_mul(gf_mul(x, 0x05), 0x72) ^ gf_mul(gf_mul(x, 0x04), 0x50) ^ gf_mul(gf_mul(x, 0x03), 0xdf) ^ gf_mul(gf_mul(x, 0x02), 0x45) ^ gf_mul(gf_mul(x, 0x02), 0x53) ^ gf_mul(gf_mul(x, 0x07), 0x13) ^ gf_mul(gf_mul(x, 0x05), 0x5a) ^ gf_mul(gf_mul(x, 0x03), 0x54) == 0u8,
        0u8 ^ gf_mul(gf_mul(x, 0x03), 0x72) ^ gf_mul(gf_mul(x, 0x05), 0x50) ^ gf_mul(gf_mul(x, 0x04), 0xdf) ^ gf_mul(gf_mul(x, 0x03), 0x45) ^ gf_mul(gf_mul(x, 0x02), 0x53) ^ gf_mul(gf_mul(x, 0x02), 0x13) ^ gf_mul(gf_mul(x, 0x07), 0x5a) ^ gf_mul(gf_mul(x, 0x05), 0x54) == x,
        0u8 ^ gf_mul(gf_mul(x, 0x05), 0x72) ^ gf_mul(gf_mul(x, 0x03), 0x50) ^ gf_mul(gf_mul(x, 0x05), 0xdf) ^ gf_mul(gf_mul(x, 0x04), 0x45) ^ gf_mul(gf_mul(x, 0x03), 0x53) ^ gf_mul(gf_mul(x, 0x02), 0x13) ^ gf_mul(gf_mul(x, 0x02), 0x5a) ^ gf_mul(gf_mul(x, 0x07), 0x54) == 0u8,
        0u8 ^ gf_mul(gf_mul(x, 0x07), 0x72) ^ gf_mul(gf_mul(x, 0x05), 0x50) ^ gf_mul(gf_mul(x, 0x03), 0xdf) ^ gf_mul(gf_mul(x, 0x05), 0x45) ^ gf_mul(gf_mul(x, 0x04), 0x53) ^ gf_mul(gf_mul(x, 0x03), 0x13) ^ gf_mul(gf_mul(x, 0x02), 0x5a) ^ gf_mul(gf_mul(x, 0x02), 0x54) == 0u8,
        0u8 ^ gf_mul(gf_mul(x, 0x02), 0x54) ^ gf_mul(gf_mul(x, 0x07), 0x72) ^ gf_mul(gf_mul(x, 0x05), 0x50) ^ gf_mul(gf_mul(x, 0x03), 0xdf) ^ gf_mul(gf_mul(x, 0x05), 0x45) ^ gf_mul(gf_mul(x, 0x04), 0x53) ^ gf_mul(gf_mul(x, 0x03), 0x13) ^ gf_mul(gf_mul(x, 0x02), 0x5a) == 0u8,
        0u8 ^ gf_mul(gf_mul(x, 0x02), 0x54) ^ gf_mul(gf_mul(x, 0x02), 0x72) ^ gf_mul(gf_mul(x, 0x07), 0x50) ^ gf_mul(gf_mul(x, 0x05), 0xdf) ^ gf_mul(gf_mul(x, 0x03), 0x45) ^ gf_mul(gf_mul(x, 0x05), 0x53) ^ gf_mul(gf_mul(x, 0x04), 0x13) ^ gf_mul(gf_mul(x, 0x03), 0x5a) == 0u8,
        0u8 ^ gf_mul(gf_mul(x, 0x03), 0x54) ^ gf_mul(gf_mul(x, 0x02), 0x72) ^ gf_mul(gf_mul(x, 0x02), 0x50) ^ gf_mul(gf_mul(x, 0x07), 0xdf) ^ gf_mul(gf_mul(x, 0x05), 0x45) ^ gf_mul(gf_mul(x, 0x03), 0x53) ^ gf_mul(gf_mul(x, 0x05), 0x13) ^ gf_mul(gf_mul(x, 0x04), 0x5a) == 0u8,
        0u8 ^ gf_mul(gf_mul(x, 0x04), 0x54) ^ gf_mul(gf_mul(x, 0x03), 0x72) ^ gf_mul(gf_mul(x, 0x02), 0x50) ^ gf_mul(gf_mul(x, 0x02), 0xdf) ^ gf_mul(gf_mul(x, 0x07), 0x45) ^ gf_mul(gf_mul(x, 0x05), 0x53) ^ gf_mul(gf_mul(x, 0x03), 0x13) ^ gf_mul(gf_mul(x, 0x05), 0x5a) == 0u8,
        0u8 ^ gf_mul(gf_mul(x, 0x05), 0x54) ^ gf_mul(gf_mul(x, 0x04), 0x72) ^ gf_mul(gf_mul(x, 0x03), 0x50) ^ gf_mul(gf_mul(x, 0x02), 0xdf) ^ gf_mul(gf_mul(x, 0x02), 0x45) ^ gf_mul(gf_mul(x, 0x07), 0x53) ^ gf_mul(gf_mul(x, 0x05), 0x13) ^ gf_mul(gf_mul(x, 0x03), 0x5a) == 0u8,
        0u8 ^ gf_mul(gf_mul(x, 0x03), 0x54) ^ gf_mul(gf_mul(x, 0x05), 0x72) ^ gf_mul(gf_mul(x, 0x04), 0x50) ^ gf_mul(gf_mul(x, 0x03), 0xdf) ^ gf_mul(gf_mul(x, 0x02), 0x45) ^ gf_mul(gf_mul(x, 0x02), 0x53) ^ gf_mul(gf_mul(x, 0x07), 0x13) ^ gf_mul(gf_mul(x, 0x05), 0x5a) == 0u8,
        0u8 ^ gf_mul(gf_mul(x, 0x05), 0x54) ^ gf_mul(gf_mul(x, 0x03), 0x72) ^ gf_mul(gf_mul(x, 0x05), 0x50) ^ gf_mul(gf_mul(x, 0x04), 0xdf) ^ gf_mul(gf_mul(x, 0x03), 0x45) ^ gf_mul(gf_mul(x, 0x02), 0x53) ^ gf_mul(gf_mul(x, 0x02), 0x13) ^ gf_mul(gf_mul(x, 0x07), 0x5a) == x,
        0u8 ^ gf_mul(gf_mul(x, 0x07), 0x54) ^ gf_mul(gf_mul(x, 0x05), 0x72) ^ gf_mul(gf_mul(x, 0x03), 0x50) ^ gf_mul(gf_mul(x, 0x05), 0xdf) ^ gf_mul(gf_mul(x, 0x04), 0x45) ^ gf_mul(gf_mul(x, 0x03), 0x53) ^ gf_mul(gf_mul(x, 0x02), 0x13) ^ gf_mul(gf_mul(x, 0x02), 0x5a) == 0u8,
        0u8 ^ gf_mul(gf_mul(x, 0x02), 0x5a) ^ gf_mul(gf_mul(x, 0x07), 0x54) ^ gf_mul(gf_mul(x, 0x05), 0x72) ^ gf_mul(gf_mul(x, 0x03), 0x50) ^ gf_mul(gf_mul(x, 0x05), 0xdf) ^ gf_mul(gf_mul(x, 0x04), 0x45) ^ gf_mul(gf_mul(x, 0x03), 0x53) ^ gf_mul(gf_mul(x, 0x02), 0x13) == 0u8,
        0u8 ^ gf_mul(gf_mul(x, 0x02), 0x5a) ^ gf_mul(gf_mul(x, 0x02), 0x54) ^ gf_mul(gf_mul(x, 0x07), 0x72) ^ gf_mul(gf_mul(x, 0x05), 0x50) ^ gf_mul(gf_mul(x, 0x03), 0xdf) ^ gf_mul(gf_mul(x, 0x05), 0x45) ^ gf_mul(gf_mul(x, 0x04), 0x53) ^ gf_mul(gf_mul(x, 0x03), 0x13) == 0u8,
        0u8 ^ gf_mul(gf_mul(x, 0x03), 0x5a) ^ gf_mul(gf_mul(x, 0x02), 0x54) ^ gf_mul(gf_mul(x, 0x02), 0x72) ^ gf_mul(gf_mul(x, 0x07), 0x50) ^ gf_mul(gf_mul(x, 0x05), 0xdf) ^ gf_mul(gf_mul(x, 0x03), 0x45) ^ gf_mul(gf_mul(x, 0x05), 0x53) ^ gf_mul(gf_mul(x, 0x04), 0x13) == 0u8,
        0u8 ^ gf_mul(gf_mul(x, 0x04), 0x5a) ^ gf_mul(gf_mul(x, 0x03), 0x54) ^ gf_mul(gf_mul(x, 0x02), 0x72) ^ gf_mul(gf_mul(x, 0x02), 0x50) ^ gf_mul(gf_mul(x, 0x07), 0xdf) ^ gf_mul(gf_mul(x, 0x05), 0x45) ^ gf_mul(gf_mul(x, 0x03), 0x53) ^ gf_mul(gf_mul(x, 0x05), 0x13) == 0u8,
        0u8 ^ gf_mul(gf_mul(x, 0x05), 0x5a) ^ gf_mul(gf_mul(x, 0x04), 0x54) ^ gf_mul(gf_mul(x, 0x03), 0x72) ^ gf_mul(gf_mul(x, 0x02), 0x50) ^ gf_mul(gf_mul(x, 0x02), 0xdf) ^ gf_mul(gf_mul(x, 0x07), 0x45) ^ gf_mul(gf_mul(x, 0x05), 0x53) ^ gf_mul(gf_mul(x, 0x03), 0x13) == 0u8,
        0u8 ^ gf_mul(gf_mul(x, 0x03), 0x5a) ^ gf_mul(gf_mul(x, 0x05), 0x54) ^ gf_mul(gf_mul(x, 0x04), 0x72) ^ gf_mul(gf_mul(x, 0x03), 0x50) ^ gf_mul(gf_mul(x, 0x02), 0xdf) ^ gf_mul(gf_mul(x, 0x02), 0x45) ^ gf_mul(gf_mul(x, 0x07), 0x53) ^ gf_mul(gf_mul(x, 0x05), 0x13) == 0u8,
        0u8 ^ gf_mul(gf_mul(x, 0x05), 0x5a) ^ gf_mul(gf_mul(x, 0x03), 0x54) ^ gf_mul(gf_mul(x, 0x05), 0x72) ^ gf_mul(gf_mul(x, 0x04), 0x50) ^ gf_mul(gf_mul(x, 0x03), 0xdf) ^ gf_mul(gf_mul(x, 0x02), 0x45) ^ gf_mul(gf_mul(x, 0x02), 0x53) ^ gf_mul(gf_mul(x, 0x07), 0x13) == 0u8,
        0u8 ^ gf_mul(gf_mul(x, 0x07), 0x5a) ^ gf_mul(gf_mul(x, 0x05), 0x54) ^ gf_mul(gf_mul(x, 0x03), 0x72) ^ gf_mul(gf_mul(x, 0x05), 0x50) ^ gf_mul(gf_mul(x, 0x04), 0xdf) ^ gf_mul(gf_mul(x, 0x03), 0x45) ^ gf_mul(gf_mul(x, 0x02), 0x53) ^ gf_mul(gf_mul(x, 0x02), 0x13) == x,
{
}

/// The entries of `B * B_INV`, applied to a byte `x`.
proof fn lemma_unit_sums_right(x: u8)
    by (bit_vector)
    ensures
        0u8 ^ gf_mul(gf_mul(x, 0x13), 0x02) ^ gf_mul(gf_mul(x, 0x53), 0x02) ^ gf_mul(gf_mul(x, 0x45), 0x03) ^ gf_mul(gf_mul(x, 0xdf), 0x04) ^ gf_mul(gf_mul(x, 0x50), 0x05) ^ gf_mul(gf_mul(x, 0x72), 0x03) ^ gf_mul(gf_mul(x, 0x54), 0x05) ^ gf_mul(gf_mul(x, 0x5a), 0x07) == x,
        0u8 ^ gf_mul(gf_mul(x, 0x5a), 0x02) ^ gf_mul(gf_mul(x, 0x13), 0x02) ^ gf_mul(gf_mul(x, 0x53), 0x03) ^ gf_mul(gf_mul(x, 0x45), 0x04) ^ gf_mul(gf_mul(x, 0xdf), 0x05) ^ gf_mul(gf_mul(x, 0x50), 0x03) ^ gf_mul(gf_mul(x, 0x72), 0x05) ^ gf_mul(gf_mul(x, 0x54), 0x07) == 0u8,
        0u8 ^ gf_mul(gf_mul(x, 0x54), 0x02) ^ gf_mul(gf_mul(x, 0x5a), 0x02) ^ gf_mul(gf_mul(x, 0x13), 0x03) ^ gf_mul(gf_mul(x, 0x53), 0x04) ^ gf_mul(gf_mul(x, 0x45), 0x05) ^ gf_mul(gf_mul(x, 0xdf), 0x03) ^ gf_mul(gf_mul(x, 0x50), 0x05) ^ gf_mul(gf_mul(x, 0x72), 0x07) == 0u8,
        0u8 ^ gf_mul(gf_mul(x, 0x72), 0x02) ^ gf_mul(gf_mul(x, 0x54), 0x02) ^ gf_mul(gf_mul(x, 0x5a), 0x03) ^ gf_mul(gf_mul(x, 0x13), 0x04) ^ gf_mul(gf_mul(x, 0x53), 0x05) ^ gf_mul(gf_mul(x, 0x45), 0x03) ^ gf_mul(gf_mul(x, 0xdf), 0x05) ^ gf_mul(gf_mul(x, 0x50), 0x07) == 0u8,
        0u8 ^ gf_mul(gf_mul(x, 0x50), 0x02) ^ gf_mul(gf_mul(x, 0x72), 0x02) ^ gf_mul(gf_mul(x, 0x54), 0x03) ^ gf_mul(gf_mul(x, 0x5a), 0x04) ^ gf_mul(gf_mul(x, 0x13), 0x05) ^ gf_mul(gf_mul(x, 0x53), 0x03) ^ gf_mul(gf_mul(x, 0x45), 0x05) ^ gf_mul(gf_mul(x, 0xdf), 0x07) == 0u8,
        0u8 ^ gf_mul(gf_mul(x, 0xdf), 0x02) ^ gf_mul(gf_mul(x, 0x50), 0x02) ^ gf_mul(gf_mul(x, 0x72), 0x03) ^ gf_mul(gf_mul(x, 0x54), 0x04) ^ gf_mul(gf_mul(x, 0x5a), 0x05) ^ gf_mul(gf_mul(x, 0x13), 0x03) ^ gf_mul(gf_mul(x, 0x53), 0x05) ^ gf_mul(gf_mul(x, 0x45), 0x07) == 0u8,
        0u8 ^ gf_mul(gf_mul(x, 0x45), 0x02) ^ gf_mul(gf_mul(x, 0xdf), 0x02) ^ gf_mul(gf_mul(x, 0x50), 0x03) ^ gf_mul(gf_mul(x, 0x72), 0x04) ^ gf_mul(gf_mul(x, 0x54), 0x05) ^ gf_mul(gf_mul(x, 0x5a), 0x03) ^ gf_mul(gf_mul(x, 0x13), 0x05) ^ gf_mul(gf_mul(x, 0x53), 0x07) == 0u8,
        0u8 ^ gf_mul(gf_mul(x, 0x53), 0x02) ^ gf_mul(gf_mul(x, 0x45), 0x02) ^ gf_mul(gf_mul(x, 0xdf), 0x03) ^ gf_mul(gf_mul(x, 0x50), 0x04) ^ gf_mul(gf_mul(x, 0x72), 0x05) ^ gf_mul(gf_mul(x, 0x54), 0x03) ^ gf_mul(gf_mul(x, 0x5a), 0x05) ^ gf_mul(gf_mul(x, 0x13), 0x07) == 0u8,
        0u8 ^ gf_mul(gf_mul(x, 0x13), 0x07) ^ gf_mul(gf_mul(x, 0x53), 0x02) ^ gf_mul(gf_mul(x, 0x45), 0x02) ^ gf_mul(gf_mul(x, 0xdf), 0x03) ^ gf_mul(gf_mul(x, 0x50), 0x04) ^ gf_mul(gf_mul(x, 0x72), 0x05) ^ gf_mul(gf_mul(x, 0x54), 0x03) ^ gf_mul(gf_mul(x, 0x5a), 0x05) == 0u8,
        0u8 ^ gf_mul(gf_mul(x, 0x5a), 0x07) ^ gf_mul(gf_mul(x, 0x13), 0x02) ^ gf_mul(gf_mul(x, 0x53), 0x02) ^ gf_mul(gf_mul(x, 0x45), 0x03) ^ gf_mul(gf_mul(x, 0xdf), 0x04) ^ gf_mul(gf_mul(x, 0x50), 0x05) ^ gf_mul(gf_mul(x, 0x72), 0x03) ^ gf_mul(gf_mul(x, 0x54), 0x05) == x,
        0u8 ^ gf_mul(gf_mul(x, 0x54), 0x07) ^ gf_mul(gf_mul(x, 0x5a), 0x02) ^ gf_mul(gf_mul(x, 0x13), 0x02) ^ gf_mul(gf_mul(x, 0x53), 0x03) ^ gf_mul(gf_mul(x, 0x45), 0x04) ^ gf_mul(gf_mul(x, 0xdf), 0x05) ^ gf_mul(gf_mul(x, 0x50), 0x03) ^ gf_mul(gf_mul(x, 0x72), 0x05) == 0u8,
        0u8 ^ gf_mul(gf_mul(x, 0x72), 0x07) ^ gf_mul(gf_mul(x, 0x54), 0x02) ^ gf_mul(gf_mul(x, 0x5a), 0x02) ^ gf_mul(gf_mul(x, 0x13), 0x03) ^ gf_mul(gf_mul(x, 0x53), 0x04) ^ gf_mul(gf_mul(x, 0x45), 0x05) ^ gf_mul(gf_mul(x, 0xdf), 0x03) ^ gf_mul(gf_mul(x, 0x50), 0x05) == 0u8,
        0u8 ^ gf_mul(gf_mul(x, 0x50), 0x07) ^ gf_mul(gf_mul(x, 0x72), 0x02) ^ gf_mul(gf_mul(x, 0x54), 0x02) ^ gf_mul(gf_mul(x, 0x5a), 0x03) ^ gf_mul(gf_mul(x, 0x13), 0x04) ^ gf_mul(gf_mul(x, 0x53), 0x05) ^ gf_mul(gf_mul(x, 0x45), 0x03) ^ gf_mul(gf_mul(x, 0xdf), 0x05) == 0u8,
        0u8 ^ gf_mul(gf_mul(x, 0xdf), 0x07) ^ gf_mul(gf_mul(x, 0x50), 0x02) ^ gf_mul(gf_mul(x, 0x72), 0x02) ^ gf_mul(gf_mul(x, 0x54), 0x03) ^ gf_mul(gf_mul(x, 0x5a), 0x04) ^ gf_mul(gf_mul(x, 0x13), 0x05) ^ gf_mul(gf_mul(x, 0x53), 0x03) ^ gf_mul(gf_mul(x, 0x45), 0x05) == 0u8,
        0u8 ^ gf_mul(gf_mul(x, 0x45), 0x07) ^ gf_mul(gf_mul(x, 0xdf), 0x02) ^ gf_mul(gf_mul(x, 0x50), 0x02) ^ gf_mul(gf_mul(x, 0x72), 0x03) ^ gf_mul(gf_mul(x, 0x54), 0x04) ^ gf_mul(gf_mul(x, 0x5a), 0x05) ^ gf_mul(gf_mul(x, 0x13), 0x03) ^ gf_mul(gf_mul(x, 0x53), 0x05) == 0u8,
        0u8 ^ gf_mul(gf_mul(x, 0x53), 0x07) ^ gf_mul(gf_mul(x, 0x45), 0x02) ^ gf_mul(gf_mul(x, 0xdf), 0x02) ^ gf_mul(gf_mul(x, 0x50), 0x03) ^ gf_mul(gf_mul(x, 0x72), 0x04) ^ gf_mul(gf_mul(x, 0x54), 0x05) ^ gf_mul(gf_mul(x, 0x5a), 0x03) ^ gf_mul(gf_mul(x, 0x13), 0x05) == 0u8,
        0u8 ^ gf_mul(gf_mul(x, 0x13), 0x05) ^ gf_mul(gf_mul(x, 0x53), 0x07) ^ gf_mul(gf_mul(x, 0x45), 0x02) ^ gf_mul(gf_mul(x, 0xdf), 0x02) ^ gf_mul(gf_mul(x, 0x50), 0x03) ^ gf_mul(gf_mul(x, 0x72), 0x04) ^ gf_mul(gf_mul(x, 0x54), 0x05) ^ gf_mul(gf_mul(x, 0x5a), 0x03) == 0u8,
        0u8 ^ gf_mul(gf_mul(x, 0x5a), 0x05) ^ gf_mul(gf_mul(x, 0x13), 0x07) ^ gf_mul(gf_mul(x, 0x53), 0x02) ^ gf_mul(gf_mul(x, 0x45), 0x02) ^ gf_mul(gf_mul(x, 0xdf), 0x03) ^ gf_mul(gf_mul(x, 0x50), 0x04) ^ gf_mul(gf_mul(x, 0x72), 0x05) ^ gf_mul(gf_mul(x, 0x54), 0x03) == 0u8,
        0u8 ^ gf_mul(gf_mul(x, 0x54), 0x05) ^ gf_mul(gf_mul(x, 0x5a), 0x07) ^ gf_mul(gf_mul(x, 0x13), 0x02) ^ gf_mul(gf_mul(x, 0x53), 0x02) ^ gf_mul(gf_mul(x, 0x45), 0x03) ^ gf_mul(gf_mul(x, 0xdf), 0x04) ^ gf_mul(gf_mul(x, 0x50), 0x05) ^ gf_mul(gf_mul(x, 0x72), 0x03) == x,
        0u8 ^ gf_mul(gf_mul(x, 0x72), 0x05) ^ gf_mul(gf_mul(x, 0x54), 0x07) ^ gf_mul(gf_mul(x, 0x5a), 0x02) ^ gf_mul(gf_mul(x, 0x13), 0x02) ^ gf_mul(gf_mul(x, 0x53), 0x03) ^ gf_mul(gf_mul(x, 0x45), 0x04) ^ gf_mul(gf_mul(x, 0xdf), 0x05) ^ gf_mul(gf_mul(x, 0x50), 0x03) == 0u8,
        0u8 ^ gf_mul(gf_mul(x, 0x50), 0x05) ^ gf_mul(gf_mul(x, 0x72), 0x07) ^ gf_mul(gf_mul(x, 0x54), 0x02) ^ gf_mul(gf_mul(x, 0x5a), 0x02) ^ gf_mul(gf_mul(x, 0x13), 0x03) ^ gf_mul(gf_mul(x, 0x53), 0x04) ^ gf_mul(gf_mul(x, 0x45), 0x05) ^ gf_mul(gf_mul(x, 0xdf), 0x03) == 0u8,
        0u8 ^ gf_mul(gf_mul(x, 0xdf), 0x05) ^ gf_mul(gf_mul(x, 0x50), 0x07) ^ gf_mul(gf_mul(x, 0x72), 0x02) ^ gf_mul(gf_mul(x, 0x54), 0x02) ^ gf_mul(gf_mul(x, 0x5a), 0x03) ^ gf_mul(gf_mul(x, 0x13), 0x04) ^ gf_mul(gf_mul(x, 0x53), 0x05) ^ gf_mul(gf_mul(x, 0x45), 0x03) == 0u8,
        0u8 ^ gf_mul(gf_mul(x, 0x45), 0x05) ^ gf_mul(gf_mul(x, 0xdf), 0x07) ^ gf_mul(gf_mul(x, 0x50), 0x02) ^ gf_mul(gf_mul(x, 0x72), 0x02) ^ gf_mul(gf_mul(x, 0x54), 0x03) ^ gf_mul(gf_mul(x, 0x5a), 0x04) ^ gf_mul(gf_mul(x, 0x13), 0x05) ^ gf_mul(gf_mul(x, 0x53), 0x03) == 0u8,
        0u8 ^ gf_mul(gf_mul(x, 0x53), 0x05) ^ gf_mul(gf_mul(x, 0x45), 0x07) ^ gf_mul(gf_mul(x, 0xdf), 0x02) ^ gf_mul(gf_mul(x, 0x50), 0x02) ^ gf_mul(gf_mul(x, 0x72), 0x03) ^ gf_mul(gf_mul(x, 0x54), 0x04) ^ gf_mul(gf_mul(x, 0x5a), 0x05) ^ gf_mul(gf_mul(x, 0x13), 0x03) == 0u8,
        0u8 ^ gf_mul(gf_mul(x, 0x13), 0x03) ^ gf_mul(gf_mul(x, 0x53), 0x05) ^ gf_mul(gf_mul(x, 0x45), 0x07) ^ gf_mul(gf_mul(x, 0xdf), 0x02) ^ gf_mul(gf_mul(x, 0x50), 0x02) ^ gf_mul(gf_mul(x, 0x72), 0x03) ^ gf_mul(gf_mul(x, 0x54), 0x04) ^ gf_mul(gf_mul(x, 0x5a), 0x05) == 0u8,
        0u8 ^ gf_mul(gf_mul(x, 0x5a), 0x03) ^ gf_mul(gf_mul(x, 0x13), 0x05) ^ gf_mul(gf_mul(x, 0x53), 0x07) ^ gf_mul(gf_mul(x, 0x45), 0x02) ^ gf_mul(gf_mul(x, 0xdf), 0x02) ^ gf_mul(gf_mul(x, 0x50), 0x03) ^ gf_mul(gf_mul(x, 0x72), 0x04) ^ gf_mul(gf_mul(x, 0x54), 0x05) == 0u8,
        0u8 ^ gf_mul(gf_mul(x, 0x54), 0x03) ^ gf_mul(gf_mul(x, 0x5a), 0x05) ^ gf_mul(gf_mul(x, 0x13), 0x07) ^ gf_mul(gf_mul(x, 0x53), 0x02) ^ gf_mul(gf_mul(x, 0x45), 0x02) ^ gf_mul(gf_mul(x, 0xdf), 0x03) ^ gf_mul(gf_mul(x, 0x50), 0x04) ^ gf_mul(gf_mul(x, 0x72), 0x05) == 0u8,
        0u8 ^ gf_mul(gf_mul(x, 0x72), 0x03) ^ gf_mul(gf_mul(x, 0x54), 0x05) ^ gf_mul(gf_mul(x, 0x5a), 0x07) ^ gf_mul(gf_mul(x, 0x13), 0x02) ^ gf_mul(gf_mul(x, 0x53), 0x02) ^ gf_mul(gf_mul(x, 0x45), 0x03) ^ gf_mul(gf_mul(x, 0xdf), 0x04) ^ gf_mul(gf_mul(x, 0x50), 0x05) == x,
        0u8 ^ gf_mul(gf_mul(x, 0x50), 0x03) ^ gf_mul(gf_mul(x, 0x72), 0x05) ^ gf_mul(gf_mul(x, 0x54), 0x07) ^ gf_mul(gf_mul(x, 0x5a), 0x02) ^ gf_mul(gf_mul(x, 0x13), 0x02) ^ gf_mul(gf_mul(x, 0x53), 0x03) ^ gf_mul(gf_mul(x, 0x45), 0x04) ^ gf_mul(gf_mul(x, 0xdf), 0x05) == 0u8,
        0u8 ^ gf_mul(gf_mul(x, 0xdf), 0x03) ^ gf_mul(gf_mul(x, 0x50), 0x05) ^ gf_mul(gf_mul(x, 0x72), 0x07) ^ gf_mul(gf_mul(x, 0x54), 0x02) ^ gf_mul(gf_mul(x, 0x5a), 0x02) ^ gf_mul(gf_mul(x, 0x13), 0x03) ^ gf_mul(gf_mul(x, 0x53), 0x04) ^ gf_mul(gf_mul(x, 0x45), 0x05) == 0u8,
        0u8 ^ gf_mul(gf_mul(x, 0x45), 0x03) ^ gf_mul(gf_mul(x, 0xdf), 0x05) ^ gf_mul(gf_mul(x, 0x50), 0x07) ^ gf_mul(gf_mul(x, 0x72), 0x02) ^ gf_mul(gf_mul(x, 0x54), 0x02) ^ gf_mul(gf_mul(x, 0x5a), 0x03) ^ gf_mul(gf_mul(x, 0x13), 0x04) ^ gf_mul(gf_mul(x, 0x53), 0x05) == 0u8,
        0u8 ^ gf_mul(gf_mul(x, 0x53), 0x03) ^ gf_mul(gf_mul(x, 0x45), 0x05) ^ gf_mul(gf_mul(x, 0xdf), 0x07) ^ gf_mul(gf_mul(x, 0x50), 0x02) ^ gf_mul(gf_mul(x, 0x72), 0x02) ^ gf_mul(gf_mul(x, 0x54), 0x03) ^ gf_mul(gf_mul(x, 0x5a), 0x04) ^ gf_mul(gf_mul(x, 0x13), 0x05) == 0u8,
        0u8 ^ gf_mul(gf_mul(x, 0x13), 0x05) ^ gf_mul(gf_mul(x, 0x53), 0x03) ^ gf_mul(gf_mul(x, 0x45), 0x05) ^ gf_mul(gf_mul(x, 0xdf), 0x07) ^ gf_mul(gf_mul(x, 0x50), 0x02) ^ gf_mul(gf_mul(x, 0x72), 0x02) ^ gf_mul(gf_mul(x, 0x54), 0x03) ^ gf_mul(gf_mul(x, 0x5a), 0x04) == 0u8,
        0u8 ^ gf_mul(gf_mul(x, 0x5a), 0x05) ^ gf_mul(gf_mul(x, 0x13), 0x03) ^ gf_mul(gf_mul(x, 0x53), 0x05) ^ gf_mul(gf_mul(x, 0x45), 0x07) ^ gf_mul(gf_mul(x, 0xdf), 0x02) ^ gf_mul(gf_mul(x, 0x50), 0x02) ^ gf_mul(gf_mul(x, 0x72), 0x03) ^ gf_mul(gf_mul(x, 0x54), 0x04) == 0u8,
        0u8 ^ gf_mul(gf_mul(x, 0x54), 0x05) ^ gf_mul(gf_mul(x, 0x5a), 0x03) ^ gf_mul(gf_mul(x, 0x13), 0x05) ^ gf_mul(gf_mul(x, 0x53), 0x07) ^ gf_mul(gf_mul(x, 0x45), 0x02) ^ gf_mul(gf_mul(x, 0xdf), 0x02) ^ gf_mul(gf_mul(x, 0x50), 0x03) ^ gf_mul(gf_mul(x, 0x72), 0x04) == 0u8,
        0u8 ^ gf_mul(gf_mul(x, 0x72), 0x05) ^ gf_mul(gf_mul(x, 0x54), 0x03) ^ gf_mul(gf_mul(x, 0x5a), 0x05) ^ gf_mul(gf_mul(x, 0x13), 0x07) ^ gf_mul(gf_mul(x, 0x53), 0x02) ^ gf_mul(gf_mul(x, 0x45), 0x02) ^ gf_mul(gf_mul(x, 0xdf), 0x03) ^ gf_mul(gf_mul(x, 0x50), 0x04) == 0u8,
        0u8 ^ gf_mul(gf_mul(x, 0x50), 0x05) ^ gf_mul(gf_mul(x, 0x72), 0x03) ^ gf_mul(gf_mul(x, 0x54), 0x05) ^ gf_mul(gf_mul(x, 0x5a), 0x07) ^ gf_mul(gf_mul(x, 0x13), 0x02) ^ gf_mul(gf_mul(x, 0x53), 0x02) ^ gf_mul(gf_mul(x, 0x45), 0x03) ^ gf_mul(gf_mul(x, 0xdf), 0x04) == x,
        0u8 ^ gf_mul(gf_mul(x, 0xdf), 0x05) ^ gf_mul(gf_mul(x, 0x50), 0x03) ^ gf_mul(gf_mul(x, 0x72), 0x05) ^ gf_mul(gf_mul(x, 0x54), 0x07) ^ gf_mul(gf_mul(x, 0x5a), 0x02) ^ gf_mul(gf_mul(x, 0x13), 0x02) ^ gf_mul(gf_mul(x, 0x53), 0x03) ^ gf_mul(gf_mul(x, 0x45), 0x04) == 0u8,
        0u8 ^ gf_mul(gf_mul(x, 0x45), 0x05) ^ gf_mul(gf_mul(x, 0xdf), 0x03) ^ gf_mul(gf_mul(x, 0x50), 0x05) ^ gf_mul(gf_mul(x, 0x72), 0x07) ^ gf_mul(gf_mul(x, 0x54), 0x02) ^ gf_mul(gf_mul(x, 0x5a), 0x02) ^ gf_mul(gf_mul(x, 0x13), 0x03) ^ gf_mul(gf_mul(x, 0x53), 0x04) == 0u8,
        0u8 ^ gf_mul(gf_mul(x, 0x53), 0x05) ^ gf_mul(gf_mul(x, 0x45), 0x03) ^ gf_mul(gf_mul(x, 0xdf), 0x05) ^ gf_mul(gf_mul(x, 0x50), 0x07) ^ gf_mul(gf_mul(x, 0x72), 0x02) ^ gf_mul(gf_mul(x, 0x54), 0x02) ^ gf_mul(gf_mul(x, 0x5a), 0x03) ^ gf_mul(gf_mul(x, 0x13), 0x04) == 0u8,
        0u8 ^ gf_mul(gf_mul(x, 0x13), 0x04) ^ gf_mul(gf_mul(x, 0x53), 0x05) ^ gf_mul(gf_mul(x, 0x45), 0x03) ^ gf_mul(gf_mul(x, 0xdf), 0x05) ^ gf_mul(gf_mul(x, 0x50), 0x07) ^ gf_mul(gf_mul(x, 0x72), 0x02) ^ gf_mul(gf_mul(x, 0x54), 0x02) ^ gf_mul(gf_mul(x, 0x5a), 0x03) == 0u8,
        0u8 ^ gf_mul(gf_mul(x, 0x5a), 0x04) ^ gf_mul(gf_mul(x, 0x13), 0x05) ^ gf_mul(gf_mul(x, 0x53), 0x03) ^ gf_mul(gf_mul(x, 0x45), 0x05) ^ gf_mul(gf_mul(x, 0xdf), 0x07) ^ gf_mul(gf_mul(x, 0x50), 0x02) ^ gf_mul(gf_mul(x, 0x72), 0x02) ^ gf_mul(gf_mul(x, 0x54), 0x03) == 0u8,
        0u8 ^ gf_mul(gf_mul(x, 0x54), 0x04) ^ gf_mul(gf_mul(x, 0x5a), 0x05) ^ gf_mul(gf_mul(x, 0x13), 0x03) ^ gf_mul(gf_mul(x, 0x53), 0x05) ^ gf_mul(gf_mul(x, 0x45), 0x07) ^ gf_mul(gf_mul(x, 0xdf), 0x02) ^ gf_mul(gf_mul(x, 0x50), 0x02) ^ gf_mul(gf_mul(x, 0x72), 0x03) == 0u8,
        0u8 ^ gf_mul(gf_mul(x, 0x72), 0x04) ^ gf_mul(gf_mul(x, 0x54), 0x05) ^ gf_mul(gf_mul(x, 0x5a), 0x03) ^ gf_mul(gf_mul(x, 0x13), 0x05) ^ gf_mul(gf_mul(x, 0x53), 0x07) ^ gf_mul(gf_mul(x, 0x45), 0x02) ^ gf_mul(gf_mul(x, 0xdf), 0x02) ^ gf_mul(gf_mul(x, 0x50), 0x03) == 0u8,
        0u8 ^ gf_mul(gf_mul(x, 0x50), 0x04) ^ gf_mul(gf_mul(x, 0x72), 0x05) ^ gf_mul(gf_mul(x, 0x54), 0x03) ^ gf_mul(gf_mul(x, 0x5a), 0x05) ^ gf_mul(gf_mul(x, 0x13), 0x07) ^ gf_mul(gf_mul(x, 0x53), 0x02) ^ gf_mul(gf_mul(x, 0x45), 0x02) ^ gf_mul(gf_mul(x, 0xdf), 0x03) == 0u8,
        0u8 ^ gf_mul(gf_mul(x, 0xdf), 0x04) ^ gf_mul(gf_mul(x, 0x50), 0x05) ^ gf_mul(gf_mul(x, 0x72), 0x03) ^ gf_mul(gf_mul(x, 0x54), 0x05) ^ gf_mul(gf_mul(x, 0x5a), 0x07) ^ gf_mul(gf_mul(x, 0x13), 0x02) ^ gf_mul(gf_mul(x, 0x53), 0x02) ^ gf_mul(gf_mul(x, 0x45), 0x03) == x,
        0u8 ^ gf_mul(gf_mul(x, 0x45), 0x04) ^ gf_mul(gf_mul(x, 0xdf), 0x05) ^ gf_mul(gf_mul(x, 0x50), 0x03) ^ gf_mul(gf_mul(x, 0x72), 0x05) ^ gf_mul(gf_mul(x, 0x54), 0x07) ^ gf_mul(gf_mul(x, 0x5a), 0x02) ^ gf_mul(gf_mul(x, 0x13), 0x02) ^ gf_mul(gf_mul(x, 0x53), 0x03) == 0u8,
        0u8 ^ gf_mul(gf_mul(x, 0x53), 0x04) ^ gf_mul(gf_mul(x, 0x45), 0x05) ^ gf_mul(gf_mul(x, 0xdf), 0x03) ^ gf_mul(gf_mul(x, 0x50), 0x05) ^ gf_mul(gf_mul(x, 0x72), 0x07) ^ gf_mul(gf_mul(x, 0x54), 0x02) ^ gf_mul(gf_mul(x, 0x5a), 0x02) ^ gf_mul(gf_mul(x, 0x13), 0x03) == 0u8,
        0u8 ^ gf_mul(gf_mul(x, 0x13), 0x03) ^ gf_mul(gf_mul(x, 0x53), 0x04) ^ gf_mul(gf_mul(x, 0x45), 0x05) ^ gf_mul(gf_mul(x, 0xdf), 0x03) ^ gf_mul(gf_mul(x, 0x50), 0x05) ^ gf_mul(gf_mul(x, 0x72), 0x07) ^ gf_mul(gf_mul(x, 0x54), 0x02) ^ gf_mul(gf_mul(x, 0x5a), 0x02) == 0u8,
        0u8 ^ gf_mul(gf_mul(x, 0x5a), 0x03) ^ gf_mul(gf_mul(x, 0x13), 0x04) ^ gf_mul(gf_mul(x, 0x53), 0x05) ^ gf_mul(gf_mul(x, 0x45), 0x03) ^ gf_mul(gf_mul(x, 0xdf), 0x05) ^ gf_mul(gf_mul(x, 0x50), 0x07) ^ gf_mul(gf_mul(x, 0x72), 0x02) ^ gf_mul(gf_mul(x, 0x54), 0x02) == 0u8,
        0u8 ^ gf_mul(gf_mul(x, 0x54), 0x03) ^ gf_mul(gf_mul(x, 0x5a), 0x04) ^ gf_mul(gf_mul(x, 0x13), 0x05) ^ gf_mul(gf_mul(x, 0x53), 0x03) ^ gf_mul(gf_mul(x, 0x45), 0x05) ^ gf_mul(gf_mul(x, 0xdf), 0x07) ^ gf_mul(gf_mul(x, 0x50), 0x02) ^ gf_mul(gf_mul(x, 0x72), 0x02) == 0u8,
        0u8 ^ gf_mul(gf_mul(x, 0x72), 0x03) ^ gf_mul(gf_mul(x, 0x54), 0x04) ^ gf_mul(gf_mul(x, 0x5a), 0x05) ^ gf_mul(gf_mul(x, 0x13), 0x03) ^ gf_mul(gf_mul(x, 0x53), 0x05) ^ gf_mul(gf_mul(x, 0x45), 0x07) ^ gf_mul(gf_mul(x, 0xdf), 0x02) ^ gf_mul(gf_mul(x, 0x50), 0x02) == 0u8,
        0u8 ^ gf_mul(gf_mul(x, 0x50), 0x03) ^ gf_mul(gf_mul(x, 0x72), 0x04) ^ gf_mul(gf_mul(x, 0x54), 0x05) ^ gf_mul(gf_mul(x, 0x5a), 0x03) ^ gf_mul(gf_mul(x, 0x13), 0x05) ^ gf_mul(gf_mul(x, 0x53), 0x07) ^ gf_mul(gf_mul(x, 0x45), 0x02) ^ gf_mul(gf_mul(x, 0xdf), 0x02) == 0u8,
        0u8 ^ gf_mul(gf_mul(x, 0xdf), 0x03) ^ gf_mul(gf_mul(x, 0x50), 0x04) ^ gf_mul(gf_mul(x, 0x72), 0x05) ^ gf_mul(gf_mul(x, 0x54), 0x03) ^ gf_mul(gf_mul(x, 0x5a), 0x05) ^ gf_mul(gf_mul(x, 0x13), 0x07) ^ gf_mul(gf_mul(x, 0x53), 0x02) ^ gf_mul(gf_mul(x, 0x45), 0x02) == 0u8,
        0u8 ^ gf_mul(gf_mul(x, 0x45), 0x03) ^ gf_mul(gf_mul(x, 0xdf), 0x04) ^ gf_mul(gf_mul(x, 0x50), 0x05) ^ gf_mul(gf_mul(x, 0x72), 0x03) ^ gf_mul(gf_mul(x, 0x54), 0x05) ^ gf_mul(gf_mul(x, 0x5a), 0x07) ^ gf_mul(gf_mul(x, 0x13), 0x02) ^ gf_mul(gf_mul(x, 0x53), 0x02) == x,
        0u8 ^ gf_mul(gf_mul(x, 0x53), 0x03) ^ gf_mul(gf_mul(x, 0x45), 0x04) ^ gf_mul(gf_mul(x, 0xdf), 0x05) ^ gf_mul(gf_mul(x, 0x50), 0x03) ^ gf_mul(gf_mul(x, 0x72), 0x05) ^ gf_mul(gf_mul(x, 0x54), 0x07) ^ gf_mul(gf_mul(x, 0x5a), 0x02) ^ gf_mul(gf_mul(x, 0x13), 0x02) == 0u8,
        0u8 ^ gf_mul(gf_mul(x, 0x13), 0x02) ^ gf_mul(gf_mul(x, 0x53), 0x03) ^ gf_mul(gf_mul(x, 0x45), 0x04) ^ gf_mul(gf_mul(x, 0xdf), 0x05) ^ gf_mul(gf_mul(x, 0x50), 0x03) ^ gf_mul(gf_mul(x, 0x72), 0x05) ^ gf_mul(gf_mul(x, 0x54), 0x07) ^ gf_mul(gf_mul(x, 0x5a), 0x02) == 0u8,
        0u8 ^ gf_mul(gf_mul(x, 0x5a), 0x02) ^ gf_mul(gf_mul(x, 0x13), 0x03) ^ gf_mul(gf_mul(x, 0x53), 0x04) ^ gf_mul(gf_mul(x, 0x45), 0x05) ^ gf_mul(gf_mul(x, 0xdf), 0x03) ^ gf_mul(gf_mul(x, 0x50), 0x05) ^ gf_mul(gf_mul(x, 0x72), 0x07) ^ gf_mul(gf_mul(x, 0x54), 0x02) == 0u8,
        0u8 ^ gf_mul(gf_mul(x, 0x54), 0x02) ^ gf_mul(gf_mul(x, 0x5a), 0x03) ^ gf_mul(gf_mul(x, 0x13), 0x04) ^ gf_mul(gf_mul(x, 0x53), 0x05) ^ gf_mul(gf_mul(x, 0x45), 0x03) ^ gf_mul(gf_mul(x, 0xdf), 0x05) ^ gf_mul(gf_mul(x, 0x50), 0x07) ^ gf_mul(gf_mul(x, 0x72), 0x02) == 0u8,
        0u8 ^ gf_mul(gf_mul(x, 0x72), 0x02) ^ gf_mul(gf_mul(x, 0x54), 0x03) ^ gf_mul(gf_mul(x, 0x5a), 0x04) ^ gf_mul(gf_mul(x, 0x13), 0x05) ^ gf_mul(gf_mul(x, 0x53), 0x03) ^ gf_mul(gf_mul(x, 0x45), 0x05) ^ gf_mul(gf_mul(x, 0xdf), 0x07) ^ gf_mul(gf_mul(x, 0x50), 0x02) == 0u8,
        0u8 ^ gf_mul(gf_mul(x, 0x50), 0x02) ^ gf_mul(gf_mul(x, 0x72), 0x03) ^ gf_mul(gf_mul(x, 0x54), 0x04) ^ gf_mul(gf_mul(x, 0x5a), 0x05) ^ gf_mul(gf_mul(x, 0x13), 0x03) ^ gf_mul(gf_mul(x, 0x53), 0x05) ^ gf_mul(gf_mul(x, 0x45), 0x07) ^ gf_mul(gf_mul(x, 0xdf), 0x02) == 0u8,
        0u8 ^ gf_mul(gf_mul(x, 0xdf), 0x02) ^ gf_mul(gf_mul(x, 0x50), 0x03) ^ gf_mul(gf_mul(x, 0x72), 0x04) ^ gf_mul(gf_mul(x, 0x54), 0x05) ^ gf_mul(gf_mul(x, 0x5a), 0x03) ^ gf_mul(gf_mul(x, 0x13), 0x05) ^ gf_mul(gf_mul(x, 0x53), 0x07) ^ gf_mul(gf_mul(x, 0x45), 0x02) == 0u8,
        0u8 ^ gf_mul(gf_mul(x, 0x45), 0x02) ^ gf_mul(gf_mul(x, 0xdf), 0x03) ^ gf_mul(gf_mul(x, 0x50), 0x04) ^ gf_mul(gf_mul(x, 0x72), 0x05) ^ gf_mul(gf_mul(x, 0x54), 0x03) ^ gf_mul(gf_mul(x, 0x5a), 0x05) ^ gf_mul(gf_mul(x, 0x13), 0x07) ^ gf_mul(gf_mul(x, 0x53), 0x02) == 0u8,
        0u8 ^ gf_mul(gf_mul(x, 0x53), 0x02) ^ gf_mul(gf_mul(x, 0x45), 0x03) ^ gf_mul(gf_mul(x, 0xdf), 0x04) ^ gf_mul(gf_mul(x, 0x50), 0x05) ^ gf_mul(gf_mul(x, 0x72), 0x03) ^ gf_mul(gf_mul(x, 0x54), 0x05) ^ gf_mul(gf_mul(x, 0x5a), 0x07) ^ gf_mul(gf_mul(x, 0x13), 0x02) == x,
{
}

/// `B_INV` and `B` undo each other, in either order.
pub proof fn lemma_b_inverse()
    ensures
        undoes(B_INV, B),
        undoes(B, B_INV),
{
    reveal_with_fuel(unit_sum, 9);
    assert forall|i: int, t: int, x: u8| 0 <= i < 8 && 0 <= t < 8 implies #[trigger] unit_sum(
        B_INV,
        B,
        i,
        t,
        x,
        8,
    ) == (if i == t {
        x
    } else {
        0u8
    }) by {
        lemma_unit_sums_left(x);
    }
    assert forall|i: int, t: int, x: u8| 0 <= i < 8 && 0 <= t < 8 implies #[trigger] unit_sum(
        B,
        B_INV,
        i,
        t,
        x,
        8,
    ) == (if i == t {
        x
    } else {
        0u8
    }) by {
        lemma_unit_sums_right(x);
    }
}

/// The sum over `t < n` of `m[t][j] * b[k][t] * a[i][k]`: entry (k, j) of
/// `b * m`, multiplied by `a[i][k]` term by term.
pub open spec fn scaled_dot(
    a: [[u8; 8]; 8],
    b: [[u8; 8]; 8],
    m: Seq<Seq<u8>>,
    i: int,
    j: int,
    k: int,
    n: nat,
) -> u8
    decreases n,
{
    if n == 0 {
        0u8
    } else {
        scaled_dot(a, b, m, i, j, k, (n - 1) as nat) ^ gf_mul(
            gf_mul(m[n - 1][j], b[k][n - 1]),
            a[i][k],
        )
    }
}

/// The sum over `k < nk` of `scaled_dot` with `nt` terms each: the double
/// sum, row of `b` after row.
pub open spec fn rows_sum(
    a: [[u8; 8]; 8],
    b: [[u8; 8]; 8],
    m: Seq<Seq<u8>>,
    i: int,
    j: int,
    nk: nat,
    nt: nat,
) -> u8
    decreases nk,
{
    if nk == 0 {
        0u8
    } else {
        rows_sum(a, b, m, i, j, (nk - 1) as nat, nt) ^ scaled_dot(a, b, m, i, j, nk - 1, nt)
    }
}

/// The sum over `t < nt` of `unit_sum` with `nk` terms each: the same
/// double sum, entry of the column after entry.
pub open spec fn cols_sum(
    a: [[u8; 8]; 8],
    b: [[u8; 8]; 8],
    m: Seq<Seq<u8>>,
    i: int,
    j: int,
    nk: nat,
    nt: nat,
) -> u8
    decreases nt,
{
    if nt == 0 {
        0u8
    } else {
        cols_sum(a, b, m, i, j, nk, (nt - 1) as nat) ^ unit_sum(
            a,
            b,
            i,
            nt - 1,
            m[nt - 1][j],
            nk,
        )
    }
}

/// Multiplying a partial entry of `b * m` by `a[i][k]` multiplies its terms.
proof fn lemma_scaled_dot(
    a: [[u8; 8]; 8],
    b: [[u8; 8]; 8],
    m: Seq<Seq<u8>>,
    i: int,
    j: int,
    k: int,
    n: nat,
)
    ensures
        gf_mul(dot(b, m, k, j, n), a[i][k]) == scaled_dot(a, b, m, i, j, k, n),
    decreases n,
{
    if n == 0 {
        lemma_gf_mul_zero(a[i][k]);
    } else {
        lemma_scaled_dot(a, b, m, i, j, k, (n - 1) as nat);
        lemma_gf_mul_linear(
            dot(b, m, k, j, (n - 1) as nat),
            gf_mul(m[n - 1][j], b[k][n - 1]),
            a[i][k],
        );
    }
}

/// One more term in every row adds one more column sum.
proof fn lemma_rows_sum_step(
    a: [[u8; 8]; 8],
    b: [[u8; 8]; 8],
    m: Seq<Seq<u8>>,
    i: int,
    j: int,
    nk: nat,
    nt: nat,
)
    requires
        nt > 0,
    ensures
        rows_sum(a, b, m, i, j, nk, nt) == rows_sum(a, b, m, i, j, nk, (nt - 1) as nat) ^ unit_sum(
            a,
            b,
            i,
            nt - 1,
            m[nt - 1][j],
            nk,
        ),
    decreases nk,
{
    if nk == 0 {
        lemma_xor_zero(0u8);
    } else {
        let less = (nk - 1) as nat;
        let fewer = (nt - 1) as nat;
        lemma_rows_sum_step(a, b, m, i, j, less, nt);
        lemma_xor_pairs(
            rows_sum(a, b, m, i, j, less, fewer),
            unit_sum(a, b, i, nt - 1, m[nt - 1][j], less),
            scaled_dot(a, b, m, i, j, nk - 1, fewer),
            gf_mul(gf_mul(m[nt - 1][j], b[nk - 1][nt - 1]), a[i][nk - 1]),
        );
    }
}

/// The double sum is the same row after row as column entry after entry.
proof fn lemma_sum_swap(
    a: [[u8; 8]; 8],
    b: [[u8; 8]; 8],
    m: Seq<Seq<u8>>,
    i: int,
    j: int,
    nk: nat,
    nt: nat,
)
    ensures
        rows_sum(a, b, m, i, j, nk, nt) == cols_sum(a, b, m, i, j, nk, nt),
    decreases nt, nk,
{
    if nt == 0 {
        if nk > 0 {
            lemma_sum_swap(a, b, m, i, j, (nk - 1) as nat, 0);
            lemma_xor_zero(0u8);
        }
    } else {
        lemma_rows_sum_step(a, b, m, i, j, nk, nt);
        lemma_sum_swap(a, b, m, i, j, nk, (nt - 1) as nat);
    }
}

/// A partial entry of `a * (b * m)` is the double sum over the rows done.
proof fn lemma_product_entry(
    a: [[u8; 8]; 8],
    b: [[u8; 8]; 8],
    m: Seq<Seq<u8>>,
    cols: nat,
    i: int,
    j: int,
    n: nat,
)
    requires
        well_shaped(m, cols),
        0 <= j < cols,
        n <= 8,
    ensures
        dot(a, mat_mul(b, m), i, j, n) == rows_sum(a, b, m, i, j, n, 8),
    decreases n,
{
    if n > 0 {
        lemma_product_entry(a, b, m, cols, i, j, (n - 1) as nat);
        lemma_scaled_dot(a, b, m, i, j, n - 1, 8);
        assert(mat_mul(b, m)[n - 1][j] == dot(b, m, n - 1, j, 8));
    }
}

/// Where `a` undoes `b`, the column sums leave the entry of row `i` and
/// nothing else.
proof fn lemma_cols_sum_unit(
    a: [[u8; 8]; 8],
    b: [[u8; 8]; 8],
    m: Seq<Seq<u8>>,
    i: int,
    j: int,
    nt: nat,
)
    requires
        undoes(a, b),
        0 <= i < 8,
        nt <= 8,
    ensures
        cols_sum(a, b, m, i, j, 8, nt) == (if i < nt {
            m[i][j]
        } else {
            0u8
        }),
    decreases nt,
{
    if nt > 0 {
        lemma_cols_sum_unit(a, b, m, i, j, (nt - 1) as nat);
        lemma_xor_zero(m[i][j]);
        lemma_xor_zero(0u8);
        assert(unit_sum(a, b, i, nt - 1, m[nt - 1][j], 8) == (if i == nt - 1 {
            m[nt - 1][j]
        } else {
            0u8
        }));
    }
}

/// Where `a` undoes `b`, multiplying by `b` and then by `a` gives the
/// matrix again.
pub proof fn lemma_mat_mul_undoes(a: [[u8; 8]; 8], b: [[u8; 8]; 8], m: Seq<Seq<u8>>, cols: nat)
    requires
        undoes(a, b),
        well_shaped(m, cols),
    ensures
        mat_mul(a, mat_mul(b, m)) == m,
{
    let inner = mat_mul(b, m);
    let back = mat_mul(a, inner);
    assert(inner[0].len() == cols);
    assert forall|i: int| 0 <= i < 8 implies #[trigger] back[i] == m[i] by {
        assert forall|j: int| 0 <= j < cols implies back[i][j] == m[i][j] by {
            lemma_product_entry(a, b, m, cols, i, j, 8);
            lemma_sum_swap(a, b, m, i, j, 8, 8);
            lemma_cols_sum_unit(a, b, m, i, j, 8);
        }
        assert(back[i] =~= m[i]);
    }
    assert(back =~= m);
}

} // verus!
