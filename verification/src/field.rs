use vstd::prelude::*;

verus! {

/// Multiplication by x in GF(2^8) modulo x^8 + x^4 + x^3 + x + 1: the
/// polynomial is shifted up by one place and, where the top coefficient
/// was set, reduced by 0x1b.
pub open spec fn xtime(a: u8) -> u8 {
    ((a & 0x7f) << 1) ^ (if a >= 0x80 {
        0x1bu8
    } else {
        0u8
    })
}

/// The product of `a` and `b` in GF(2^8) modulo 0x11b, read off the binary
/// expansion of `b`: `a * b = a * b_0 + (a * x) * (b / x)`.
pub open spec fn gf_mul(a: u8, b: u8) -> u8
    decreases b,
{
    if b == 0 {
        0u8
    } else {
        (if b % 2 == 1 {
            a
        } else {
            0u8
        }) ^ gf_mul(xtime(a), b / 2)
    }
}

/// Exclusive or is associative.
pub proof fn lemma_xor_assoc(a: u8, b: u8, c: u8)
    by (bit_vector)
    ensures
        a ^ (b ^ c) == (a ^ b) ^ c,
{
}

/// Zero is neutral for exclusive or, and every byte is its own inverse.
pub proof fn lemma_xor_zero(a: u8)
    by (bit_vector)
    ensures
        a ^ 0u8 == a,
        0u8 ^ a == a,
        a ^ a == 0u8,
{
}

/// Multiplies by x without branching on the operand.
pub fn times_x(a: u8) -> (r: u8)
    ensures
        r == xtime(a),
{
    let low: u8 = a & 0x7f;
    let top: u8 = a >> 7;
    assert(low < 0x80) by (bit_vector)
        requires
            low == a & 0x7f,
    ;
    assert(top == (if a >= 0x80 {
        1u8
    } else {
        0u8
    })) by (bit_vector)
        requires
            top == a >> 7,
    ;
    (low << 1) ^ (top * 0x1b)
}

/// Multiplies two field elements by the shift-and-add method.
pub fn multiply(a: u8, b: u8) -> (r: u8)
    ensures
        r == gf_mul(a, b),
{
    let mut acc: u8 = 0;
    let mut x: u8 = a;
    let mut y: u8 = b;
    proof {
        lemma_xor_zero(gf_mul(a, b));
    }
    while y != 0
        invariant
            acc ^ gf_mul(x, y) == gf_mul(a, b),
        decreases y,
    {
        let ghost rest = gf_mul(xtime(x), y / 2);
        let ghost acc0 = acc;
        if y % 2 == 1 {
            acc = acc ^ x;
            proof {
                lemma_xor_assoc(acc0, x, rest);
            }
        } else {
            proof {
                lemma_xor_zero(rest);
            }
        }
        x = times_x(x);
        y = y / 2;
    }
    proof {
        lemma_xor_zero(acc);
    }
    acc
}

/// Multiplying by one leaves a field element as it is.
pub proof fn lemma_gf_mul_one(a: u8)
    ensures
        gf_mul(a, 1) == a,
{
    reveal_with_fuel(gf_mul, 2);
    lemma_xor_zero(a);
}

/// Multiplying by two is multiplying by x; by three, that plus the element.
pub proof fn lemma_gf_mul_two_three(a: u8)
    ensures
        gf_mul(a, 2) == xtime(a),
        gf_mul(a, 3) == a ^ xtime(a),
{
    reveal_with_fuel(gf_mul, 3);
    lemma_xor_zero(xtime(a));
    lemma_xor_zero(xtime(xtime(a)));
}

} // verus!
