use vstd::prelude::*;
use vstd::arithmetic::div_mod::{
    lemma_add_mod_noop_right,
    lemma_fundamental_div_mod,
    lemma_fundamental_div_mod_converse,
    lemma_mod_equivalence,
    lemma_mod_multiples_vanish,
    lemma_mod_pos_bound,
    lemma_small_mod,
};
use crate::matrix::{well_shaped, Matrix};

verus! {

/// The greatest common divisor, by Euclid's recurrence.
pub open spec fn spec_gcd(a: nat, b: nat) -> nat
    decreases b,
{
    if b == 0 {
        a
    } else {
        spec_gcd(b, a % b)
    }
}

/// The row `row` turned left by `shift` places: position `j` of the result
/// holds what stood at position `j + shift`, counted around the row.
pub open spec fn rotate_left(row: Seq<u8>, shift: nat) -> Seq<u8> {
    Seq::new(row.len(), |j: int| row[(j + shift) % (row.len() as int)])
}

/// The position reached from `start` after `steps` jumps of `shift` places
/// around a row of `cols` places.
pub open spec fn orbit(start: int, steps: int, shift: int, cols: int) -> int {
    (start + steps * shift) % cols
}

/// Whether `d` divides both `a` and `b` and is divided by every number
/// that divides both.
pub open spec fn is_gcd(d: nat, a: nat, b: nat) -> bool {
    &&& d > 0
    &&& a % d == 0
    &&& b % d == 0
    &&& forall|e: nat| e > 0 && a % e == 0 && #[trigger] (b % e) == 0 ==> d % e == 0
}

/// The greatest common divisor of `a` and `b`; `a` where `b` is zero.
pub fn gcd(a: usize, b: usize) -> (d: usize)
    ensures
        d == spec_gcd(a as nat, b as nat),
        a > 0 || b > 0 ==> is_gcd(d as nat, a as nat, b as nat),
        a == 0 && b == 0 ==> d == 0,
    decreases b,
{
    proof {
        if a > 0 || b > 0 {
            lemma_spec_gcd_is_gcd(a as nat, b as nat);
        }
    }
    if b == 0 {
        return a;
    }
    gcd(b, a % b)
}

/// A sum of a multiple of `x` and of `y` is divisible by whatever divides both.
proof fn lemma_divides_combination(g: int, x: int, k: int, y: int)
    requires
        g > 0,
        x % g == 0,
        y % g == 0,
    ensures
        (x * k + y) % g == 0,
{
    lemma_fundamental_div_mod(x, g);
    lemma_fundamental_div_mod(y, g);
    let q = (x / g) * k + y / g;
    assert(x * k + y == g * q + 0) by (nonlinear_arith)
        requires
            x == g * (x / g),
            y == g * (y / g),
            q == (x / g) * k + y / g,
    ;
    lemma_mod_multiples_vanish(q, 0, g);
}

/// The greatest common divisor is positive unless both numbers are zero,
/// and it divides both.
pub proof fn lemma_gcd_divides(a: nat, b: nat)
    requires
        a > 0 || b > 0,
    ensures
        spec_gcd(a, b) > 0,
        a % spec_gcd(a, b) == 0,
        b % spec_gcd(a, b) == 0,
    decreases b,
{
    if b == 0 {
        lemma_mod_multiples_vanish(1, 0, a as int);
        lemma_small_mod(0, a);
    } else {
        let g = spec_gcd(b, a % b);
        lemma_mod_pos_bound(a as int, b as int);
        lemma_gcd_divides(b, a % b);
        lemma_fundamental_div_mod(a as int, b as int);
        lemma_divides_combination(g as int, b as int, (a / b) as int, (a % b) as int);
        assert(b * (a / b) + a % b == a) by (nonlinear_arith)
            requires
                a == b * (a / b) + a % b,
        ;
    }
}

/// Bezout's identity: the greatest common divisor is an integer combination
/// of the two numbers.
pub proof fn lemma_bezout(a: nat, b: nat) -> (xy: (int, int))
    ensures
        a * xy.0 + b * xy.1 == spec_gcd(a, b),
    decreases b,
{
    if b == 0 {
        (1, 0)
    } else {
        lemma_mod_pos_bound(a as int, b as int);
        let (x, y) = lemma_bezout(b, a % b);
        lemma_fundamental_div_mod(a as int, b as int);
        let q = (a / b) as int;
        let r = (a % b) as int;
        let g = spec_gcd(a, b) as int;
        assert(a * y + b * (x - q * y) == g) by (nonlinear_arith)
            requires
                a == b * q + r,
                b * x + r * y == g,
        ;
        (y, x - q * y)
    }
}

/// Whatever divides both numbers divides their greatest common divisor.
pub proof fn lemma_gcd_greatest(a: nat, b: nat, e: nat)
    requires
        e > 0,
        a % e == 0,
        b % e == 0,
    ensures
        spec_gcd(a, b) % e == 0,
{
    let (x, y) = lemma_bezout(a, b);
    lemma_fundamental_div_mod(a as int, e as int);
    lemma_fundamental_div_mod(b as int, e as int);
    let q = (a / e) * x + (b / e) * y;
    assert(a * x + b * y == e * q + 0) by (nonlinear_arith)
        requires
            a == e * (a / e),
            b == e * (b / e),
            q == (a / e) * x + (b / e) * y,
    ;
    lemma_mod_multiples_vanish(q, 0, e as int);
    lemma_small_mod(0, e);
}

/// Euclid's recurrence computes the greatest common divisor.
pub proof fn lemma_spec_gcd_is_gcd(a: nat, b: nat)
    requires
        a > 0 || b > 0,
    ensures
        is_gcd(spec_gcd(a, b), a, b),
{
    lemma_gcd_divides(a, b);
    assert forall|e: nat| e > 0 && a % e == 0 && #[trigger] (b % e) == 0 implies spec_gcd(a, b)
        % e == 0 by {
        lemma_gcd_greatest(a, b, e);
    }
}

/// What the lemmas on orbits assume: a row of `cols` places, a jump of
/// `shift` places, their greatest common divisor `d`, and a start below `d`.
pub open spec fn orbit_setting(start: int, shift: int, cols: int, d: int) -> bool {
    &&& cols > 0
    &&& shift > 0
    &&& d == spec_gcd(shift as nat, cols as nat)
    &&& 0 <= start < d
}

/// Every position on the orbit lies in the row and is congruent to the
/// start modulo `d`.
pub proof fn lemma_orbit_class(start: int, steps: int, shift: int, cols: int, d: int)
    requires
        orbit_setting(start, shift, cols, d),
    ensures
        0 <= orbit(start, steps, shift, cols) < cols,
        orbit(start, steps, shift, cols) % d == start,
{
    lemma_gcd_divides(shift as nat, cols as nat);
    let x = start + steps * shift;
    let r = x % cols;
    lemma_fundamental_div_mod(x, cols);
    lemma_fundamental_div_mod(shift, d);
    lemma_fundamental_div_mod(cols, d);
    vstd::arithmetic::div_mod::lemma_mod_bound(x, cols);
    let q = steps * (shift / d) - (cols / d) * (x / cols);
    assert(r == q * d + start) by (nonlinear_arith)
        requires
            x == start + steps * shift,
            x == cols * (x / cols) + r,
            shift == d * (shift / d),
            cols == d * (cols / d),
            q == steps * (shift / d) - (cols / d) * (x / cols),
    ;
    lemma_fundamental_div_mod_converse(r, d, q, start);
}

/// One more jump moves `shift` places further around the row.
pub proof fn lemma_orbit_step(start: int, steps: int, shift: int, cols: int)
    requires
        cols > 0,
    ensures
        orbit(start, steps + 1, shift, cols) == (orbit(start, steps, shift, cols) + shift) % cols,
{
    assert((steps + 1) * shift == steps * shift + shift) by (nonlinear_arith);
    lemma_add_mod_noop_right(shift, start + steps * shift, cols);
}

/// After `cols / d` jumps the orbit is back at its start.
pub proof fn lemma_orbit_period(start: int, shift: int, cols: int, d: int)
    requires
        orbit_setting(start, shift, cols, d),
    ensures
        orbit(start, cols / d, shift, cols) == start,
        d <= cols,
        cols / d > 0,
        cols == d * (cols / d),
{
    lemma_gcd_divides(shift as nat, cols as nat);
    lemma_fundamental_div_mod(shift, d);
    lemma_fundamental_div_mod(cols, d);
    let len = cols / d;
    assert(len > 0 && d <= cols) by (nonlinear_arith)
        requires
            cols == d * len,
            cols > 0,
            d > 0,
    ;
    assert(start + len * shift == cols * (shift / d) + start) by (nonlinear_arith)
        requires
            shift == d * (shift / d),
            cols == d * len,
    ;
    lemma_mod_multiples_vanish(shift / d, start, cols);
    lemma_small_mod(start as nat, cols as nat);
}

/// Fewer than `cols / d` jumps never reach one position twice.
pub proof fn lemma_orbit_injective(start: int, u: int, v: int, shift: int, cols: int, d: int)
    requires
        orbit_setting(start, shift, cols, d),
        0 <= u < v < cols / d,
    ensures
        orbit(start, u, shift, cols) != orbit(start, v, shift, cols),
{
    if orbit(start, u, shift, cols) == orbit(start, v, shift, cols) {
        lemma_gcd_divides(shift as nat, cols as nat);
        lemma_fundamental_div_mod(shift, d);
        lemma_fundamental_div_mod(cols, d);
        let (x, y) = lemma_bezout(shift as nat, cols as nat);
        let len = cols / d;
        let sd = shift / d;
        let w = v - u;
        lemma_mod_equivalence(start + v * shift, start + u * shift, cols);
        assert((start + v * shift) - (start + u * shift) == w * shift) by (nonlinear_arith)
            requires
                w == v - u,
        ;
        lemma_fundamental_div_mod(w * shift, cols);
        let k = (w * shift) / cols;
        assert(w * sd == len * k) by (nonlinear_arith)
            requires
                w * shift == cols * k,
                shift == d * sd,
                cols == d * len,
                d > 0,
        ;
        assert(sd * x + len * y == 1) by (nonlinear_arith)
            requires
                shift * x + cols * y == d,
                shift == d * sd,
                cols == d * len,
                d > 0,
        ;
        let m = k * x + w * y;
        assert(w == len * m) by (nonlinear_arith)
            requires
                sd * x + len * y == 1,
                w * sd == len * k,
                m == k * x + w * y,
        ;
        assert(false) by (nonlinear_arith)
            requires
                w == len * m,
                0 < w < len,
        ;
    }
}

/// Every position congruent to the start modulo `d` lies on the orbit,
/// within the first `cols / d` jumps.
pub proof fn lemma_orbit_onto(start: int, p: int, shift: int, cols: int, d: int) -> (u: int)
    requires
        orbit_setting(start, shift, cols, d),
        0 <= p < cols,
        p % d == start,
    ensures
        0 <= u < cols / d,
        orbit(start, u, shift, cols) == p,
{
    lemma_gcd_divides(shift as nat, cols as nat);
    lemma_orbit_period(start, shift, cols, d);
    lemma_fundamental_div_mod(shift, d);
    lemma_fundamental_div_mod(cols, d);
    lemma_fundamental_div_mod(p, d);
    let (x, y) = lemma_bezout(shift as nat, cols as nat);
    let len = cols / d;
    let sd = shift / d;
    let m = p / d;
    let u0 = m * x;
    let u = u0 % len;
    vstd::arithmetic::div_mod::lemma_mod_bound(u0, len);
    lemma_fundamental_div_mod(u0, len);
    let a = u0 / len;
    let q = 0 - m * y - sd * a;
    assert(u * shift == m * (x * shift) - a * (len * shift)) by (nonlinear_arith)
        requires
            u0 == m * x,
            u0 == len * a + u,
    ;
    assert(len * shift == cols * sd) by (nonlinear_arith)
        requires
            shift == d * sd,
            cols == d * len,
    ;
    assert(m * (x * shift) == m * d - cols * (m * y)) by (nonlinear_arith)
        requires
            shift * x + cols * y == d,
    ;
    assert(a * (cols * sd) == cols * (sd * a)) by (nonlinear_arith);
    assert(q * cols == 0 - cols * (m * y) - cols * (sd * a)) by (nonlinear_arith)
        requires
            q == 0 - m * y - sd * a,
    ;
    assert(start + u * shift == q * cols + p);
    lemma_fundamental_div_mod_converse(start + u * shift, cols, q, p);
    u
}

/// Turning a row by zero places leaves it as it is.
pub proof fn lemma_rotate_zero(row: Seq<u8>)
    ensures
        rotate_left(row, 0) == row,
{
    let turned = rotate_left(row, 0);
    assert forall|j: int| 0 <= j < row.len() implies #[trigger] turned[j] == row[j] by {
        lemma_small_mod(j as nat, row.len());
    }
    assert(turned =~= row);
}

/// Turns row `row` of the matrix left by `shift` places, in place, one
/// cycle of the permutation after the other.
pub fn rotate_row(matrix: &mut Matrix, row: usize, shift: usize)
    requires
        old(matrix).wf(),
        row < 8,
        0 < shift <= 255,
    ensures
        final(matrix).wf(),
        final(matrix).spec_cols() == old(matrix).spec_cols(),
        final(matrix)@ == old(matrix)@.update(
            row as int,
            rotate_left(old(matrix)@[row as int], shift as nat),
        ),
{
    let cols = matrix.cols();
    let d = gcd(shift, cols);
    let ghost before = matrix@;
    let ghost r0 = matrix@[row as int];
    let ghost len = cols as int / d as int;
    let ghost s = shift as int;
    let ghost c = cols as int;
    proof {
        lemma_gcd_divides(shift as nat, cols as nat);
        lemma_orbit_period(0, s, c, d as int);
    }
    let mut j: usize = 0;
    while j < d
        invariant
            j <= d,
            d == spec_gcd(shift as nat, cols as nat),
            0 < d <= cols,
            0 < shift <= 255,
            cols == matrix.spec_cols(),
            s == shift,
            c == cols,
            len == c / (d as int),
            row < 8,
            matrix.wf(),
            well_shaped(before, cols as nat),
            r0 == before[row as int],
            forall|r: int| 0 <= r < 8 && r != row ==> #[trigger] matrix@[r] == before[r],
            forall|p: int|
                0 <= p < c ==> #[trigger] matrix@[row as int][p] == (if p % (d as int) < j {
                    r0[(p + s) % c]
                } else {
                    r0[p]
                }),
        decreases d - j,
    {
        let mut k: usize = j;
        let tmp: u8 = matrix.get(row, k);
        let ghost mut t: int = 0;
        let ghost st = j as int;
        let ghost dd = d as int;
        proof {
            lemma_orbit_period(st, s, c, dd);
            assert(orbit(st, 0, s, c) == st) by {
                assert(0 * s == 0) by (nonlinear_arith);
                lemma_small_mod(st as nat, c as nat);
            }
            assert forall|u: int| 0 <= u < len implies #[trigger] matrix@[row as int][orbit(
                st,
                u,
                s,
                c,
            )] == r0[orbit(st, u, s, c)] by {
                lemma_orbit_class(st, u, s, c, dd);
            }
        }
        loop
            invariant
                orbit_setting(st, s, c, dd),
                st == j,
                dd == d,
                0 < shift <= 255,
                s == shift,
                c == cols,
                cols == matrix.spec_cols(),
                len == c / dd,
                row < 8,
                matrix.wf(),
                well_shaped(before, cols as nat),
                r0 == before[row as int],
                tmp == r0[st],
                0 <= t < len,
                k == orbit(st, t, s, c),
                0 <= k < cols,
                forall|r: int| 0 <= r < 8 && r != row ==> #[trigger] matrix@[r] == before[r],
                forall|p: int|
                    0 <= p < c && p % dd != st ==> #[trigger] matrix@[row as int][p] == (if p % dd
                        < st {
                        r0[(p + s) % c]
                    } else {
                        r0[p]
                    }),
                forall|u: int|
                    0 <= u < len ==> matrix@[row as int][#[trigger] orbit(st, u, s, c)] == (if u
                        < t {
                        r0[orbit(st, u + 1, s, c)]
                    } else {
                        r0[orbit(st, u, s, c)]
                    }),
            ensures
                (k + shift) % (cols as int) == st,
                t == len - 1,
            decreases len - t,
        {
            let pos: usize = (k + shift) % cols;
            proof {
                lemma_orbit_step(st, t, s, c);
                lemma_orbit_class(st, t + 1, s, c, dd);
                lemma_orbit_period(st, s, c, dd);
                if t + 1 < len && pos == j {
                    assert(orbit(st, 0, s, c) == st) by {
                        assert(0 * s == 0) by (nonlinear_arith);
                        lemma_small_mod(st as nat, c as nat);
                    }
                    lemma_orbit_injective(st, 0, t + 1, s, c, dd);
                }
            }
            if pos == j {
                break ;
            }
            let v: u8 = matrix.get(row, pos);
            matrix.set(row, k, v);
            proof {
                lemma_orbit_class(st, t, s, c, dd);
                assert forall|u: int| 0 <= u < len implies matrix@[row as int][#[trigger] orbit(
                    st,
                    u,
                    s,
                    c,
                )] == (if u < t + 1 {
                    r0[orbit(st, u + 1, s, c)]
                } else {
                    r0[orbit(st, u, s, c)]
                }) by {
                    lemma_orbit_class(st, u, s, c, dd);
                    if u < t {
                        lemma_orbit_injective(st, u, t, s, c, dd);
                    } else if u > t {
                        lemma_orbit_injective(st, t, u, s, c, dd);
                    }
                }
                t = t + 1;
            }
            k = pos;
        }
        let ghost prev = matrix@;
        matrix.set(row, k, tmp);
        proof {
            lemma_orbit_period(st, s, c, dd);
            lemma_orbit_class(st, t, s, c, dd);
            assert forall|p: int| 0 <= p < c implies #[trigger] matrix@[row as int][p] == (if p
                % dd < j + 1 {
                r0[(p + s) % c]
            } else {
                r0[p]
            }) by {
                if p % dd == st {
                    let u = lemma_orbit_onto(st, p, s, c, dd);
                    lemma_orbit_step(st, u, s, c);
                    if u < t {
                        lemma_orbit_injective(st, u, t, s, c, dd);
                        assert(matrix@[row as int][orbit(st, u, s, c)] == prev[row as int][orbit(
                            st,
                            u,
                            s,
                            c,
                        )]);
                    } else {
                        assert(u == t);
                        assert(orbit(st, t + 1, s, c) == st);
                    }
                } else {
                    assert(p != k);
                    assert(matrix@[row as int][p] == prev[row as int][p]);
                }
            }
        }
        j += 1;
    }
    proof {
        let got = matrix@[row as int];
        let want = rotate_left(r0, shift as nat);
        assert forall|p: int| 0 <= p < c implies got[p] == want[p] by {
            lemma_mod_pos_bound(p, d as int);
            assert(matrix@[row as int][p] == r0[(p + s) % c]);
        }
        assert(got =~= want);
        assert(matrix@ =~= before.update(row as int, want));
    }
}

} // verus!
