use vstd::prelude::*;
use vstd::arithmetic::div_mod::{
    lemma_add_mod_noop_right,
    lemma_fundamental_div_mod,
    lemma_fundamental_div_mod_converse,
    lemma_mod_bound,
    lemma_mod_multiples_vanish,
    lemma_small_mod,
};
use vstd::seq_lib::lemma_seq_union_to_multiset_commutative;
use crate::buffer::zeros;
use crate::endian::be_bytes;
use crate::hash::{
    absorb,
    block_at,
    compress_all,
    count_after,
    finish,
    groestl,
    initial_model,
    lemma_block_bounds,
    padded,
    padded_blocks,
    HasherModel,
};
use crate::matrix::well_shaped;
use crate::permutation::{block_rows, compress, lemma_compress_len, rows_block, shift_bytes};
use crate::rotation::{lemma_gcd_divides, rotate_left, spec_gcd};
use crate::state::{initial_chain, next_count, truncated_output, valid_config};

verus! {

/// A row turned left `n` times by `shift` places.
pub open spec fn rotate_times(row: Seq<u8>, shift: nat, n: nat) -> Seq<u8>
    decreases n,
{
    if n == 0 {
        row
    } else {
        rotate_left(rotate_times(row, shift, (n - 1) as nat), shift)
    }
}

/// ShiftBytes applied `n` times with the same shifts.
pub open spec fn shift_bytes_times(m: Seq<Seq<u8>>, shifts: Seq<u8>, n: nat) -> Seq<Seq<u8>>
    decreases n,
{
    if n == 0 {
        m
    } else {
        shift_bytes(shift_bytes_times(m, shifts, (n - 1) as nat), shifts)
    }
}

/// Laying a block out as a matrix and reading the matrix back gives the
/// block again, for every block whose length is a multiple of eight.
pub proof fn lemma_block_round_trip(block: Seq<u8>)
    requires
        block.len() % 8 == 0,
    ensures
        rows_block(block_rows(block)) == block,
{
    let m = block_rows(block);
    let back = rows_block(m);
    assert(m[0].len() == block.len() / 8);
    assert(back.len() == block.len());
    assert forall|k: int| 0 <= k < block.len() implies back[k] == block[k] by {
        assert(0 <= k % 8 < 8);
        assert(0 <= k / 8 < block.len() / 8);
        assert((k / 8) * 8 + k % 8 == k);
        assert(m[k % 8][k / 8] == block[(k / 8) * 8 + k % 8]);
    }
    assert(back =~= block);
}

/// Reading a matrix out as a block and laying the block out again gives
/// the matrix again.
pub proof fn lemma_matrix_round_trip(m: Seq<Seq<u8>>, cols: nat)
    requires
        well_shaped(m, cols),
    ensures
        block_rows(rows_block(m)) == m,
{
    let block = rows_block(m);
    let back = block_rows(block);
    assert(block.len() == 8 * cols);
    assert(block.len() / 8 == cols);
    assert forall|i: int| 0 <= i < 8 implies #[trigger] back[i] == m[i] by {
        assert forall|j: int| 0 <= j < cols implies back[i][j] == m[i][j] by {
            assert((j * 8 + i) % 8 == i);
            assert((j * 8 + i) / 8 == j);
        }
        assert(back[i] =~= m[i]);
    }
    assert(back =~= m);
}

/// Turning a row by `a` places and then by `b` places is turning it by
/// `a + b` places.
pub proof fn lemma_rotate_compose(row: Seq<u8>, a: nat, b: nat)
    ensures
        rotate_left(rotate_left(row, a), b) == rotate_left(row, a + b),
{
    let c = row.len() as int;
    let once = rotate_left(row, a);
    let twice = rotate_left(once, b);
    let direct = rotate_left(row, a + b);
    assert forall|j: int| 0 <= j < c implies twice[j] == direct[j] by {
        lemma_mod_bound(j + b, c);
        lemma_add_mod_noop_right(a as int, j + b, c);
        assert(twice[j] == once[(j + b) % c]);
        assert((j + b) % c + a == a + (j + b) % c);
        assert(j + (a + b) == a + (j + b));
    }
    assert(twice =~= direct);
}

/// Turning a row by a multiple of its length leaves it as it is.
pub proof fn lemma_rotate_full_turns(row: Seq<u8>, turns: nat)
    ensures
        rotate_left(row, turns * row.len()) == row,
{
    let c = row.len() as int;
    let turned = rotate_left(row, turns * row.len());
    assert forall|j: int| 0 <= j < c implies turned[j] == row[j] by {
        lemma_mod_multiples_vanish(turns as int, j, c);
        lemma_small_mod(j as nat, c as nat);
        assert(j + turns * row.len() == c * turns + j) by (nonlinear_arith)
            requires
                c == row.len(),
        ;
    }
    assert(turned =~= row);
}

/// Turning a row `n` times by `shift` places is turning it once by
/// `n * shift` places.
pub proof fn lemma_rotate_times(row: Seq<u8>, shift: nat, n: nat)
    ensures
        rotate_times(row, shift, n) == rotate_left(row, n * shift),
    decreases n,
{
    if n == 0 {
        assert(0 * shift == 0) by (nonlinear_arith);
        lemma_rotate_full_turns(row, 0);
        assert(0 * row.len() == 0) by (nonlinear_arith);
    } else {
        lemma_rotate_times(row, shift, (n - 1) as nat);
        lemma_rotate_compose(row, ((n - 1) * shift) as nat, shift);
        assert((n - 1) * shift + shift == n * shift) by (nonlinear_arith);
        assert((n - 1) * shift >= 0) by (nonlinear_arith)
            requires
                n >= 1,
                shift >= 0,
        ;
    }
}

/// A turned row holds the bytes of the row, each as often as the row does:
/// turning permutes the places of a row.
pub proof fn lemma_rotate_permutes(row: Seq<u8>, shift: nat)
    ensures
        rotate_left(row, shift).len() == row.len(),
        rotate_left(row, shift).to_multiset() == row.to_multiset(),
{
    let c = row.len() as int;
    if c > 0 {
        let s = (shift as int) % c;
        lemma_mod_bound(shift as int, c);
        let head = row.subrange(0, s);
        let tail = row.subrange(s, c);
        let turned = rotate_left(row, shift);
        assert forall|j: int| 0 <= j < c implies turned[j] == (tail + head)[j] by {
            lemma_add_mod_noop_right(j, shift as int, c);
            if j + s < c {
                lemma_small_mod((j + s) as nat, c as nat);
            } else {
                lemma_mod_multiples_vanish(1, j + s - c, c);
                lemma_small_mod((j + s - c) as nat, c as nat);
                assert(c * 1 + (j + s - c) == j + s);
            }
        }
        assert(turned =~= tail + head);
        assert(row =~= head + tail);
        lemma_seq_union_to_multiset_commutative(head, tail);
    } else {
        assert(rotate_left(row, shift) =~= row);
    }
}

/// Turning a row by the same shift as often as the row is long gives the
/// row again.
pub proof fn lemma_rotate_restores(row: Seq<u8>, shift: nat)
    ensures
        rotate_times(row, shift, row.len()) == row,
{
    lemma_rotate_times(row, shift, row.len());
    lemma_rotate_full_turns(row, shift);
    assert(row.len() * shift == shift * row.len()) by (nonlinear_arith);
}

/// Turning a row of `c` places by `shift` places gives the row again after
/// `c / gcd(shift, c)` turns.
pub proof fn lemma_rotate_period(row: Seq<u8>, shift: nat)
    requires
        row.len() > 0,
    ensures
        rotate_times(row, shift, row.len() / spec_gcd(shift, row.len())) == row,
{
    let c = row.len();
    let d = spec_gcd(shift, c);
    lemma_gcd_divides(shift, c);
    lemma_fundamental_div_mod(shift as int, d as int);
    lemma_fundamental_div_mod(c as int, d as int);
    let n = c / d;
    let k = shift / d;
    lemma_rotate_times(row, shift, n);
    lemma_rotate_full_turns(row, k);
    assert(n * shift == k * c) by (nonlinear_arith)
        requires
            shift == d * k,
            c == d * n,
    ;
}

/// ShiftBytes applied `n` times turns every row `n` times by its shift.
pub proof fn lemma_shift_bytes_times_rows(m: Seq<Seq<u8>>, shifts: Seq<u8>, n: nat)
    requires
        m.len() == 8,
    ensures
        shift_bytes_times(m, shifts, n).len() == 8,
        forall|i: int|
            0 <= i < 8 ==> #[trigger] shift_bytes_times(m, shifts, n)[i] == rotate_times(
                m[i],
                shifts[i] as nat,
                n,
            ),
    decreases n,
{
    if n > 0 {
        lemma_shift_bytes_times_rows(m, shifts, (n - 1) as nat);
    }
}

/// ShiftBytes applied as often as the matrix has columns gives the matrix
/// again, whatever the shifts.
pub proof fn lemma_shift_bytes_restores(m: Seq<Seq<u8>>, shifts: Seq<u8>, cols: nat)
    requires
        well_shaped(m, cols),
    ensures
        shift_bytes_times(m, shifts, cols) == m,
{
    lemma_shift_bytes_times_rows(m, shifts, cols);
    let back = shift_bytes_times(m, shifts, cols);
    assert forall|i: int| 0 <= i < 8 implies #[trigger] back[i] == m[i] by {
        lemma_rotate_restores(m[i], shifts[i] as nat);
    }
    assert(back =~= m);
}

/// The quotient and remainder of `q * l + r` by `l`, for `0 <= r < l`.
proof fn lemma_div_mod_of(q: int, r: int, l: int)
    requires
        0 <= r < l,
    ensures
        (q * l + r) / l == q,
        (q * l + r) % l == r,
{
    lemma_fundamental_div_mod_converse(q * l + r, l, q, r);
}

/// Compressing blocks keeps the length of the chaining value.
pub proof fn lemma_compress_all_len(h: Seq<u8>, data: Seq<u8>, l: nat, n: nat)
    requires
        h.len() % 8 == 0,
    ensures
        compress_all(h, data, l, n).len() == h.len(),
    decreases n,
{
    if n > 0 {
        lemma_compress_all_len(h, data, l, (n - 1) as nat);
        lemma_compress_len(compress_all(h, data, l, (n - 1) as nat), block_at(data, l, n - 1));
    }
}

/// The chaining value after `n` blocks depends on those blocks only.
pub proof fn lemma_compress_all_prefix(h: Seq<u8>, d1: Seq<u8>, d2: Seq<u8>, l: nat, n: nat)
    requires
        l > 0,
        n * l <= d1.len(),
        n * l <= d2.len(),
        forall|i: int| 0 <= i < n * l ==> d1[i] == d2[i],
    ensures
        compress_all(h, d1, l, n) == compress_all(h, d2, l, n),
    decreases n,
{
    if n > 0 {
        lemma_block_bounds(n - 1, n as int, l as int);
        lemma_compress_all_prefix(h, d1, d2, l, (n - 1) as nat);
        assert(block_at(d1, l, n - 1) =~= block_at(d2, l, n - 1));
    }
}

/// Compressing `n1 + n2` blocks is compressing the first `n1` and then the
/// `n2` that follow them.
pub proof fn lemma_compress_all_split(h: Seq<u8>, data: Seq<u8>, l: nat, n1: nat, n2: nat)
    requires
        l > 0,
        (n1 + n2) * l <= data.len(),
    ensures
        compress_all(h, data, l, n1 + n2) == compress_all(
            compress_all(h, data, l, n1),
            data.skip((n1 * l) as int),
            l,
            n2,
        ),
    decreases n2,
{
    if n2 > 0 {
        let m = (n2 - 1) as nat;
        assert((n1 + m) * l <= (n1 + n2) * l && (n1 + n2) * l == n1 * l + m * l + l && 0 <= n1 * l
            && 0 <= m * l && (m + 1) * l == m * l + l && (n1 + n2 - 1) * l == n1 * l + m * l && (n1
            + n2 - 1 + 1) * l == n1 * l + m * l + l) by (nonlinear_arith)
            requires
                m == n2 - 1,
                n2 >= 1,
                l > 0,
        ;
        lemma_compress_all_split(h, data, l, n1, m);
        let rest = data.skip((n1 * l) as int);
        assert(block_at(rest, l, m as int) =~= block_at(data, l, n1 + n2 - 1));
        assert((n1 + n2 - 1) as nat == n1 + m);
    } else {
        assert(n1 + n2 == n1);
    }
}

/// Counting `n1` blocks and then `n2` more is counting `n1 + n2` blocks.
pub proof fn lemma_count_after_add(start: u64, n1: nat, n2: nat)
    ensures
        count_after(count_after(start, n1), n2) == count_after(start, n1 + n2),
    decreases n2,
{
    if n2 > 0 {
        lemma_count_after_add(start, n1, (n2 - 1) as nat);
        assert((n1 + n2 - 1) as nat == n1 + (n2 - 1) as nat);
    }
}

/// Below 2^64 the block counter from zero is the number of blocks.
pub proof fn lemma_count_from_zero(n: nat)
    requires
        n <= u64::MAX,
    ensures
        count_after(0, n) == n,
    decreases n,
{
    if n > 0 {
        lemma_count_from_zero((n - 1) as nat);
    }
}

/// Taking in `a` and then `b` leaves the hasher as taking in `a + b` at
/// once does: the chaining value, the pending bytes and the block count
/// are the same.
pub proof fn lemma_absorb_split(s: HasherModel, a: Seq<u8>, b: Seq<u8>)
    requires
        s.wf(),
    ensures
        absorb(s, a).wf(),
        absorb(absorb(s, a), b) == absorb(s, a + b),
{
    let l = s.chain.len();
    let li = l as int;
    let data1 = s.pending + a;
    let n1 = data1.len() / l;
    let r1 = data1.len() % l;
    lemma_fundamental_div_mod(data1.len() as int, li);
    lemma_mod_bound(data1.len() as int, li);
    assert(n1 * l == li * (n1 as int)) by (nonlinear_arith)
        requires
            li == l,
    ;
    let s1 = absorb(s, a);
    lemma_compress_all_len(s.chain, data1, l, n1);
    assert(s1.pending.len() == r1);
    let data2 = s1.pending + b;
    let n2 = data2.len() / l;
    lemma_fundamental_div_mod(data2.len() as int, li);
    lemma_mod_bound(data2.len() as int, li);
    assert(n2 * l == li * (n2 as int)) by (nonlinear_arith)
        requires
            li == l,
    ;
    let data = s.pending + (a + b);
    assert(data =~= data1 + b);
    let n = data.len() / l;
    let r2 = data2.len() % l;
    assert(data.len() == (n1 + n2) * li + r2) by (nonlinear_arith)
        requires
            data.len() == data1.len() + b.len(),
            data1.len() == n1 * l + r1,
            data2.len() == r1 + b.len(),
            data2.len() == n2 * l + r2,
            li == l,
    ;
    lemma_div_mod_of((n1 + n2) as int, r2 as int, li);
    assert(n == n1 + n2);
    assert((n1 + n2) * l == n1 * l + n2 * l) by (nonlinear_arith);
    assert(0 <= n2 * l) by (nonlinear_arith);
    lemma_compress_all_split(s.chain, data, l, n1, n2);
    lemma_compress_all_prefix(s.chain, data, data1, l, n1);
    assert(data.skip((n1 * l) as int) =~= data2);
    assert(data.subrange((n * l) as int, data.len() as int) =~= data2.subrange(
        (n2 * l) as int,
        data2.len() as int,
    ));
    lemma_count_after_add(s.blocks, n1, n2);
    assert(absorb(s1, b) =~= absorb(s, a + b));
}

/// The digest of a usable hasher is as long as the digest length says.
pub proof fn lemma_finish_len(s: HasherModel)
    requires
        s.wf(),
    ensures
        finish(s).len() == s.digest_len,
{
    let l = s.chain.len();
    let marked = s.pending.push(0x80u8);
    if l - marked.len() < 8 {
        let block = marked + zeros((l - marked.len()) as nat);
        let carried = compress(s.chain, block);
        lemma_compress_len(s.chain, block);
        let last = zeros((l - 8) as nat) + be_bytes(next_count(next_count(s.blocks)));
        lemma_compress_len(carried, last);
        lemma_compress_len(compress(carried, last), last);
    } else {
        let last = marked + zeros((l - 8 - marked.len()) as nat) + be_bytes(next_count(s.blocks));
        lemma_compress_len(s.chain, last);
        lemma_compress_len(compress(s.chain, last), last);
    }
}

/// A message of fewer than `l - 8` bytes is all pending when the digest is
/// asked for: no block has been compressed, and the digest comes from the
/// first chaining value by the one compression of the padded message.
pub proof fn lemma_short_message(msg: Seq<u8>, d: nat, l: nat)
    requires
        valid_config(d, l),
        msg.len() < l - 8,
    ensures
        absorb(initial_model(d, l), msg).blocks == 0,
        absorb(initial_model(d, l), msg).chain == initial_chain(d, l),
        absorb(initial_model(d, l), msg).pending == msg,
        finish(absorb(initial_model(d, l), msg)) == truncated_output(
            compress(
                initial_chain(d, l),
                msg.push(0x80u8) + zeros((l - 9 - msg.len()) as nat) + be_bytes(1),
            ),
            d,
        ),
{
    let s0 = initial_model(d, l);
    let data = s0.pending + msg;
    assert(data =~= msg);
    lemma_div_mod_of(0, msg.len() as int, l as int);
    assert(0 * l == 0) by (nonlinear_arith);
    assert(data.len() / l == 0);
    let s = absorb(s0, msg);
    assert(s.pending =~= msg);
}

/// Taking a message in, in one piece, and asking for the digest gives the
/// digest of the message as the padded message defines it.
pub proof fn lemma_hash_of_message(msg: Seq<u8>, d: nat, l: nat)
    requires
        valid_config(d, l),
    ensures
        finish(absorb(initial_model(d, l), msg)) == groestl(msg, d, l),
        groestl(msg, d, l).len() == d,
{
    let li = l as int;
    let s0 = initial_model(d, l);
    let iv = initial_chain(d, l);
    let data = s0.pending + msg;
    assert(data =~= msg);
    let n0 = msg.len() / l;
    let r = msg.len() % l;
    lemma_fundamental_div_mod(msg.len() as int, li);
    lemma_mod_bound(msg.len() as int, li);
    assert(n0 * l == li * (n0 as int)) by (nonlinear_arith)
        requires
            li == l,
    ;
    let s = absorb(s0, msg);
    let pending = s.pending;
    assert(pending.len() == r);
    lemma_compress_all_len(iv, msg, l, n0);
    assert(s.wf());
    lemma_finish_len(s);
    let marked = pending.push(0x80u8);
    let total = padded_blocks(msg.len(), l);
    let p = padded(msg, l);
    if l - marked.len() < 8 {
        assert(msg.len() + 8 + l == (n0 + 2) * li + (r + 8 - l)) by (nonlinear_arith)
            requires
                msg.len() == n0 * l + r,
                li == l,
        ;
        lemma_div_mod_of((n0 + 2) as int, r + 8 - l, li);
        assert(total == n0 + 2);
        assert((n0 + 2) * l == n0 * l + 2 * l && (n0 + 1) * l == n0 * l + l) by (nonlinear_arith);
        assert(p.len() == (n0 + 2) * l);
        let first = marked + zeros((l - marked.len()) as nat);
        let last = zeros((l - 8) as nat) + be_bytes(next_count(next_count(s.blocks)));
        lemma_compress_all_prefix(iv, p, msg, l, n0);
        assert(block_at(p, l, n0 as int) =~= first);
        assert((n0 + 1 + 1) * l == n0 * l + 2 * l) by (nonlinear_arith);
        assert(count_after(0, (n0 + 1) as nat) == next_count(count_after(0, n0)));
        assert(count_after(0, (n0 + 2) as nat) == next_count(count_after(0, (n0 + 1) as nat)));
        assert(block_at(p, l, (n0 + 1) as int) =~= last);
        assert(compress_all(iv, p, l, (n0 + 1) as nat) == compress(
            compress_all(iv, p, l, n0),
            block_at(p, l, n0 as int),
        ));
        assert(compress_all(iv, p, l, (n0 + 2) as nat) == compress(
            compress_all(iv, p, l, (n0 + 1) as nat),
            block_at(p, l, (n0 + 1) as int),
        ));
    } else {
        assert(msg.len() + 8 + l == (n0 + 1) * li + (r + 8)) by (nonlinear_arith)
            requires
                msg.len() == n0 * l + r,
                li == l,
        ;
        lemma_div_mod_of((n0 + 1) as int, (r + 8) as int, li);
        assert(total == n0 + 1);
        assert((n0 + 1) * l == n0 * l + l) by (nonlinear_arith);
        assert(p.len() == (n0 + 1) * l);
        let last = marked + zeros((l - 8 - marked.len()) as nat) + be_bytes(next_count(s.blocks));
        lemma_compress_all_prefix(iv, p, msg, l, n0);
        assert(block_at(p, l, n0 as int) =~= last);
        assert(compress_all(iv, p, l, (n0 + 1) as nat) == compress(
            compress_all(iv, p, l, n0),
            block_at(p, l, n0 as int),
        ));
    }
}

/// Taking a message in, in two pieces, and asking for the digest gives the
/// digest of the whole message.
pub proof fn lemma_hash_of_pieces(a: Seq<u8>, b: Seq<u8>, d: nat, l: nat)
    requires
        valid_config(d, l),
    ensures
        finish(absorb(absorb(initial_model(d, l), a), b)) == groestl(a + b, d, l),
{
    lemma_absorb_split(initial_model(d, l), a, b);
    lemma_hash_of_message(a + b, d, l);
}

} // verus!
