use vstd::prelude::*;

verus! {

/// The AES substitution box: `SBOX[x]` is the image of the byte `x`.
pub const SBOX: [u8; 256] = [
    0x63, 0x7c, 0x77, 0x7b, 0xf2, 0x6b, 0x6f, 0xc5, 0x30, 0x01, 0x67, 0x2b, 0xfe, 0xd7, 0xab, 0x76,
    0xca, 0x82, 0xc9, 0x7d, 0xfa, 0x59, 0x47, 0xf0, 0xad, 0xd4, 0xa2, 0xaf, 0x9c, 0xa4, 0x72, 0xc0,
    0xb7, 0xfd, 0x93, 0x26, 0x36, 0x3f, 0xf7, 0xcc, 0x34, 0xa5, 0xe5, 0xf1, 0x71, 0xd8, 0x31, 0x15,
    0x04, 0xc7, 0x23, 0xc3, 0x18, 0x96, 0x05, 0x9a, 0x07, 0x12, 0x80, 0xe2, 0xeb, 0x27, 0xb2, 0x75,
    0x09, 0x83, 0x2c, 0x1a, 0x1b, 0x6e, 0x5a, 0xa0, 0x52, 0x3b, 0xd6, 0xb3, 0x29, 0xe3, 0x2f, 0x84,
    0x53, 0xd1, 0x00, 0xed, 0x20, 0xfc, 0xb1, 0x5b, 0x6a, 0xcb, 0xbe, 0x39, 0x4a, 0x4c, 0x58, 0xcf,
    0xd0, 0xef, 0xaa, 0xfb, 0x43, 0x4d, 0x33, 0x85, 0x45, 0xf9, 0x02, 0x7f, 0x50, 0x3c, 0x9f, 0xa8,
    0x51, 0xa3, 0x40, 0x8f, 0x92, 0x9d, 0x38, 0xf5, 0xbc, 0xb6, 0xda, 0x21, 0x10, 0xff, 0xf3, 0xd2,
    0xcd, 0x0c, 0x13, 0xec, 0x5f, 0x97, 0x44, 0x17, 0xc4, 0xa7, 0x7e, 0x3d, 0x64, 0x5d, 0x19, 0x73,
    0x60, 0x81, 0x4f, 0xdc, 0x22, 0x2a, 0x90, 0x88, 0x46, 0xee, 0xb8, 0x14, 0xde, 0x5e, 0x0b, 0xdb,
    0xe0, 0x32, 0x3a, 0x0a, 0x49, 0x06, 0x24, 0x5c, 0xc2, 0xd3, 0xac, 0x62, 0x91, 0x95, 0xe4, 0x79,
    0xe7, 0xc8, 0x37, 0x6d, 0x8d, 0xd5, 0x4e, 0xa9, 0x6c, 0x56, 0xf4, 0xea, 0x65, 0x7a, 0xae, 0x08,
    0xba, 0x78, 0x25, 0x2e, 0x1c, 0xa6, 0xb4, 0xc6, 0xe8, 0xdd, 0x74, 0x1f, 0x4b, 0xbd, 0x8b, 0x8a,
    0x70, 0x3e, 0xb5, 0x66, 0x48, 0x03, 0xf6, 0x0e, 0x61, 0x35, 0x57, 0xb9, 0x86, 0xc1, 0x1d, 0x9e,
    0xe1, 0xf8, 0x98, 0x11, 0x69, 0xd9, 0x8e, 0x94, 0x9b, 0x1e, 0x87, 0xe9, 0xce, 0x55, 0x28, 0xdf,
    0x8c, 0xa1, 0x89, 0x0d, 0xbf, 0xe6, 0x42, 0x68, 0x41, 0x99, 0x2d, 0x0f, 0xb0, 0x54, 0xbb, 0x16,
];

/// Round-constant table of the permutation P, eight rows of sixteen columns,
/// entry (row, col) at index `row * 16 + col`.
pub const C_P: [u8; 128] = [
    0x00, 0x10, 0x20, 0x30, 0x40, 0x50, 0x60, 0x70, 0x80, 0x90, 0xa0, 0xb0, 0xc0, 0xd0, 0xe0, 0xf0,
    0x00, 0x00, 0x00, 0x00, 0x00, 0x00, 0x00, 0x00, 0x00, 0x00, 0x00, 0x00, 0x00, 0x00, 0x00, 0x00,
    0x00, 0x00, 0x00, 0x00, 0x00, 0x00, 0x00, 0x00, 0x00, 0x00, 0x00, 0x00, 0x00, 0x00, 0x00, 0x00,
    0x00, 0x00, 0x00, 0x00, 0x00, 0x00, 0x00, 0x00, 0x00, 0x00, 0x00, 0x00, 0x00, 0x00, 0x00, 0x00,
    0x00, 0x00, 0x00, 0x00, 0x00, 0x00, 0x00, 0x00, 0x00, 0x00, 0x00, 0x00, 0x00, 0x00, 0x00, 0x00,
    0x00, 0x00, 0x00, 0x00, 0x00, 0x00, 0x00, 0x00, 0x00, 0x00, 0x00, 0x00, 0x00, 0x00, 0x00, 0x00,
    0x00, 0x00, 0x00, 0x00, 0x00, 0x00, 0x00, 0x00, 0x00, 0x00, 0x00, 0x00, 0x00, 0x00, 0x00, 0x00,
    0x00, 0x00, 0x00, 0x00, 0x00, 0x00, 0x00, 0x00, 0x00, 0x00, 0x00, 0x00, 0x00, 0x00, 0x00, 0x00,
];

/// Round-constant table of the permutation Q, laid out like [`C_P`].
pub const C_Q: [u8; 128] = [
    0xff, 0xff, 0xff, 0xff, 0xff, 0xff, 0xff, 0xff, 0xff, 0xff, 0xff, 0xff, 0xff, 0xff, 0xff, 0xff,
    0xff, 0xff, 0xff, 0xff, 0xff, 0xff, 0xff, 0xff, 0xff, 0xff, 0xff, 0xff, 0xff, 0xff, 0xff, 0xff,
    0xff, 0xff, 0xff, 0xff, 0xff, 0xff, 0xff, 0xff, 0xff, 0xff, 0xff, 0xff, 0xff, 0xff, 0xff, 0xff,
    0xff, 0xff, 0xff, 0xff, 0xff, 0xff, 0xff, 0xff, 0xff, 0xff, 0xff, 0xff, 0xff, 0xff, 0xff, 0xff,
    0xff, 0xff, 0xff, 0xff, 0xff, 0xff, 0xff, 0xff, 0xff, 0xff, 0xff, 0xff, 0xff, 0xff, 0xff, 0xff,
    0xff, 0xff, 0xff, 0xff, 0xff, 0xff, 0xff, 0xff, 0xff, 0xff, 0xff, 0xff, 0xff, 0xff, 0xff, 0xff,
    0xff, 0xff, 0xff, 0xff, 0xff, 0xff, 0xff, 0xff, 0xff, 0xff, 0xff, 0xff, 0xff, 0xff, 0xff, 0xff,
    0xff, 0xef, 0xdf, 0xcf, 0xbf, 0xaf, 0x9f, 0x8f, 0x7f, 0x6f, 0x5f, 0x4f, 0x3f, 0x2f, 0x1f, 0x0f,
];

/// The MixBytes matrix: the circulant whose first row is (2, 2, 3, 4, 5, 3, 5, 7).
pub const B: [[u8; 8]; 8] = [
    [2, 2, 3, 4, 5, 3, 5, 7],
    [7, 2, 2, 3, 4, 5, 3, 5],
    [5, 7, 2, 2, 3, 4, 5, 3],
    [3, 5, 7, 2, 2, 3, 4, 5],
    [5, 3, 5, 7, 2, 2, 3, 4],
    [4, 5, 3, 5, 7, 2, 2, 3],
    [3, 4, 5, 3, 5, 7, 2, 2],
    [2, 3, 4, 5, 3, 5, 7, 2],
];

/// Row shifts of P on the 512-bit state.
pub const SHIFTS_P: [u8; 8] = [0, 1, 2, 3, 4, 5, 6, 7];

/// Row shifts of Q on the 512-bit state.
pub const SHIFTS_Q: [u8; 8] = [1, 3, 5, 7, 0, 2, 4, 6];

/// Row shifts of P on the 1024-bit state.
pub const SHIFTS_P_WIDE: [u8; 8] = [0, 1, 2, 3, 4, 5, 6, 11];

/// Row shifts of Q on the 1024-bit state.
pub const SHIFTS_Q_WIDE: [u8; 8] = [1, 3, 5, 11, 0, 2, 4, 6];

/// The first row of the MixBytes circulant.
pub open spec fn mds_first_row() -> Seq<u8> {
    seq![2u8, 2u8, 3u8, 4u8, 5u8, 3u8, 5u8, 7u8]
}

/// Entry (row, col) of the round constant of P before the round number is
/// mixed in: the column number in the high nibble of the top row, zero below.
pub open spec fn round_constant_p(row: int, col: int) -> u8 {
    if row == 0 {
        (col * 16) as u8
    } else {
        0u8
    }
}

/// Entry (row, col) of the round constant of Q before the round number is
/// mixed in: all ones, with the column number in the high nibble of the
/// bottom row inverted.
pub open spec fn round_constant_q(row: int, col: int) -> u8 {
    if row == 7 {
        (255 - col * 16) as u8
    } else {
        0xffu8
    }
}

/// The table `C_P` holds `round_constant_p` at every position.
pub proof fn lemma_c_p_entries()
    ensures
        forall|row: int, col: int|
            0 <= row < 8 && 0 <= col < 16 ==> #[trigger] C_P[row * 16 + col] == round_constant_p(
                row,
                col,
            ),
{
    assert forall|row: int, col: int| 0 <= row < 8 && 0 <= col < 16 implies #[trigger] C_P[row
        * 16 + col] == round_constant_p(row, col) by {
        let k = row * 16 + col;
        assert(0 <= k < 128);
        if row == 0 {
            assert(C_P[k] == (col * 16) as u8);
        } else {
            assert(C_P[k] == 0);
        }
    }
}

/// The table `C_Q` holds `round_constant_q` at every position.
pub proof fn lemma_c_q_entries()
    ensures
        forall|row: int, col: int|
            0 <= row < 8 && 0 <= col < 16 ==> #[trigger] C_Q[row * 16 + col] == round_constant_q(
                row,
                col,
            ),
{
    assert forall|row: int, col: int| 0 <= row < 8 && 0 <= col < 16 implies #[trigger] C_Q[row
        * 16 + col] == round_constant_q(row, col) by {
        let k = row * 16 + col;
        assert(0 <= k < 128);
        if row == 7 {
            assert(C_Q[k] == (255 - col * 16) as u8);
        } else {
            assert(C_Q[k] == 0xff);
        }
    }
}

/// Every row of `B` is the first row rotated right by the row number.
pub proof fn lemma_mds_circulant()
    ensures
        forall|row: int, col: int|
            0 <= row < 8 && 0 <= col < 8 ==> #[trigger] B[row][col] == mds_first_row()[(col - row
                + 8) % 8],
{
}

} // verus!
