use groestl::consts::{C_P, C_Q, SHIFTS_P, SHIFTS_Q_WIDE};
use groestl::hasher::Groestl;
use groestl::state::{xor_blocks, GroestlState};

fn get_padding_block() -> Vec<u8> {
    let padding_block: [u8; 64] = [
        128, 0, 0, 0, 0, 0, 0, 0,
        0, 0, 0, 0, 0, 0, 0, 0,
        0, 0, 0, 0, 0, 0, 0, 0,
        0, 0, 0, 0, 0, 0, 0, 0,
        0, 0, 0, 0, 0, 0, 0, 0,
        0, 0, 0, 0, 0, 0, 0, 0,
        0, 0, 0, 0, 0, 0, 0, 0,
        0, 0, 0, 0, 0, 0, 0, 1,
    ];
    padding_block.to_vec()
}

#[test]
fn test_shift_bytes() {
    let s = GroestlState::new(32, 64).unwrap();
    let mut block = vec![0u8; 64];
    for i in 0..64 {
        block[i] = i as u8;
    }
    let mut matrix = s.block_to_matrix(&block);
    s.shift_bytes(&mut matrix, SHIFTS_P);
    let block = s.matrix_to_block(&matrix);
    let expected = [
        0, 9, 18, 27, 36, 45, 54, 63,
        8, 17, 26, 35, 44, 53, 62, 7,
        16, 25, 34, 43, 52, 61, 6, 15,
        24, 33, 42, 51, 60, 5, 14, 23,
        32, 41, 50, 59, 4, 13, 22, 31,
        40, 49, 58, 3, 12, 21, 30, 39,
        48, 57, 2, 11, 20, 29, 38, 47,
        56, 1, 10, 19, 28, 37, 46, 55,
    ];
    assert_eq!(&block[..], &expected[..]);
}

#[test]
fn test_p() {
    let padding_chunk = get_padding_block();
    let s = GroestlState::new(32, 64).unwrap();
    let block = xor_blocks(s.state(), &padding_chunk);

    let p_block = s.p(&block);
    let expected = [
        247, 236, 141, 217, 73, 225, 112, 216,
        1, 155, 85, 192, 152, 168, 174, 72,
        112, 253, 159, 53, 7, 6, 8, 115,
        58, 242, 7, 115, 148, 150, 157, 25,
        18, 220, 11, 5, 178, 10, 110, 94,
        44, 56, 110, 67, 107, 234, 102, 163,
        243, 212, 49, 25, 46, 17, 170, 84,
        5, 76, 239, 51, 4, 107, 94, 20,
    ];
    assert_eq!(&p_block[..], &expected[..]);
}

#[test]
fn test_q() {
    let padding_chunk = get_padding_block();
    let g = Groestl::new(32, 64).unwrap();
    let q_block = g.state().q(&padding_chunk);
    let expected = [
        189, 183, 105, 133, 208, 106, 34, 36,
        82, 37, 180, 250, 229, 59, 230, 223,
        215, 245, 53, 117, 167, 139, 150, 186,
        210, 17, 220, 57, 116, 134, 209, 51,
        124, 108, 84, 91, 79, 103, 148, 27,
        135, 183, 144, 226, 59, 242, 87, 81,
        109, 211, 84, 185, 192, 172, 88, 210,
        8, 121, 31, 242, 158, 227, 207, 13,
    ];
    assert_eq!(&q_block[..], &expected[..]);
}

#[test]
fn test_block_to_matrix() {
    let g = Groestl::new(32, 64).unwrap();
    let s = g.state();
    let mut block1 = vec![0u8; 64];
    for i in 0..block1.len() {
        block1[i] = i as u8;
    }
    let m = s.block_to_matrix(&block1);
    let block2 = s.matrix_to_block(&m);
    assert_eq!(block1, block2);
}

#[test]
fn test_add_round_constant() {
    let padding_chunk = get_padding_block();
    let s = GroestlState::new(32, 64).unwrap();

    let mut m = s.block_to_matrix(&padding_chunk);
    s.add_round_constant(&mut m, C_P, 0);
    let b = s.matrix_to_block(&m);
    let expected = [
        128, 0, 0, 0, 0, 0, 0, 0,
        16, 0, 0, 0, 0, 0, 0, 0,
        32, 0, 0, 0, 0, 0, 0, 0,
        48, 0, 0, 0, 0, 0, 0, 0,
        64, 0, 0, 0, 0, 0, 0, 0,
        80, 0, 0, 0, 0, 0, 0, 0,
        96, 0, 0, 0, 0, 0, 0, 0,
        112, 0, 0, 0, 0, 0, 0, 1,
    ];
    assert_eq!(&b[..], &expected[..]);

    let mut m = s.block_to_matrix(&padding_chunk);
    s.add_round_constant(&mut m, C_Q, 0);
    let b = s.matrix_to_block(&m);
    let expected = [
        0x7f, 0xff, 0xff, 0xff, 0xff, 0xff, 0xff, 0xff,
        0xff, 0xff, 0xff, 0xff, 0xff, 0xff, 0xff, 0xef,
        0xff, 0xff, 0xff, 0xff, 0xff, 0xff, 0xff, 0xdf,
        0xff, 0xff, 0xff, 0xff, 0xff, 0xff, 0xff, 0xcf,
        0xff, 0xff, 0xff, 0xff, 0xff, 0xff, 0xff, 0xbf,
        0xff, 0xff, 0xff, 0xff, 0xff, 0xff, 0xff, 0xaf,
        0xff, 0xff, 0xff, 0xff, 0xff, 0xff, 0xff, 0x9f,
        0xff, 0xff, 0xff, 0xff, 0xff, 0xff, 0xff, 0x8e,
    ];
    assert_eq!(&b[..], &expected[..]);
}

#[test]
fn add_round_constant_mixes_round_number_into_marked_row() {
    let s = GroestlState::new(32, 64).unwrap();
    let zero = vec![0u8; 64];

    let mut m = s.block_to_matrix(&zero);
    s.add_round_constant(&mut m, C_P, 9);
    for col in 0..8 {
        assert_eq!(m.get(0, col), ((col as u8) << 4) ^ 9);
        for row in 1..8 {
            assert_eq!(m.get(row, col), 0);
        }
    }

    let mut m = s.block_to_matrix(&zero);
    s.add_round_constant(&mut m, C_Q, 9);
    for col in 0..8 {
        assert_eq!(m.get(7, col), 0xff ^ ((col as u8) << 4) ^ 9);
        for row in 0..7 {
            assert_eq!(m.get(row, col), 0xff);
        }
    }
}

#[test]
fn add_round_constant_with_unmarked_table_ignores_round() {
    let s = GroestlState::new(32, 64).unwrap();
    let zero = vec![0u8; 64];
    let mut table = [0u8; 128];
    table[0] = 5;
    table[17] = 3;
    let mut m = s.block_to_matrix(&zero);
    s.add_round_constant(&mut m, table, 200);
    assert_eq!(m.get(0, 0), 5);
    assert_eq!(m.get(1, 1), 3);
    assert_eq!(m.get(0, 1), 0);
    assert_eq!(m.get(7, 7), 0);
}

#[test]
fn sub_bytes_applies_the_substitution_box() {
    let s = GroestlState::new(32, 64).unwrap();
    let block: Vec<u8> = (0..64).map(|i| i as u8).collect();
    let mut m = s.block_to_matrix(&block);
    s.sub_bytes(&mut m);
    let b = s.matrix_to_block(&m);
    let expected = [
        99, 124, 119, 123, 242, 107, 111, 197,
        48, 1, 103, 43, 254, 215, 171, 118,
        202, 130, 201, 125, 250, 89, 71, 240,
        173, 212, 162, 175, 156, 164, 114, 192,
        183, 253, 147, 38, 54, 63, 247, 204,
        52, 165, 229, 241, 113, 216, 49, 21,
        4, 199, 35, 195, 24, 150, 5, 154,
        7, 18, 128, 226, 235, 39, 178, 117,
    ];
    assert_eq!(&b[..], &expected[..]);
}

#[test]
fn mix_bytes_multiplies_by_the_circulant() {
    let s = GroestlState::new(32, 64).unwrap();
    let block: Vec<u8> = (0..64).map(|i| i as u8).collect();
    let m = s.block_to_matrix(&block);
    let mixed = s.mix_bytes(&m);
    let b = s.matrix_to_block(&mixed);
    let expected = [
        24, 19, 10, 9, 20, 31, 6, 5,
        0, 11, 18, 17, 12, 7, 30, 29,
        40, 35, 58, 57, 36, 47, 54, 53,
        48, 59, 34, 33, 60, 55, 46, 45,
        120, 115, 106, 105, 116, 127, 102, 101,
        96, 107, 114, 113, 108, 103, 126, 125,
        72, 67, 90, 89, 68, 79, 86, 85,
        80, 91, 66, 65, 92, 87, 78, 77,
    ];
    assert_eq!(&b[..], &expected[..]);
}

#[test]
fn shift_bytes_wide_q() {
    let s = GroestlState::new(64, 128).unwrap();
    let block: Vec<u8> = (0..128).map(|i| i as u8).collect();
    let mut m = s.block_to_matrix(&block);
    assert_eq!(m.cols(), 16);
    assert_eq!(m.rows(), 8);
    s.shift_bytes(&mut m, SHIFTS_Q_WIDE);
    let b = s.matrix_to_block(&m);
    let expected = [
        8, 25, 42, 91, 4, 21, 38, 55,
        16, 33, 50, 99, 12, 29, 46, 63,
        24, 41, 58, 107, 20, 37, 54, 71,
        32, 49, 66, 115, 28, 45, 62, 79,
        40, 57, 74, 123, 36, 53, 70, 87,
        48, 65, 82, 3, 44, 61, 78, 95,
        56, 73, 90, 11, 52, 69, 86, 103,
        64, 81, 98, 19, 60, 77, 94, 111,
        72, 89, 106, 27, 68, 85, 102, 119,
        80, 97, 114, 35, 76, 93, 110, 127,
        88, 105, 122, 43, 84, 101, 118, 7,
        96, 113, 2, 51, 92, 109, 126, 15,
        104, 121, 10, 59, 100, 117, 6, 23,
        112, 1, 18, 67, 108, 125, 14, 31,
        120, 9, 26, 75, 116, 5, 22, 39,
        0, 17, 34, 83, 124, 13, 30, 47,
    ];
    assert_eq!(&b[..], &expected[..]);
}

#[test]
fn shift_bytes_with_shifts_beyond_the_row_length() {
    let s = GroestlState::new(32, 64).unwrap();
    let block: Vec<u8> = (0..64).map(|i| i as u8).collect();
    let mut m = s.block_to_matrix(&block);
    s.shift_bytes(&mut m, [11, 8, 16, 255, 0, 9, 10, 3]);
    let b = s.matrix_to_block(&m);
    let expected = [
        24, 1, 2, 59, 4, 13, 22, 31,
        32, 9, 10, 3, 12, 21, 30, 39,
        40, 17, 18, 11, 20, 29, 38, 47,
        48, 25, 26, 19, 28, 37, 46, 55,
        56, 33, 34, 27, 36, 45, 54, 63,
        0, 41, 42, 35, 44, 53, 62, 7,
        8, 49, 50, 43, 52, 61, 6, 15,
        16, 57, 58, 51, 60, 5, 14, 23,
    ];
    assert_eq!(&b[..], &expected[..]);
}

#[test]
fn shift_bytes_repeated_as_often_as_columns_restores_the_matrix() {
    for (d, l) in [(32usize, 64usize), (64, 128)] {
        let s = GroestlState::new(d, l).unwrap();
        let block: Vec<u8> = (0..l).map(|i| (i * 3 + 1) as u8).collect();
        let mut m = s.block_to_matrix(&block);
        for _ in 0..(l / 8) {
            s.shift_bytes(&mut m, [1, 3, 5, 11, 0, 2, 4, 6]);
        }
        assert_eq!(s.matrix_to_block(&m), block);
    }
}

#[test]
fn shift_by_four_restores_a_row_of_eight_after_two_turns() {
    let s = GroestlState::new(32, 64).unwrap();
    let block: Vec<u8> = (0..64).map(|i| i as u8).collect();
    let mut m = s.block_to_matrix(&block);
    s.shift_bytes(&mut m, [4, 4, 4, 4, 4, 4, 4, 4]);
    assert_ne!(s.matrix_to_block(&m), block);
    s.shift_bytes(&mut m, [4, 4, 4, 4, 4, 4, 4, 4]);
    assert_eq!(s.matrix_to_block(&m), block);
}

#[test]
fn block_to_matrix_is_column_major() {
    let s = GroestlState::new(64, 128).unwrap();
    let block: Vec<u8> = (0..128).map(|i| i as u8).collect();
    let m = s.block_to_matrix(&block);
    for col in 0..16 {
        for row in 0..8 {
            assert_eq!(m.get(row, col), (col * 8 + row) as u8);
        }
    }
    assert_eq!(s.matrix_to_block(&m), block);
}

#[test]
fn p_and_q_on_wide_blocks() {
    let s = GroestlState::new(64, 128).unwrap();
    let block: Vec<u8> = (0..128).map(|i| i as u8).collect();
    let p = s.p(&block);
    let expected_p = [
        58, 181, 228, 129, 93, 28, 172, 112,
        142, 21, 179, 101, 78, 29, 171, 143,
        163, 215, 91, 198, 246, 165, 151, 93,
        29, 68, 65, 162, 174, 97, 21, 75,
        178, 209, 168, 195, 248, 30, 75, 131,
        234, 235, 215, 143, 202, 12, 120, 24,
        163, 6, 119, 150, 77, 155, 6, 53,
        237, 123, 159, 30, 38, 21, 19, 142,
        20, 210, 119, 190, 254, 129, 129, 85,
        15, 208, 77, 178, 161, 221, 181, 105,
        243, 108, 187, 130, 252, 225, 48, 4,
        139, 19, 125, 164, 62, 135, 169, 210,
        89, 236, 83, 163, 101, 152, 7, 232,
        216, 203, 202, 149, 57, 43, 177, 170,
        229, 126, 201, 32, 9, 136, 221, 176,
        131, 163, 237, 167, 24, 209, 253, 153,
    ];
    assert_eq!(&p[..], &expected_p[..]);
    let q = s.q(&block);
    let expected_q = [
        119, 212, 85, 40, 141, 118, 250, 100,
        234, 92, 11, 191, 250, 215, 86, 241,
        224, 162, 90, 42, 132, 195, 72, 120,
        87, 165, 147, 227, 1, 96, 40, 69,
        121, 16, 203, 70, 191, 14, 103, 194,
        248, 133, 192, 12, 190, 115, 33, 79,
        221, 171, 195, 87, 143, 168, 49, 72,
        135, 57, 62, 164, 125, 28, 19, 5,
        249, 70, 40, 125, 97, 218, 247, 150,
        16, 223, 245, 13, 17, 146, 128, 62,
        11, 80, 182, 103, 7, 65, 46, 188,
        59, 194, 160, 224, 223, 253, 230, 152,
        39, 164, 234, 84, 160, 190, 192, 50,
        36, 187, 45, 1, 120, 103, 32, 123,
        76, 116, 146, 182, 177, 106, 113, 91,
        192, 195, 242, 190, 93, 252, 8, 46,
    ];
    assert_eq!(&q[..], &expected_q[..]);
}

#[test]
fn p_on_counting_block() {
    let s = GroestlState::new(28, 64).unwrap();
    let block: Vec<u8> = (0..64).map(|i| i as u8).collect();
    let p = s.p(&block);
    let expected = [
        60, 130, 190, 154, 105, 47, 198, 138,
        11, 203, 126, 227, 45, 56, 55, 106,
        2, 188, 50, 33, 169, 44, 66, 245,
        176, 13, 36, 82, 30, 185, 244, 246,
        190, 30, 35, 254, 224, 190, 67, 120,
        127, 141, 197, 187, 52, 100, 0, 217,
        91, 84, 207, 38, 37, 152, 50, 183,
        185, 255, 145, 56, 75, 35, 182, 239,
    ];
    assert_eq!(&p[..], &expected[..]);
}
