use groestl::buffer::BlockBuffer;
use groestl::consts::{B, SBOX};
use groestl::field::{multiply, times_x};
use groestl::matrix::Matrix;
use groestl::rotation::{gcd, rotate_row};

#[test]
fn gcd_values() {
    assert_eq!(gcd(0, 0), 0);
    assert_eq!(gcd(7, 0), 7);
    assert_eq!(gcd(0, 8), 8);
    assert_eq!(gcd(1, 8), 1);
    assert_eq!(gcd(4, 8), 4);
    assert_eq!(gcd(6, 8), 2);
    assert_eq!(gcd(11, 16), 1);
    assert_eq!(gcd(12, 16), 4);
    assert_eq!(gcd(16, 12), 4);
    assert_eq!(gcd(255, 16), 1);
    assert_eq!(gcd(48, 180), 12);
}

#[test]
fn field_products() {
    assert_eq!(times_x(0x57), 0xae);
    assert_eq!(times_x(0xae), 0x47);
    assert_eq!(times_x(0x80), 0x1b);
    assert_eq!(times_x(0), 0);
    assert_eq!(multiply(0x57, 0x83), 0xc1);
    assert_eq!(multiply(0x57, 0x13), 0xfe);
    assert_eq!(multiply(0xff, 0xff), 0x13);
    assert_eq!(multiply(0x80, 7), 0xad);
    assert_eq!(multiply(0x53, 0xca), 1);
    for a in 0..=255u8 {
        assert_eq!(multiply(a, 0), 0);
        assert_eq!(multiply(0, a), 0);
        assert_eq!(multiply(a, 1), a);
        assert_eq!(multiply(a, 2), times_x(a));
        assert_eq!(multiply(a, 3), times_x(a) ^ a);
        assert_eq!(multiply(a, 0x1d), multiply(0x1d, a));
    }
}

#[test]
fn tables_match_their_rules() {
    assert_eq!(SBOX[0], 0x63);
    assert_eq!(SBOX[1], 0x7c);
    assert_eq!(SBOX[0x53], 0xed);
    assert_eq!(SBOX[255], 0x16);
    let mut seen = [false; 256];
    for x in 0..256 {
        seen[SBOX[x] as usize] = true;
    }
    assert!(seen.iter().all(|s| *s));
    let first = [2u8, 2, 3, 4, 5, 3, 5, 7];
    for i in 0..8 {
        for k in 0..8 {
            assert_eq!(B[i][k], first[(k + 8 - i) % 8]);
        }
    }
}

#[test]
fn matrix_get_set_and_product() {
    let mut m = Matrix::new(8);
    assert_eq!(m.rows(), 8);
    assert_eq!(m.cols(), 8);
    for r in 0..8 {
        for c in 0..8 {
            assert_eq!(m.get(r, c), 0);
        }
    }
    m.set(2, 5, 9);
    assert_eq!(m.get(2, 5), 9);
    assert_eq!(m.get(5, 2), 0);

    let mut identity = [[0u8; 8]; 8];
    for i in 0..8 {
        identity[i][i] = 1;
    }
    let same = m.mul_array(&identity);
    for r in 0..8 {
        for c in 0..8 {
            assert_eq!(same.get(r, c), m.get(r, c));
        }
    }
    let mixed = m.mul_array(&B);
    for r in 0..8 {
        for c in 0..8 {
            let expected = if c == 5 { multiply(9, B[r][2]) } else { 0 };
            assert_eq!(mixed.get(r, c), expected);
        }
    }
}

#[test]
fn rotate_row_turns_one_row_left() {
    let mut m = Matrix::new(16);
    for r in 0..8 {
        for c in 0..16 {
            m.set(r, c, (r * 16 + c) as u8);
        }
    }
    rotate_row(&mut m, 3, 12);
    for r in 0..8 {
        for c in 0..16 {
            let expected = if r == 3 { 3 * 16 + (c + 12) % 16 } else { r * 16 + c };
            assert_eq!(m.get(r, c), expected as u8);
        }
    }
    rotate_row(&mut m, 3, 16);
    rotate_row(&mut m, 3, 4);
    for c in 0..16 {
        assert_eq!(m.get(3, c), (3 * 16 + c) as u8);
    }
}

#[test]
fn buffer_hands_out_whole_blocks_and_keeps_the_rest() {
    let data: Vec<u8> = (1..=200).map(|i| i as u8).collect();
    let mut b = BlockBuffer::new(false);
    let out = b.input(&data[..70]);
    assert_eq!(out, &data[..64]);
    let out = b.input(&data[70..100]);
    assert!(out.is_empty());
    let out = b.input(&data[100..200]);
    assert_eq!(out, &data[64..192]);
    let carried = b.standard_padding(8);
    assert!(carried.is_empty());
    b.next(&[9, 8, 7, 6, 5, 4, 3, 2]);
    let last = b.full_buffer();
    let mut expected = data[192..].to_vec();
    expected.push(0x80);
    expected.resize(56, 0);
    expected.extend_from_slice(&[9, 8, 7, 6, 5, 4, 3, 2]);
    assert_eq!(last, expected);
}

#[test]
fn buffer_padding_spills_when_fewer_than_rem_bytes_are_free() {
    let data: Vec<u8> = (1..=200).map(|i| i as u8).collect();
    for (wide, l) in [(false, 64usize), (true, 128usize)] {
        let mut b = BlockBuffer::new(wide);
        let out = b.input(&data[..l - 8]);
        assert!(out.is_empty());
        let carried = b.standard_padding(8);
        let mut expected = data[..l - 8].to_vec();
        expected.push(0x80);
        expected.resize(l, 0);
        assert_eq!(carried, expected);
        b.next(&[1, 2, 3, 4, 5, 6, 7, 8]);
        let last = b.full_buffer();
        let mut expected = vec![0u8; l - 8];
        expected.extend_from_slice(&[1, 2, 3, 4, 5, 6, 7, 8]);
        assert_eq!(last, expected);

        let mut b = BlockBuffer::new(wide);
        b.input(&data[..l - 9]);
        let carried = b.standard_padding(8);
        assert!(carried.is_empty());
        b.next(&[1, 2, 3, 4, 5, 6, 7, 8]);
        let last = b.full_buffer();
        let mut expected = data[..l - 9].to_vec();
        expected.push(0x80);
        expected.extend_from_slice(&[1, 2, 3, 4, 5, 6, 7, 8]);
        assert_eq!(last, expected);
    }
}

#[test]
fn wide_buffer_cuts_blocks_of_128_bytes() {
    let data: Vec<u8> = (0..=255).map(|i| i as u8).collect();
    let mut b = BlockBuffer::new(true);
    let first = b.input(&data[..100]);
    assert!(first.is_empty());
    let out = b.input(&data[100..]);
    assert_eq!(out, data);
    let carried = b.standard_padding(8);
    assert!(carried.is_empty());
    b.next(&[0; 8]);
    let last = b.full_buffer();
    let mut expected = vec![0u8; 128];
    expected[0] = 0x80;
    assert_eq!(last, expected);
}
