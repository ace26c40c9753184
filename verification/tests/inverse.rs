use groestl::consts::{B, SBOX};
use groestl::inverse::INV_SBOX;
use groestl::mds::B_INV;
use groestl::{Groestl, GroestlState};

#[test]
fn inverse_box_undoes_the_box() {
    for x in 0..256usize {
        assert_eq!(INV_SBOX[SBOX[x] as usize] as usize, x);
        assert_eq!(SBOX[INV_SBOX[x] as usize] as usize, x);
    }
}

#[test]
fn inverse_matrix_undoes_mix_bytes() {
    for (d, l) in [(32usize, 64usize), (64, 128)] {
        let s = GroestlState::new(d, l).unwrap();
        let block: Vec<u8> = (0..l).map(|i| (i * 37 + 11) as u8).collect();
        let m = s.block_to_matrix(&block);
        let mixed = s.mix_bytes(&m);
        assert_ne!(s.matrix_to_block(&mixed), block);
        assert_eq!(s.matrix_to_block(&mixed.mul_array(&B_INV)), block);
        assert_eq!(s.matrix_to_block(&m.mul_array(&B_INV).mul_array(&B)), block);
    }
}

#[test]
fn permutations_send_different_blocks_to_different_blocks() {
    let g = Groestl::new(32, 64).unwrap();
    let s = g.state();
    let mut seen_p: Vec<Vec<u8>> = Vec::new();
    let mut seen_q: Vec<Vec<u8>> = Vec::new();
    for i in 0..64usize {
        let mut block = vec![0u8; 64];
        block[i] = 1;
        let p = s.p(&block);
        let q = s.q(&block);
        assert_eq!(p.len(), 64);
        assert_eq!(q.len(), 64);
        assert!(!seen_p.contains(&p));
        assert!(!seen_q.contains(&q));
        seen_p.push(p);
        seen_q.push(q);
    }
}
