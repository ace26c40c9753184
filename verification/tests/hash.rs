use groestl::hasher::Groestl;
use groestl::state::{ConfigError, GroestlState};

fn hex(bytes: &[u8]) -> String {
    let mut out = String::new();
    for b in bytes {
        out.push_str(&format!("{:02x}", b));
    }
    out
}

fn message(len: usize) -> Vec<u8> {
    (0..len).map(|i| ((i * 7 + 3) & 0xff) as u8).collect()
}

fn digest(msg: &[u8], d: usize, l: usize) -> String {
    let mut g = Groestl::new(d, l).unwrap();
    g.process(msg);
    hex(&g.finalize())
}

#[test]
fn initial_state_holds_digest_bits_big_endian() {
    let s = GroestlState::new(32, 64).unwrap();
    let mut expected = vec![0u8; 64];
    expected[62] = 1;
    assert_eq!(s.state(), &expected);
    assert_eq!(s.num_blocks(), 0);
    assert_eq!(s.output_bytes(), 32);
    assert_eq!(s.block_bytes(), 64);
    assert!(!s.wide());

    let w = GroestlState::new(64, 128).unwrap();
    let mut expected = vec![0u8; 128];
    expected[126] = 2;
    assert_eq!(w.state(), &expected);
    assert!(w.wide());

    let t = GroestlState::new(28, 64).unwrap();
    assert_eq!(&t.state()[56..], &[0, 0, 0, 0, 0, 0, 0, 224]);
    let u = GroestlState::new(48, 128).unwrap();
    assert_eq!(&u.state()[120..], &[0, 0, 0, 0, 0, 0, 1, 128]);
}

#[test]
fn empty_message_256() {
    let g = Groestl::new(32, 64).unwrap();
    assert_eq!(
        hex(&g.finalize()),
        "1a52d11d550039be16107f9c58db9ebcc417f16f736adb2502567119f0083467"
    );
}

#[test]
fn empty_message_other_sizes() {
    assert_eq!(digest(b"", 28, 64), "f2e180fb5947be964cd584e22e496242c6a329c577fc4ce8c36d34c3");
    assert_eq!(digest(b"", 64, 128), "6d3ad29d279110eef3adbd66de2a0345a77baede1557f5d099fce0c03d6dc2ba8e6d4a6633dfbd66053c20faa87d1a11f39a7fbe4a6c2f009801370308fc4ad8");
}

#[test]
fn abc_all_sizes() {
    assert_eq!(digest(b"abc", 28, 64), "ed7bb299331c99ee485d49c22d368f05d9158f2055b9605676786f43");
    assert_eq!(digest(b"abc", 32, 64), "f3c1bb19c048801326a7efbcf16e3d7887446249829c379e1840d1a3a1e7d4d2");
    assert_eq!(digest(b"abc", 32, 128), "cc87b4d84fb7909b64f2ead7565c8cad1fcfc08e544a0114d5349a1d8ad63c5d");
    assert_eq!(digest(b"abc", 48, 128), "32c39f82ab41ee4fdb1582f83dde41089d47b904988b1a9a647553cb1a502cf07df7eb1e11dc3d66bec096a39a790336");
    assert_eq!(digest(b"abc", 64, 128), "70e1c68c60df3b655339d67dc291cc3f1dde4ef343f11b23fdd44957693815a75a8339c682fc28322513fd1f283c18e53cff2b264e06bf83a2f0ac8c1f6fbff6");
}

#[test]
fn messages_around_the_block_boundaries() {
    let cases: [(usize, usize, usize, &str); 18] = [
        (55, 32, 64, "3b38cbad117afc369e42aec6687a41bd97e223b35fe72e8b31951c3e11f29bc6"),
        (55, 64, 128, "d184ee09481e665ee0351a129f3082138099e57e438b43404da264e7cbe7111541690e99b62f1a046b39cf23fe787db55553cc184b7f5fe52bd5ae3dbe4551d3"),
        (56, 32, 64, "2fd00a63282f26fb02cc7756ecc2177fce8c15bafa7bed81197b0762e1a69a9a"),
        (56, 64, 128, "14c158e0fd130570c4c8b2227ea5486f71572926db787a11de349743b0e2c05fd4edfdb96f912fb5fdd15d65f84916a78e9c2e70f2fb311364c8b9bdb3e64023"),
        (63, 32, 64, "40a9f63dea5626ec6738cf6f0940c211d62aaba392cdf742e87c32c2fcb1acb2"),
        (63, 64, 128, "b71be9a4a986eed8ffc89be879ddf7df04f5c2f6ed2e3016a2ea5f0700ca6ef15b3d16ae33ae294edb556874b53b7491ac0f8ab13d333829979e156347d845e2"),
        (64, 32, 64, "5717477aa6d429cda18b2b03fc87fe1e014cc37d661c991c9d8579e7ceac83c8"),
        (64, 64, 128, "ed21b25f5b4562c3dee60206cfbff995a0cc225f804dae98d26e4b871ed994cb9707d48c6b19538a776a8f53aa88d20e68002861458ef7b521810c8593eff4ce"),
        (119, 32, 64, "ea1cd39660b515bcae6824aa846f8873e9d1b808a95e8c4fba46cdd2934a0ee0"),
        (119, 64, 128, "f562fc8490e66e1b866808b58de418a62da6b107f1cca5d828b7162d38cd6225756d33c47506d547b3a1d669957c460ebaab2beb02379a58531deef21e79920b"),
        (120, 32, 64, "a97e4b80920bc6b0a2323e53eb89b8a861bc7b641b017c99fda3a44aa2bc0a26"),
        (120, 64, 128, "8f460253a13422908a6c47d4983b7424efe81ea649762f34724e1d0a51b09e70b612dae7c1b8365c4f5aebedf5a3ce337b83290a1941f4eda1d56ee799688775"),
        (127, 32, 64, "efc0d6375d065a946ad062802bea5c8634775f88de39a11d53f1cdfb9d8e1ff2"),
        (127, 64, 128, "1fb407183ebe5ca6a8ce37836380d0096746655e96f2936572e19dcdd6d32af5fd898b4e616f625fbe1eb86d7adbb3ffc8325c55b7a418854747cf64a88e3f37"),
        (128, 32, 64, "5ca3305cc4b99cade929b858736e09171def05f196c70f9f85978597928842a5"),
        (128, 64, 128, "065e86ab465f7273b4fa5492c3b9e4259adc93797f23c7f01e43d423d58c1160e8c2f541e02f9c71047602f7c0f2b890d6c48f1ca7e2e177ed16a2ac8b59201a"),
        (200, 32, 64, "52f23553e2f3959d2f6aba6f678c43bf302a52f2cb7baa59b7a7e085b6531843"),
        (200, 64, 128, "7566cc43b05444364656294c321a0a7bddb4a287c2a87bfd75d2520e7e0de80f4ff7a65675f4ed4a6eac81069e78bc43bdf65dab6e8e8d0e67d5d2c96bbe4e1e"),
    ];
    for (len, d, l, expected) in cases {
        assert_eq!(digest(&message(len), d, l), expected, "len {} d {} l {}", len, d, l);
    }
}

#[test]
fn digest_length_is_the_configured_one() {
    for (d, l) in [(28usize, 64usize), (32, 64), (32, 128), (48, 128), (64, 128)] {
        for len in [0usize, 1, 55, 56, 64, 130] {
            let mut g = Groestl::new(d, l).unwrap();
            g.process(&message(len));
            assert_eq!(g.finalize().len(), d);
        }
    }
}

#[test]
fn process_in_pieces_equals_process_at_once() {
    let msg = message(200);
    for (d, l) in [(32usize, 64usize), (64, 128)] {
        for split in [0usize, 1, 7, 63, 64, 65, 127, 128, 129, 199, 200] {
            let mut whole = Groestl::new(d, l).unwrap();
            whole.process(&msg);
            let mut parts = Groestl::new(d, l).unwrap();
            parts.process(&msg[..split]);
            parts.process(&msg[split..]);
            assert_eq!(whole.state().state(), parts.state().state());
            assert_eq!(whole.state().num_blocks(), parts.state().num_blocks());
            assert_eq!(whole.finalize(), parts.finalize());
        }
    }
}

#[test]
fn process_byte_by_byte() {
    let msg = message(150);
    let mut g = Groestl::new(32, 64).unwrap();
    for b in msg.iter() {
        g.process(&[*b]);
    }
    assert_eq!(g.state().num_blocks(), 2);
    assert_eq!(hex(&g.finalize()), digest(&msg, 32, 64));
}

#[test]
fn short_message_has_no_block_compressed_before_finalize() {
    for (d, l) in [(32usize, 64usize), (64, 128)] {
        for len in [0usize, 1, l - 9] {
            let mut g = Groestl::new(d, l).unwrap();
            g.process(&message(len));
            assert_eq!(g.state().num_blocks(), 0);
            let iv = GroestlState::new(d, l).unwrap();
            assert_eq!(g.state().state(), iv.state());

            let mut last = message(len);
            last.push(0x80);
            last.resize(l - 8, 0);
            last.extend_from_slice(&[0, 0, 0, 0, 0, 0, 0, 1]);
            let mut s = GroestlState::new(d, l).unwrap();
            s.compress(&last);
            assert_eq!(s.num_blocks(), 1);
            assert_eq!(s.finalize(), g.finalize());
        }
    }
}

#[test]
fn long_padding_counts_the_carried_block() {
    let msg = message(60);
    let mut first = msg.clone();
    first.push(0x80);
    first.resize(64, 0);
    let mut last = vec![0u8; 56];
    last.extend_from_slice(&[0, 0, 0, 0, 0, 0, 0, 2]);
    let mut s = GroestlState::new(32, 64).unwrap();
    s.compress(&first);
    s.compress(&last);
    assert_eq!(hex(&s.finalize()), digest(&msg, 32, 64));
}

#[test]
fn compress_of_padding_block() {
    let mut s = GroestlState::new(32, 64).unwrap();
    let mut block = vec![0u8; 64];
    block[0] = 0x80;
    block[63] = 1;
    s.compress(&block);
    assert_eq!(s.num_blocks(), 1);
    assert_eq!(hex(s.state()), "4a5be45c998b52fc53bee13a7d934897a708aa40a08d9ec9e8e3db4ae0104c2a6eb05f5efd6dfa45ab8ffea1501831f29e0765a0eebdf2860d35f0c19a889019");
}

#[test]
fn rejected_configurations() {
    assert_eq!(Groestl::new(32, 100).err(), Some(ConfigError::BlockSize));
    assert_eq!(Groestl::new(32, 0).err(), Some(ConfigError::BlockSize));
    assert_eq!(Groestl::new(200, 32).err(), Some(ConfigError::BlockSize));
    assert_eq!(Groestl::new(64, 64).err(), Some(ConfigError::OutputSize));
    assert_eq!(Groestl::new(48, 64).err(), Some(ConfigError::OutputSize));
    assert_eq!(Groestl::new(28, 128).err(), Some(ConfigError::OutputSize));
    assert_eq!(Groestl::new(0, 64).err(), Some(ConfigError::OutputSize));
    assert_eq!(Groestl::new(31, 64).err(), Some(ConfigError::OutputSize));
    assert_eq!(Groestl::new(129, 128).err(), Some(ConfigError::OutputSize));
    assert_eq!(GroestlState::new(33, 128).err(), Some(ConfigError::OutputSize));
    assert_eq!(GroestlState::new(32, 65).err(), Some(ConfigError::BlockSize));
    for (d, l) in [(28usize, 64usize), (32, 64), (32, 128), (48, 128), (64, 128)] {
        assert!(Groestl::new(d, l).is_ok());
    }
}
