use splitrng::hashing::{hash_words, words_to_le_bytes};
use splitrng::sip::{rotate, Lanes};
use splitrng::{SipRng, SplitRng, SplittableRng};

#[test]
fn seed_zero_first_word() {
    let mut g = SipRng::new(0, 0);
    assert_eq!(g.next_u64(), 0x74a1bca584b1e23a);
}

#[test]
fn seed_zero_first_words() {
    let mut g = SipRng::from_seed((0, 0));
    assert_eq!(g.gen_words(4), vec![
        0x74a1bca584b1e23a,
        0x5a157bff121a5175,
        0xbb46e683e02a57cd,
        0x445bbda0ef24f00b,
    ]);
}

#[test]
fn round_keeps_v0_rotation_quirk() {
    let l = Lanes { v0: 1, v1: 2, v2: 3, v3: 4 }.round();
    assert!(l == Lanes { v0: 0x300040007, v1: 0x8006400a, v2: 0x4000700000003, v3: 0x8300e40007 });
}

#[test]
fn rotate_wraps_high_bits() {
    assert_eq!(rotate(0x8000000000000001, 13), 0x3000);
}

#[test]
fn fill_bytes_partial_block() {
    let mut g = SipRng::new(0, 0);
    let mut buf = [0u8; 10];
    g.fill_bytes(&mut buf);
    assert_eq!(buf, [58, 226, 177, 132, 165, 188, 161, 116, 117, 81]);
    // two words were drawn
    assert_eq!(g.next_u64(), 0xbb46e683e02a57cd);
}

#[test]
fn fill_bytes_empty_draws_nothing() {
    let mut g = SipRng::new(0, 0);
    let mut buf: [u8; 0] = [];
    g.fill_bytes(&mut buf);
    assert_eq!(g.next_u64(), 0x74a1bca584b1e23a);
}

#[test]
fn next_u32_is_low_half() {
    let mut g = SipRng::new(1234567890, 987654321);
    let mut h = g.clone();
    assert_eq!(g.next_u32(), 0x531002b8);
    assert_eq!(h.next_u64(), 0xedcee571531002b8);
}

#[test]
fn reseed_after_draws_restarts() {
    let mut g = SipRng::new(9, 9);
    g.next_u64();
    g.split_mut();
    g.reseed((0, 0));
    assert_eq!(g.next_u64(), 0x74a1bca584b1e23a);
}

#[test]
fn split_gives_branches_zero_and_one() {
    let (mut a, mut b) = SipRng::new(0, 0).split();
    assert_eq!(a.next_u64(), 0xbf8be5339c01b092);
    assert_eq!(b.next_u64(), 0x608b99fc61b0a5b0);
}

#[test]
fn split_mut_keeps_branch_zero() {
    let mut g = SipRng::new(0, 0);
    let mut child = g.split_mut();
    assert_eq!(g.next_u64(), 0xbf8be5339c01b092);
    assert_eq!(child.next_u64(), 0x608b99fc61b0a5b0);
}

#[test]
fn branch_is_repeatable() {
    let s = SipRng::new(0, 0).splitn();
    let mut a = s.branch(1);
    let mut b = s.clone().branch(1);
    assert_eq!(a.next_u64(), 0x608b99fc61b0a5b0);
    assert_eq!(b.next_u64(), 0x608b99fc61b0a5b0);
}

#[test]
fn descend_restarts_counter() {
    let mut g = SipRng::new(0, 0);
    g.next_u64();
    let mut c = g.splitn().branch(7);
    assert_eq!(c.next_u64(), 0xdb72744a6114a176);
}

#[test]
fn nested_splits_reach_depth_three() {
    let (_, right) = SipRng::new(0, 0).split();
    let (mut rl, mut rr) = right.split();
    assert_eq!(rl.next_u64(), 0xca9b5d70811dae27);
    assert_eq!(rr.next_u64(), 0x20685535b7a07026);
}

#[test]
fn split_gen_words_uses_child_branches() {
    let mut g = SipRng::new(0, 0);
    let (a, b) = g.split_gen_words(1, 0);
    assert_eq!(a, vec![0xca9b5d70811dae27]);
    assert!(b.is_empty());
    assert_eq!(g.next_u64(), 0xbf8be5339c01b092);
}

#[test]
fn rand_words_and_pair_follow_branches() {
    let s = SipRng::new(0, 0).splitn();
    assert_eq!(s.rand_words(1), vec![0xbf8be5339c01b092]);
    let (a, b) = s.rand_pair(1, 1);
    assert_eq!(a, vec![0xbf8be5339c01b092]);
    assert_eq!(b, vec![0x608b99fc61b0a5b0]);
}

#[test]
fn hash_of_no_words() {
    assert_eq!(hash_words(&[]), 0x1e924b9d737700d7);
}

#[test]
fn hash_of_words_is_sip24_of_le_bytes() {
    assert_eq!(words_to_le_bytes(&[1, 0x0102]), vec![1, 0, 0, 0, 0, 0, 0, 0, 2, 1, 0, 0, 0, 0, 0, 0]);
    assert_eq!(hash_words(&[1, 2, 3]), 0xd17877799911d4cd);
}

#[test]
fn random_function_exact_value() {
    let f = SipRng::new(5, 6).splitn().rand_fn();
    let expected = vec![0xbf9d2462754f55b2, 0xc5041dcc350f21b2];
    assert_eq!(f.eval(&[1, 2, 3], 2), expected);
    assert_eq!(f.eval_hashed(0xd17877799911d4cd, 2), expected);
    assert_eq!(f.eval(&[1, 2, 3], 2), f.eval(&[1, 2, 3], 2));
    assert_ne!(f.eval(&[1, 2, 4], 2), expected);
}

#[test]
fn prf_call_matches_branch() {
    let mut g = SipRng::new(0, 0);
    let p = g.splitn_mut();
    let mut a = p.call(0);
    let mut b = p.clone().call(0);
    assert_eq!(a.next_u64(), 0xca9b5d70811dae27);
    assert_eq!(b.next_u64(), 0xca9b5d70811dae27);
}
