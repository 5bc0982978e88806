use crema::rng::{Xorshift64, NONZERO_SEED};

fn reference_step(mut x: u64) -> u64 {
    x ^= x << 13;
    x ^= x >> 7;
    x ^= x << 17;
    x
}

#[test]
fn a_zero_seed_is_replaced() {
    let mut zero = Xorshift64::new(0);
    let mut fixed = Xorshift64::new(NONZERO_SEED);
    for _ in 0..100 {
        let value = zero.next_u64();
        assert_ne!(value, 0);
        assert_eq!(value, fixed.next_u64());
    }
}

#[test]
fn draws_follow_the_xorshift_recurrence() {
    let mut rng = Xorshift64::new(42);
    let mut expected = 42u64;
    for _ in 0..1_000 {
        expected = reference_step(expected);
        assert_eq!(rng.next_u64(), expected);
    }
    assert_eq!(reference_step(1), 1082269761);
    assert_eq!(Xorshift64::new(1).next_u64(), 1082269761);
}

#[test]
fn the_same_seed_gives_the_same_draws() {
    let mut a = Xorshift64::new(7);
    let mut b = Xorshift64::new(7);
    for _ in 0..500 {
        assert_eq!(a.next_u64(), b.next_u64());
    }
}

#[test]
fn top_bits_fit_an_f32_mantissa() {
    let mut rng = Xorshift64::new(9);
    let mut twin = Xorshift64::new(9);
    for _ in 0..1_000 {
        let bits = rng.next_bits24();
        assert!(bits < 1 << 24);
        assert_eq!(bits as u64, twin.next_u64() >> 40);
    }
}
