use village_siege::rng::Rng;

#[test]
fn gen_u64_known_values() {
    let mut rng = Rng::new(1);
    assert_eq!(rng.gen_u64(), 14839104130206199084);
    assert_eq!(rng.gen_u64(), 7050053486739369280);

    let mut rng = Rng::new(42);
    assert_eq!(rng.gen_u64(), 12558987674375533620);
}

#[test]
fn same_seed_same_draws() {
    let mut a = Rng::new(123456789);
    let mut b = Rng::new(123456789);
    for _ in 0..100 {
        assert_eq!(a.gen_u64(), b.gen_u64());
    }
}

#[test]
fn same_seed_same_range_draws() {
    let mut a = Rng::new(77);
    let mut b = Rng::new(77);
    for _ in 0..100 {
        assert_eq!(a.gen_u8_range(3, 17), b.gen_u8_range(3, 17));
        assert_eq!(a.gen_i16_range(-4, 4), b.gen_i16_range(-4, 4));
        assert_eq!(a.gen_bool(), b.gen_bool());
    }
}

#[test]
fn u8_range_known_sequence() {
    let mut rng = Rng::new(7);
    let drawn: Vec<u8> = (0..5).map(|_| rng.gen_u8_range(0, 10)).collect();
    assert_eq!(drawn, vec![8, 9, 4, 3, 9]);
}

#[test]
fn ranges_stay_in_bounds() {
    let mut rng = Rng::new(99);
    for _ in 0..1000 {
        let v = rng.gen_u8_range(10, 20);
        assert!((10..20).contains(&v));
        let v = rng.gen_u16_range(0, 4);
        assert!(v < 4);
        let v = rng.gen_i8_range(-2, 7);
        assert!((-2..=7).contains(&v));
        let v = rng.gen_i16_range(-4, 4);
        assert!((-4..=4).contains(&v));
        let v = rng.gen_usize_range(0, 13);
        assert!(v < 13);
    }
}

#[test]
fn gen_mod_covers_all_residues() {
    let mut rng = Rng::new(5);
    let mut seen = [false; 7];
    for _ in 0..500 {
        seen[rng.gen_mod_u32(7) as usize] = true;
    }
    assert!(seen.iter().all(|s| *s));
}

#[test]
fn mul_high_known_values() {
    assert_eq!(village_siege::rng::mul_high_u32(u32::MAX, u32::MAX), u32::MAX - 1);
    assert_eq!(village_siege::rng::mul_high_u64(1 << 63, 4), 2);
    assert_eq!(village_siege::rng::mul_high_u128(1 << 127, 4), 2);
    assert_eq!(
        village_siege::rng::mul_high_u128(u128::MAX, u128::MAX),
        u128::MAX - 1
    );
    assert_eq!(village_siege::rng::mul_high_u32(3, 5), 0);
}

#[test]
fn gen_u128_combines_two_draws() {
    let mut a = Rng::new(31);
    let mut b = Rng::new(31);
    let hi = b.gen_u64() as u128;
    let lo = b.gen_u64() as u128;
    assert_eq!(a.gen_u128(), (hi << 64) | lo);
}

#[test]
fn gen_i8_full_reinterprets_low_bits() {
    let mut a = Rng::new(8);
    let mut b = Rng::new(8);
    let raw = (b.gen_u64() & 0xFF) as u8;
    assert_eq!(a.gen_i8_full(), raw as i8);
}
