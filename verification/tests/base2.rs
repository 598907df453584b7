use base2::Base2;

#[test]
fn floor_log2_small_values() {
    assert_eq!(0_u8.floor_log2(), 0);
    assert_eq!(1_u16.floor_log2(), 0);
    assert_eq!(2_u32.floor_log2(), 1);
    assert_eq!(3_u64.floor_log2(), 1);
    assert_eq!(4_u128.floor_log2(), 2);
    assert_eq!(5_u8.floor_log2(), 2);
    assert_eq!(6_u8.floor_log2(), 2);
    assert_eq!(7_u16.floor_log2(), 2);
    assert_eq!(8_usize.floor_log2(), 3);
    assert_eq!(9_u16.floor_log2(), 3);
    assert_eq!(0xFF_u8.floor_log2(), 7);
}

#[test]
fn floor_log2_zero_every_width() {
    assert_eq!(0_u8.floor_log2(), 0);
    assert_eq!(0_u16.floor_log2(), 0);
    assert_eq!(0_u32.floor_log2(), 0);
    assert_eq!(0_u64.floor_log2(), 0);
    assert_eq!(0_u128.floor_log2(), 0);
    assert_eq!(0_usize.floor_log2(), 0);
}

#[test]
fn floor_log2_max_values() {
    assert_eq!(u8::MAX.floor_log2(), 7);
    assert_eq!(u16::MAX.floor_log2(), 15);
    assert_eq!(u32::MAX.floor_log2(), 31);
    assert_eq!(u64::MAX.floor_log2(), 63);
    assert_eq!(u128::MAX.floor_log2(), 127);
}

#[test]
fn floor_log2_of_powers_of_two_round_trip() {
    for k in 0..8 {
        assert_eq!(u8::exp2(k).floor_log2(), k);
    }
    for k in 0..16 {
        assert_eq!(u16::exp2(k).floor_log2(), k);
    }
    for k in 0..32 {
        assert_eq!(u32::exp2(k).floor_log2(), k);
    }
    for k in 0..64 {
        assert_eq!(u64::exp2(k).floor_log2(), k);
    }
    for k in 0..128 {
        assert_eq!(u128::exp2(k).floor_log2(), k);
    }
}

#[test]
fn floor_log2_monotonic_sweep() {
    let mut prev = 0_u8;
    for v in 0..=u16::MAX {
        let r = v.floor_log2();
        assert!(r >= prev);
        prev = r;
    }
}

#[test]
fn floor_log2_matches_halving_scan() {
    for v in 0..=u16::MAX {
        let mut x = v;
        let mut count = 0_u8;
        while x > 1 {
            x >>= 1;
            count += 1;
        }
        assert_eq!(v.floor_log2(), count);
    }
}

#[test]
fn exp2_small_values() {
    assert_eq!(u8::exp2(0), 1);
    assert_eq!(u16::exp2(1), 2);
    assert_eq!(u32::exp2(2), 4);
    assert_eq!(u64::exp2(3), 8);
    assert_eq!(u128::exp2(4), 16);
    assert_eq!(usize::exp2(5), 32);
}

#[test]
fn exp2_eight_bit_values() {
    assert_eq!(u8::exp2(0), 1);
    assert_eq!(u8::exp2(3), 8);
    assert_eq!(u8::exp2(7), 128);
}

#[test]
fn exp2_is_shift_and_power_of_two() {
    for p in 0..64 {
        let r = u64::exp2(p);
        assert_eq!(r, 1_u64 << p);
        assert!(r.is_power_of_two());
    }
    for p in 0..128 {
        let r = u128::exp2(p);
        assert_eq!(r, 1_u128 << p);
        assert!(r.is_power_of_two());
    }
}

#[test]
fn mask_small_values() {
    assert_eq!(u8::mask(0), 0);
    assert_eq!(u16::mask(1), 1);
    assert_eq!(u32::mask(2), 0b11);
    assert_eq!(u64::mask(3), 0b111);
    assert_eq!(u128::mask(4), 0b1111);
    assert_eq!(usize::mask(5), 0b11111);
    assert_eq!(u8::mask(8), 0b1111_1111);
}

#[test]
fn mask_at_and_above_width_is_all_ones() {
    assert_eq!(u8::mask(8), u8::MAX);
    assert_eq!(u8::mask(9), u8::MAX);
    assert_eq!(u8::mask(u8::MAX), u8::MAX);
    assert_eq!(u16::mask(16), u16::MAX);
    assert_eq!(u32::mask(32), u32::MAX);
    assert_eq!(u64::mask(64), u64::MAX);
    assert_eq!(u128::mask(128), u128::MAX);
    assert_eq!(u128::mask(200), u128::MAX);
    assert_eq!(usize::mask(usize::BITS as u8), usize::MAX);
}

#[test]
fn mask_below_width_is_one_less_than_exp2() {
    for p in 0..8 {
        assert_eq!(u8::mask(p), u8::exp2(p) - 1);
    }
    for p in 0..64 {
        assert_eq!(u64::mask(p), u64::exp2(p) - 1);
    }
    for p in 0..128 {
        assert_eq!(u128::mask(p), u128::exp2(p) - 1);
    }
}

#[test]
fn mask_set_bit_count() {
    for p in 0..=u8::MAX {
        let expected = p.min(8) as u32;
        assert_eq!(u8::mask(p).count_ones(), expected);
    }
    for p in 0..=u8::MAX {
        let expected = p.min(64) as u32;
        assert_eq!(u64::mask(p).count_ones(), expected);
    }
    for p in 0..=u8::MAX {
        let expected = p.min(128) as u32;
        assert_eq!(u128::mask(p).count_ones(), expected);
    }
}
